use cli_games::tic_tac_toe::{Cell, Game, MoveError, Player};

#[test]
fn new_game_is_empty_with_x_to_move() {
    let g = Game::new();
    assert_eq!(g.current_player(), Player::X);
    for row in 0..3 {
        for col in 0..3 {
            assert_eq!(g.cell_at(row, col), Cell::Empty);
        }
    }
}

#[test]
fn accepted_moves_alternate_players() {
    let mut g = Game::new();
    assert_eq!(g.current_player(), Player::X);
    assert_eq!(g.make_move(0, 0), Ok(()));
    assert_eq!(g.current_player(), Player::O);
    assert_eq!(g.make_move(1, 1), Ok(()));
    assert_eq!(g.current_player(), Player::X);
    assert_eq!(g.make_move(2, 2), Ok(()));
    assert_eq!(g.current_player(), Player::O);
}

#[test]
fn rejected_moves_do_not_change_the_player() {
    let mut g = Game::new();
    assert_eq!(g.make_move(0, 0), Ok(()));
    assert_eq!(g.current_player(), Player::O);
    assert_eq!(g.make_move(0, 0), Err(MoveError::CellOccupied));
    assert_eq!(g.current_player(), Player::O);
    assert_eq!(g.make_move(3, 0), Err(MoveError::OutOfBounds));
    assert_eq!(g.current_player(), Player::O);
}

#[test]
fn occupied_cell_is_rejected_and_grid_unchanged() {
    let mut g = Game::new();
    assert_eq!(g.make_move(1, 2), Ok(()));
    assert_eq!(g.cell_at(1, 2), Cell::Filled(Player::X));
    assert_eq!(g.make_move(1, 2), Err(MoveError::CellOccupied));
    assert_eq!(g.cell_at(1, 2), Cell::Filled(Player::X));
    for row in 0..3 {
        for col in 0..3 {
            if (row, col) != (1, 2) {
                assert_eq!(g.cell_at(row, col), Cell::Empty);
            }
        }
    }
}

#[test]
fn out_of_bounds_coordinates_are_rejected() {
    let mut g = Game::new();
    assert_eq!(g.make_move(3, 0), Err(MoveError::OutOfBounds));
    assert_eq!(g.make_move(0, 3), Err(MoveError::OutOfBounds));
    assert_eq!(g.make_move(100, 100), Err(MoveError::OutOfBounds));
    for row in 0..3 {
        for col in 0..3 {
            assert_eq!(g.cell_at(row, col), Cell::Empty);
        }
    }
}

#[test]
fn row_win_is_detected() {
    let mut g = Game::new();
    // X: (0,0) (0,1) (0,2); O: (1,0) (1,1)
    assert_eq!(g.make_move(0, 0), Ok(()));
    assert_eq!(g.make_move(1, 0), Ok(()));
    assert_eq!(g.make_move(0, 1), Ok(()));
    assert_eq!(g.make_move(1, 1), Ok(()));
    assert_eq!(g.check_winner(), None);
    assert_eq!(g.make_move(0, 2), Ok(()));
    assert_eq!(g.check_winner(), Some(Player::X));
}

#[test]
fn column_win_is_detected() {
    let mut g = Game::new();
    // O takes column 2 while X plays elsewhere.
    assert_eq!(g.make_move(0, 1), Ok(()));
    assert_eq!(g.make_move(0, 2), Ok(()));
    assert_eq!(g.make_move(1, 1), Ok(()));
    assert_eq!(g.make_move(1, 2), Ok(()));
    assert_eq!(g.make_move(2, 0), Ok(()));
    assert_eq!(g.check_winner(), None);
    assert_eq!(g.make_move(2, 2), Ok(()));
    assert_eq!(g.check_winner(), Some(Player::O));
}

#[test]
fn diagonal_win_is_detected() {
    let mut g = Game::new();
    // X: (0,0) (1,1) (2,2); O: (0,1) (0,2)
    assert_eq!(g.make_move(0, 0), Ok(()));
    assert_eq!(g.make_move(0, 1), Ok(()));
    assert_eq!(g.make_move(1, 1), Ok(()));
    assert_eq!(g.make_move(0, 2), Ok(()));
    assert_eq!(g.make_move(2, 2), Ok(()));
    assert_eq!(g.check_winner(), Some(Player::X));
}

#[test]
fn anti_diagonal_win_is_detected() {
    let mut g = Game::new();
    // X: (0,2) (1,1) (2,0); O: (0,0) (0,1)
    assert_eq!(g.make_move(0, 2), Ok(()));
    assert_eq!(g.make_move(0, 0), Ok(()));
    assert_eq!(g.make_move(1, 1), Ok(()));
    assert_eq!(g.make_move(0, 1), Ok(()));
    assert_eq!(g.make_move(2, 0), Ok(()));
    assert_eq!(g.check_winner(), Some(Player::X));
}

#[test]
fn no_winner_on_empty_or_partial_board() {
    let mut g = Game::new();
    assert_eq!(g.check_winner(), None);
    assert_eq!(g.make_move(0, 0), Ok(()));
    assert_eq!(g.make_move(1, 1), Ok(()));
    assert_eq!(g.check_winner(), None);
    assert!(!g.is_draw());
}

#[test]
fn full_board_without_winner_is_a_draw() {
    let mut g = Game::new();
    // Fill row-major with X O X / O X O / O X O. The seventh cell repeats
    // the previous player, so the turn is passed once by hand there.
    assert_eq!(g.make_move(0, 0), Ok(())); // X
    assert_eq!(g.make_move(0, 1), Ok(())); // O
    assert_eq!(g.make_move(0, 2), Ok(())); // X
    assert_eq!(g.make_move(1, 0), Ok(())); // O
    assert_eq!(g.make_move(1, 1), Ok(())); // X
    assert_eq!(g.make_move(1, 2), Ok(())); // O
    g.switch_player(); // let O move twice in a row
    assert_eq!(g.make_move(2, 0), Ok(())); // O
    assert_eq!(g.make_move(2, 1), Ok(())); // X
    assert_eq!(g.make_move(2, 2), Ok(())); // O
    assert_eq!(g.check_winner(), None);
    assert!(g.is_draw());
}

#[test]
fn partially_filled_board_is_not_a_draw() {
    let mut g = Game::new();
    assert_eq!(g.make_move(0, 0), Ok(()));
    assert!(!g.is_draw());
}

#[test]
fn full_board_with_winner_is_not_a_draw() {
    let mut g = Game::new();
    // X takes the first row while O fills elsewhere; then fill the rest by
    // passing the turn so the board becomes full with a winning line.
    assert_eq!(g.make_move(0, 0), Ok(())); // X
    assert_eq!(g.make_move(1, 0), Ok(())); // O
    assert_eq!(g.make_move(0, 1), Ok(())); // X
    assert_eq!(g.make_move(1, 1), Ok(())); // O
    assert_eq!(g.make_move(0, 2), Ok(())); // X wins the first row
    assert_eq!(g.check_winner(), Some(Player::X));
    assert_eq!(g.make_move(1, 2), Ok(())); // O
    g.switch_player();
    assert_eq!(g.make_move(2, 0), Ok(())); // O
    g.switch_player();
    assert_eq!(g.make_move(2, 1), Ok(())); // O
    g.switch_player();
    assert_eq!(g.make_move(2, 2), Ok(())); // O
    assert!(!g.is_draw());
}

#[test]
fn render_shows_brackets_rows_and_symbols() {
    let mut g = Game::new();
    assert_eq!(g.render(), "[ ][ ][ ]\n[ ][ ][ ]\n[ ][ ][ ]\n");
    assert_eq!(g.make_move(0, 0), Ok(()));
    assert_eq!(g.make_move(1, 1), Ok(()));
    assert_eq!(g.render(), "[X][ ][ ]\n[ ][O][ ]\n[ ][ ][ ]\n");
}

#[test]
fn symbols_match_the_display_convention() {
    assert_eq!(Player::X.symbol(), "X");
    assert_eq!(Player::O.symbol(), "O");
    assert_eq!(Cell::Empty.symbol(), " ");
    assert_eq!(Cell::Filled(Player::O).symbol(), "O");
}
