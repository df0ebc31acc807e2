//! Two-player Tic-Tac-Toe engine: a 3x3 grid of cells, an alternating
//! current player, move validation, winner and draw detection, and a text
//! rendering of the board.

use vstd::prelude::*;

verus! {

/// One of the two players; displayed as "X" and "O".
#[derive(Copy, Clone, PartialEq, Eq, Structural, Debug)]
pub enum Player {
    X,
    O,
}

/// One cell of the grid: empty, or filled by one player.
#[derive(Copy, Clone, PartialEq, Eq, Structural, Debug)]
pub enum Cell {
    Empty,
    Filled(Player),
}

/// Why a move was rejected.
#[derive(Copy, Clone, PartialEq, Eq, Structural, Debug)]
pub enum MoveError {
    /// A coordinate was outside the 3x3 grid.
    OutOfBounds,
    /// The addressed cell was already filled.
    CellOccupied,
}

impl Player {
    /// The opposing player.
    pub open spec fn flip(self) -> Player {
        match self {
            Player::X => Player::O,
            Player::O => Player::X,
        }
    }

    /// The one-character symbol this player is displayed as.
    pub fn symbol(self) -> (s: &'static str)
        ensures
            s@ == player_symbol(self),
    {
        match self {
            Player::X => "X",
            Player::O => "O",
        }
    }
}

/// The display text of a player: "X" or "O".
pub open spec fn player_symbol(p: Player) -> Seq<char> {
    match p {
        Player::X => "X"@,
        Player::O => "O"@,
    }
}

/// The display text of a cell: a space when empty, the player's symbol
/// otherwise.
pub open spec fn cell_symbol(c: Cell) -> Seq<char> {
    match c {
        Cell::Empty => " "@,
        Cell::Filled(p) => player_symbol(p),
    }
}

impl Cell {
    /// The one-character symbol this cell is displayed as.
    pub fn symbol(self) -> (s: &'static str)
        ensures
            s@ == cell_symbol(self),
    {
        match self {
            Cell::Empty => " ",
            Cell::Filled(p) => p.symbol(),
        }
    }
}

/// The mathematical model of a game: the nine cells in row-major order and
/// the player whose turn it is.
pub struct GameModel {
    pub board: Seq<Cell>,
    pub current: Player,
}

impl GameModel {
    /// A model is well formed when it has exactly nine cells.
    pub open spec fn well_formed(self) -> bool {
        self.board.len() == 9
    }

    /// The cell at zero-based row `r` and column `c`.
    pub open spec fn cell(self, r: int, c: int) -> Cell {
        self.board[r * 3 + c]
    }

    /// Whether the three cells at the given coordinates are all filled by `p`.
    pub open spec fn line_filled_by(
        self,
        p: Player,
        r0: int,
        c0: int,
        r1: int,
        c1: int,
        r2: int,
        c2: int,
    ) -> bool {
        &&& self.cell(r0, c0) == Cell::Filled(p)
        &&& self.cell(r1, c1) == Cell::Filled(p)
        &&& self.cell(r2, c2) == Cell::Filled(p)
    }

    /// Whether player `p` owns a full row, column, or diagonal.
    pub open spec fn won_by(self, p: Player) -> bool {
        ||| self.line_filled_by(p, 0, 0, 0, 1, 0, 2)
        ||| self.line_filled_by(p, 1, 0, 1, 1, 1, 2)
        ||| self.line_filled_by(p, 2, 0, 2, 1, 2, 2)
        ||| self.line_filled_by(p, 0, 0, 1, 0, 2, 0)
        ||| self.line_filled_by(p, 0, 1, 1, 1, 2, 1)
        ||| self.line_filled_by(p, 0, 2, 1, 2, 2, 2)
        ||| self.line_filled_by(p, 0, 0, 1, 1, 2, 2)
        ||| self.line_filled_by(p, 0, 2, 1, 1, 2, 0)
    }

    /// Whether every cell of the grid is filled.
    pub open spec fn full(self) -> bool {
        forall|i: int| 0 <= i < 9 ==> self.board[i] != Cell::Empty
    }

    /// Whether the game is a draw: the grid is full and neither player has
    /// a winning line.
    pub open spec fn is_drawn(self) -> bool {
        self.full() && !self.won_by(Player::X) && !self.won_by(Player::O)
    }

    /// The display text of one row: each cell bracketed, a newline at the
    /// end.
    pub open spec fn row_text(self, r: int) -> Seq<char> {
        "["@ + cell_symbol(self.cell(r, 0)) + "]["@ + cell_symbol(self.cell(r, 1)) + "]["@
            + cell_symbol(self.cell(r, 2)) + "]\n"@
    }

    /// The display text of the first `n` rows, top to bottom.
    pub open spec fn rows_text(self, n: int) -> Seq<char>
        decreases n,
    {
        if n <= 0 {
            Seq::empty()
        } else {
            self.rows_text(n - 1) + self.row_text(n - 1)
        }
    }

    /// The display text of the whole grid: the three rows, top to bottom.
    pub open spec fn render_text(self) -> Seq<char> {
        self.rows_text(3)
    }

    /// Whether a move at the given coordinates would be accepted: both
    /// coordinates on the grid and the addressed cell still empty.
    pub open spec fn move_accepted(self, row: int, col: int) -> bool {
        0 <= row < 3 && 0 <= col < 3 && self.cell(row, col) == Cell::Empty
    }

    /// The model after a move at the given coordinates: on an accepted move
    /// the cell is filled by the current player and the turn passes to the
    /// other player; a rejected move changes nothing.
    pub open spec fn after_move(self, row: int, col: int) -> GameModel {
        if self.move_accepted(row, col) {
            GameModel {
                board: self.board.update(row * 3 + col, Cell::Filled(self.current)),
                current: self.current.flip(),
            }
        } else {
            self
        }
    }

    /// The result a move at the given coordinates reports: out-of-range
    /// coordinates and occupied cells are rejected, everything else accepted.
    pub open spec fn move_result(self, row: int, col: int) -> Result<(), MoveError> {
        if !(0 <= row < 3 && 0 <= col < 3) {
            Err(MoveError::OutOfBounds)
        } else if self.cell(row, col) != Cell::Empty {
            Err(MoveError::CellOccupied)
        } else {
            Ok(())
        }
    }
}

/// The model after attempting a whole sequence of moves, first to last;
/// each move is a zero-based `(row, col)` pair.
pub open spec fn after_moves(m: GameModel, moves: Seq<(int, int)>) -> GameModel
    decreases moves.len(),
{
    if moves.len() == 0 {
        m
    } else {
        after_moves(m, moves.drop_last()).after_move(moves.last().0, moves.last().1)
    }
}

/// How many moves of the sequence are accepted when attempted in order.
pub open spec fn accepted_count(m: GameModel, moves: Seq<(int, int)>) -> nat
    decreases moves.len(),
{
    if moves.len() == 0 {
        0
    } else {
        accepted_count(m, moves.drop_last()) + (if after_moves(
            m,
            moves.drop_last(),
        ).move_accepted(moves.last().0, moves.last().1) {
            1nat
        } else {
            0nat
        })
    }
}

/// Law: over any sequence of attempted moves the current player alternates
/// strictly with each accepted move and never changes on a rejected one, so
/// after the whole sequence the current player is the starting player when
/// the number of accepted moves is even, and the opponent when it is odd.
pub proof fn lemma_player_alternation(m: GameModel, moves: Seq<(int, int)>)
    ensures
        after_moves(m, moves).current == (if accepted_count(m, moves) % 2 == 0 {
            m.current
        } else {
            m.current.flip()
        }),
    decreases moves.len(),
{
    if moves.len() > 0 {
        lemma_player_alternation(m, moves.drop_last());
    }
}

/// The Tic-Tac-Toe game state: the 3x3 grid in row-major order and the
/// player whose turn it is.
pub struct Game {
    board: Vec<Cell>,
    current_player: Player,
}

impl View for Game {
    type V = GameModel;

    closed spec fn view(&self) -> GameModel {
        GameModel { board: self.board@, current: self.current_player }
    }
}

impl Game {
    /// A game is well formed when its grid has exactly nine cells.
    pub open spec fn well_formed(self) -> bool {
        self@.well_formed()
    }

    /// A fresh game: every cell empty, `X` to move first.
    pub fn new() -> (g: Game)
        ensures
            g.well_formed(),
            forall|i: int| 0 <= i < 9 ==> g@.board[i] == Cell::Empty,
            g@.current == Player::X,
    {
        let mut board: Vec<Cell> = Vec::new();
        let mut i: usize = 0;
        while i < 9
            invariant
                i <= 9,
                board@.len() == i,
                forall|j: int| 0 <= j < i ==> board@[j] == Cell::Empty,
            decreases 9 - i,
        {
            board.push(Cell::Empty);
            i = i + 1;
        }
        Game { board, current_player: Player::X }
    }

    /// The player whose turn it is.
    pub fn current_player(&self) -> (p: Player)
        ensures
            p == self@.current,
    {
        self.current_player
    }

    /// The cell at zero-based row `row` and column `col`.
    pub fn cell_at(&self, row: usize, col: usize) -> (c: Cell)
        requires
            self.well_formed(),
            row < 3,
            col < 3,
        ensures
            c == self@.cell(row as int, col as int),
    {
        self.board[row * 3 + col]
    }

    /// Passes the turn to the other player; the grid is untouched.
    pub fn switch_player(&mut self)
        ensures
            final(self)@.current == old(self)@.current.flip(),
            final(self)@.board == old(self)@.board,
    {
        self.current_player = match self.current_player {
            Player::X => Player::O,
            Player::O => Player::X,
        };
    }

    /// Attempts to fill the cell at zero-based `(row, col)` for the current
    /// player. A coordinate off the grid is rejected as `OutOfBounds`, a
    /// filled cell as `CellOccupied`; a rejected move changes nothing. An
    /// accepted move fills the cell and passes the turn.
    pub fn make_move(&mut self, row: usize, col: usize) -> (r: Result<(), MoveError>)
        requires
            old(self).well_formed(),
        ensures
            final(self).well_formed(),
            r == old(self)@.move_result(row as int, col as int),
            final(self)@ == old(self)@.after_move(row as int, col as int),
            r is Ok <==> old(self)@.move_accepted(row as int, col as int),
    {
        if row >= 3 || col >= 3 {
            return Err(MoveError::OutOfBounds);
        }
        if self.board[row * 3 + col] != Cell::Empty {
            return Err(MoveError::CellOccupied);
        }
        self.board[row * 3 + col] = Cell::Filled(self.current_player);
        self.switch_player();
        Ok(())
    }

    /// Scans the three rows, three columns, and two diagonals; returns the
    /// player owning a fully filled line, or `None` when no line is owned.
    pub fn check_winner(&self) -> (r: Option<Player>)
        requires
            self.well_formed(),
        ensures
            match r {
                Some(p) => self@.won_by(p),
                None => !self@.won_by(Player::X) && !self@.won_by(Player::O),
            },
    {
        let mut i: usize = 0;
        while i < 3
            invariant
                self.well_formed(),
                i <= 3,
                forall|p: Player, j: int|
                    0 <= j < i ==> !self@.line_filled_by(p, j, 0, j, 1, j, 2),
                forall|p: Player, j: int|
                    0 <= j < i ==> !self@.line_filled_by(p, 0, j, 1, j, 2, j),
            decreases 3 - i,
        {
            if self.board[i * 3] == self.board[i * 3 + 1] && self.board[i * 3 + 1] == self.board[i
                * 3 + 2] {
                if let Cell::Filled(player) = self.board[i * 3] {
                    return Some(player);
                }
            }
            if self.board[i] == self.board[3 + i] && self.board[3 + i] == self.board[6 + i] {
                if let Cell::Filled(player) = self.board[i] {
                    return Some(player);
                }
            }
            i = i + 1;
        }
        if self.board[0] == self.board[4] && self.board[4] == self.board[8] {
            if let Cell::Filled(player) = self.board[0] {
                return Some(player);
            }
        }
        if self.board[2] == self.board[4] && self.board[4] == self.board[6] {
            if let Cell::Filled(player) = self.board[2] {
                return Some(player);
            }
        }
        None
    }

    /// Whether the game has ended in a draw: every cell is filled and
    /// neither player owns a line.
    pub fn is_draw(&self) -> (r: bool)
        requires
            self.well_formed(),
        ensures
            r == self@.is_drawn(),
    {
        let mut i: usize = 0;
        while i < 9
            invariant
                self.well_formed(),
                i <= 9,
                forall|j: int| 0 <= j < i ==> self@.board[j] != Cell::Empty,
            decreases 9 - i,
        {
            if self.board[i] == Cell::Empty {
                return false;
            }
            i = i + 1;
        }
        self.check_winner().is_none()
    }

    /// Renders the grid as text: one line per row, each cell bracketed,
    /// empty cells shown as a space.
    pub fn render(&self) -> (s: String)
        requires
            self.well_formed(),
        ensures
            s@ == self@.render_text(),
    {
        let mut s = String::new();
        let mut r: usize = 0;
        while r < 3
            invariant
                self.well_formed(),
                r <= 3,
                s@ == self@.rows_text(r as int),
            decreases 3 - r,
        {
            s.append("[");
            s.append(self.cell_at(r, 0).symbol());
            s.append("][");
            s.append(self.cell_at(r, 1).symbol());
            s.append("][");
            s.append(self.cell_at(r, 2).symbol());
            s.append("]\n");
            assert(s@ =~= self@.rows_text(r as int + 1));
            r = r + 1;
        }
        s
    }
}

} // verus!
