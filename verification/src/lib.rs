//! Verified engines for two small terminal games: a two-player Tic-Tac-Toe
//! game on a 3x3 grid with winner and draw detection, and a single-player
//! Hangman game with letter guessing, a bounded attempt budget, and gallows
//! rendering. The surrounding terminal and network plumbing lives outside
//! this crate; everything here is pure state-machine logic with contracts.

pub mod hangman;
pub mod tic_tac_toe;
