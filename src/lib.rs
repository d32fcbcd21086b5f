//! A word-guessing game: a guess classifier, a game state machine, the
//! word-list handling that feeds it, and the text of the board.

pub mod board;
pub mod game;
mod text;
pub mod words;
