//! A terminal Snake game, split into verified game rules and a thin shell.
//!
//! The library holds everything that decides: where the snake moves, when it
//! grows, when the game is lost, where food may appear and which cells are
//! drawn with which glyph. It never touches the terminal itself. Functions
//! that the program would use to draw return lists of [`terminal::Command`]
//! values instead, and the program performs them.

pub mod game;
pub mod input;
pub mod point;
pub mod snake;
pub mod terminal;
