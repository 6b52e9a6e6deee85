//! A verified tic-tac-toe engine.
//!
//! - [`player`]: the two sides.
//! - [`board`]: the mathematical model of a game, over which every contract
//!   is stated.
//! - [`game`]: the engine itself: moves, win and draw detection, the
//!   computer's move, and the buttons that map a click to a cell.
//! - [`geometry`]: where the buttons lie on the screen.
//! - [`session`]: what each event of the window leads to, end screen
//!   included.
//! - [`options`] and [`numerals`]: the options of the program and the
//!   numbers in them.
//! - [`laws`]: what holds of every game, proved over the model.

pub mod board;
mod chance;
pub mod game;
pub mod geometry;
pub mod laws;
pub mod numerals;
pub mod options;
pub mod player;
pub mod session;
