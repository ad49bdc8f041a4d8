//! The rules of a snake game on a fixed square grid.
//!
//! The crate holds the game's state and its transitions: how the snake moves
//! and grows, where food may be placed, when a run ends, and which direction
//! changes are admitted. It performs no input or output. Whoever drives it
//! hands in the clock reading, the keys that were pressed and the random
//! numbers that were drawn, and gets back the sounds to play and the shapes to
//! paint.
//!
//! Every executable function is specified against a mathematical model of the
//! state (`SnakeView`, `GameView`); the module `laws` proves what holds of that
//! model in every reachable state.

use vstd::prelude::*;

pub mod vector;
pub mod direction;
pub mod snake;
pub mod food;
pub mod game;
pub mod laws;
pub mod render;

verus! {

/// Side length of one cell, in pixels.
pub const CELL_SIZE: i32 = 30;

/// Number of cells along each side of the square playing field.
pub const CELL_COUNT: i32 = 25;

/// Width of the margin around the playing field, in pixels.
pub const OFFSET: i32 = 75;

/// Time between two simulation steps, in milliseconds.
pub const TICK_INTERVAL_MS: u64 = 200;

} // verus!
