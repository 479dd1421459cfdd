//! The rules of a tick-based snake game on a fixed grid.
//!
//! The crate holds the game state and every transition on it: the snake's
//! movement, growth and death, the pause switch and the game-over menu.
//! Each transition is an executable function whose contract says, over a
//! mathematical view of the state, exactly what the state is afterwards.
//!
//! - `game_context`: the state and the operations on it.
//! - `model`: the mathematical view of the state and its transitions.
//! - `theorems`: what holds of every game, proved from the model.
//! - `game_loop`: what a key and the end of a frame do to the game.
//! - `scene`: what a frame shows, as plain values in pixels.
//!
//! The window, the keyboard and the clock are left to the program around
//! the crate.

use vstd::prelude::*;

pub mod game_context;
pub mod game_loop;
pub mod model;
pub mod scene;
mod random;
pub mod theorems;

verus! {

/// Number of columns of the grid, in cells.
pub const GRID_X_SIZE: i32 = 40;

/// Number of rows of the grid, in cells.
pub const GRID_Y_SIZE: i32 = 30;

} // verus!
