//! Game logic of a falling-block puzzle played on a ten by twenty grid.
//!
//! The crate holds the playfield, the falling tetromino with its collision
//! and wall-kick rules, the hold slot and the queue of coming pieces, the
//! line-clear and scoring rules and the clock that drives gravity.

use vstd::prelude::*;

pub mod cell;
pub mod game_action;
pub mod tetromino;
pub mod state;
pub mod tetromino_collision;
pub mod engine;
pub mod laws;
pub mod view;

verus! {

/// Number of columns of the playfield.
pub const GRID_WIDTH: usize = 10;

/// Number of rows of the playfield.
pub const GRID_HEIGHT: usize = 20;

/// Number of columns of the playfield, for signed arithmetic.
pub const GRID_WIDTH_I32: i32 = 10;

/// Number of rows of the playfield, for signed arithmetic.
pub const GRID_HEIGHT_I32: i32 = 20;

/// Number of cells of the playfield, stored row by row.
pub const GRID_LENGTH: usize = 200;

/// Number of coming pieces that are known in advance.
pub const NEXT_TETROMINOS_QUEUE_SIZE: usize = 3;

} // verus!
