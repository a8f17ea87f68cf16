//! A small Snake game: grid geometry, the command queue that buffers turns,
//! the body and its collision rules, food placement and the per-tick update.
//! Drawing, input polling, sound and the frame loop live with the caller.
use vstd::prelude::*;

pub mod color;
pub mod commands;
pub mod direction;
pub mod food;
pub mod game;
pub mod point;
pub mod snake;

verus! {

/// Number of cells along each side of the square playing field.
pub const FIELD_CELLS: i32 = 16;

/// Simulation steps per second.
pub const FPS: u64 = 5;

/// Milliseconds between two simulation steps.
pub const TICK_MS: u64 = 1000 / FPS;

/// Side of one cell in pixels.
pub const CELL_PIXELS: i32 = 20;

/// Window size in pixels.
pub const WINDOW_WIDTH: i32 = 720;
pub const WINDOW_HEIGHT: i32 = 480;

} // verus!
