//! Fixed configuration of the simulation and of its drawing surface.

use vstd::prelude::*;

verus! {

/// Window title.
pub const TITLE: &'static str = "Conway\u{2019}s Game Of Life";

/// Resolution of the window, in pixels.
pub const SCREEN_OUTPUT: (u32, u32) = (800, 480);

/// Resolution of the surface the scene is drawn on, in pixels.
pub const SCREEN_SOURCE: (u32, u32) = (400, 240);

/// Window pixels per surface pixel, along either axis.
pub const SCREEN_SCALE: u32 = 2;

/// Target duration of one frame, in nanoseconds.
pub const SCREEN_REFRESH_RATE: u32 = 1_000_000_000 / 60;

/// Width of one cell on the drawing surface, in pixels.
pub const GOL_CELL_W: u32 = 8;

/// Height of one cell on the drawing surface, in pixels.
pub const GOL_CELL_H: u32 = 8;

/// Number of columns of the grid.
pub const GOL_COLS: i32 = 50;

/// Number of rows of the grid.
pub const GOL_ROWS: i32 = 30;

/// Number of cells of the grid.
pub const GOL_MEMORY_SIZE: usize = 1500;

/// The eight king-move directions as differences of linear indices.
pub const GOL_NEIGHBORS: [i32; 8] = [
    -GOL_COLS,
    GOL_COLS,
    -1,
    1,
    -GOL_COLS - 1,
    -GOL_COLS + 1,
    GOL_COLS - 1,
    GOL_COLS + 1,
];

/// Frames between two generations while playing.
pub const ANIMATION_PERIOD: i32 = 16;

} // verus!
