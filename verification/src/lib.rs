//! Conway's Game of Life on a fixed 50 x 30 grid whose linear index space is
//! cyclic, with the edit/play session logic around it.
//!
//! The crate holds the simulation only: the grid, the generation rule, the
//! mode state machine, the interpretation of one frame's input and the list
//! of drawing commands for one frame. Window, event queue, cursor and canvas
//! belong to the program that links this library.

pub mod config;
pub mod driver;
pub mod grid;
pub mod input;
pub mod mode;
pub mod palette;
pub mod patterns;
pub mod render;
pub mod rules;
pub mod session;
pub mod torus;

pub use driver::find_sdl_gl_driver;
pub use grid::{Grid, GridError};
pub use input::{FrameOutcome, InputEvent, Key, PointerState};
pub use mode::{CursorIcon, GameMode};
pub use palette::{Color, ColorPalette};
pub use render::{DrawCommand, Point, Rect};
pub use session::GameOfLife;
pub use torus::wrap;
