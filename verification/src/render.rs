//! The scene of one frame as a list of drawing commands.

use vstd::prelude::*;
use crate::config::{GOL_CELL_H, GOL_CELL_W, GOL_COLS, GOL_MEMORY_SIZE};
use crate::mode::GameMode;
use crate::palette::{Color, ColorPalette};
use crate::session::GameOfLife;

verus! {

/// A pixel of the drawing surface.
#[derive(Clone, Copy, Debug, PartialEq, Eq, Structural)]
pub struct Point {
    pub x: i32,
    pub y: i32,
}

/// An axis-aligned rectangle of the drawing surface, by its top left corner
/// and its size.
#[derive(Clone, Copy, Debug, PartialEq, Eq, Structural)]
pub struct Rect {
    pub x: i32,
    pub y: i32,
    pub width: u32,
    pub height: u32,
}

/// One command to the drawing surface.
#[derive(Debug, PartialEq, Eq)]
pub enum DrawCommand {
    /// Clear the surface to a colour.
    Clear(Color),
    /// Plot a set of points in a colour.
    Points(Vec<Point>, Color),
    /// Fill a rectangle with a colour.
    FillRect(Rect, Color),
}

/// A drawing command as a value of mathematics.
pub enum DrawOp {
    Clear(Color),
    Points(Seq<Point>, Color),
    FillRect(Rect, Color),
}

impl View for DrawCommand {
    type V = DrawOp;

    open spec fn view(&self) -> DrawOp {
        match *self {
            DrawCommand::Clear(color) => DrawOp::Clear(color),
            DrawCommand::Points(points, color) => DrawOp::Points(points@, color),
            DrawCommand::FillRect(rect, color) => DrawOp::FillRect(rect, color),
        }
    }
}

/// The commands of a list, each as a value of mathematics.
pub open spec fn draw_ops(commands: Seq<DrawCommand>) -> Seq<DrawOp> {
    Seq::new(commands.len(), |i: int| commands[i]@)
}

/// Column of cell `i`, in pixels of the surface.
pub open spec fn cell_x(i: int) -> int {
    i % (GOL_COLS as int) * GOL_CELL_W
}

/// Row of cell `i`, in pixels of the surface.
pub open spec fn cell_y(i: int) -> int {
    i / (GOL_COLS as int) * GOL_CELL_H
}

/// The rectangle that cell `i` covers on the surface.
pub open spec fn cell_rect(i: int) -> Rect {
    Rect { x: cell_x(i) as i32, y: cell_y(i) as i32, width: GOL_CELL_W, height: GOL_CELL_H }
}

/// The point of the guide grid that belongs to cell `i`: the corner of the
/// cell opposite to its top left one.
pub open spec fn guide_point(i: int) -> Point {
    Point { x: (cell_x(i) + GOL_CELL_W) as i32, y: (cell_y(i) + GOL_CELL_H) as i32 }
}

/// The guide grid: one point for each cell.
pub open spec fn guide_points() -> Seq<Point> {
    Seq::new(GOL_MEMORY_SIZE as nat, |i: int| guide_point(i))
}

/// One filled rectangle for each live cell among the first `n`, in the
/// order of their indices.
pub open spec fn live_rects(cells: Seq<i32>, n: int, color: Color) -> Seq<DrawOp>
    decreases n,
{
    if n <= 0 {
        Seq::empty()
    } else if cells[n - 1] == 1 {
        live_rects(cells, n - 1, color).push(DrawOp::FillRect(cell_rect(n - 1), color))
    } else {
        live_rects(cells, n - 1, color)
    }
}

/// Index into the palette of the background colour of a theme.
pub open spec fn background_index(dark: bool) -> int {
    if dark {
        0
    } else {
        1
    }
}

/// Index into the palette of the foreground colour of a theme.
pub open spec fn foreground_index(dark: bool) -> int {
    if dark {
        1
    } else {
        0
    }
}

/// The scene: the surface cleared to the background colour, then, while
/// editing, the guide grid in the foreground colour, then every live cell as
/// a rectangle in the foreground colour.
pub open spec fn scene(
    mode: GameMode,
    dark: bool,
    palette: Seq<(u8, u8, u8)>,
    cells: Seq<i32>,
) -> Seq<DrawOp> {
    let background = ColorPalette::color_at(palette, background_index(dark));
    let foreground = ColorPalette::color_at(palette, foreground_index(dark));
    let guide = if mode == GameMode::Edit {
        seq![DrawOp::Points(guide_points(), foreground)]
    } else {
        Seq::empty()
    };
    seq![DrawOp::Clear(background)] + guide + live_rects(cells, cells.len() as int, foreground)
}

/// The guide grid.
pub fn guide_grid() -> (points: Vec<Point>)
    ensures
        points@ == guide_points(),
{
    let mut points: Vec<Point> = Vec::new();
    let mut i: usize = 0;
    while i < GOL_MEMORY_SIZE
        invariant
            0 <= i <= GOL_MEMORY_SIZE,
            points@.len() == i,
            forall|j: int| 0 <= j < i ==> points@[j] == guide_point(j),
        decreases GOL_MEMORY_SIZE - i,
    {
        points.push(
            Point {
                x: i as i32 % GOL_COLS * (GOL_CELL_W as i32) + (GOL_CELL_W as i32),
                y: i as i32 / GOL_COLS * (GOL_CELL_H as i32) + (GOL_CELL_H as i32),
            },
        );
        i += 1;
    }
    assert(points@ =~= guide_points());
    points
}

impl GameOfLife {
    /// The drawing commands of the current frame. The palette must hold the
    /// two colours of the theme.
    pub fn draw(&self) -> (commands: Vec<DrawCommand>)
        requires
            self.colors.palette@.len() >= 2,
        ensures
            draw_ops(commands@) == scene(self.mode, self.dark, self.colors.palette@, self.memory@),
    {
        let background: usize;
        let foreground: usize;
        if self.dark {
            background = 0;
            foreground = 1;
        } else {
            background = 1;
            foreground = 0;
        }
        let paper: Color = self.colors.get_color(background);
        let ink: Color = self.colors.get_color(foreground);

        let mut commands: Vec<DrawCommand> = Vec::new();
        commands.push(DrawCommand::Clear(paper));
        match self.mode {
            GameMode::Edit => {
                commands.push(DrawCommand::Points(guide_grid(), ink));
            },
            GameMode::Play => {},
            GameMode::Stop => {},
        }
        let ghost head = draw_ops(commands@);
        assert(head =~= seq![DrawOp::Clear(paper)] + (if self.mode == GameMode::Edit {
            seq![DrawOp::Points(guide_points(), ink)]
        } else {
            Seq::empty()
        }));

        let n: usize = self.memory.len();
        let mut i: usize = 0;
        while i < n
            invariant
                0 <= i <= n,
                n == GOL_MEMORY_SIZE,
                n == self.memory@.len(),
                draw_ops(commands@) == head + live_rects(self.memory@, i as int, ink),
            decreases n - i,
        {
            let ghost before = draw_ops(commands@);
            match self.memory.get(i) {
                Ok(state) => {
                    if state == 1 {
                        let rect = Rect {
                            x: i as i32 % GOL_COLS * (GOL_CELL_W as i32),
                            y: i as i32 / GOL_COLS * (GOL_CELL_H as i32),
                            width: GOL_CELL_W,
                            height: GOL_CELL_H,
                        };
                        commands.push(DrawCommand::FillRect(rect, ink));
                        assert(draw_ops(commands@) =~= before.push(
                            DrawOp::FillRect(cell_rect(i as int), ink),
                        ));
                    }
                },
                Err(_) => {},
            }
            i += 1;
            assert(draw_ops(commands@) =~= head + live_rects(self.memory@, i as int, ink));
        }
        commands
    }
}

} // verus!
