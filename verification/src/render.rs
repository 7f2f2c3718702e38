//! What a frame is painted from: colours and filled rectangles, in pixels.

use vstd::prelude::*;
use crate::grid::{in_grid2, CELL, HEIGHT, WIDTH};

verus! {

/// A colour of the game's palette.
#[derive(Clone, Copy, Debug, PartialEq, Eq, Structural)]
pub enum Color {
    /// The background.
    Black,
    /// The snake.
    Green,
    /// The food.
    Red,
}

/// A filled rectangle: its upper left corner, its width and its height.
#[derive(Clone, Copy, Debug, PartialEq, Eq, Structural)]
pub struct Rect {
    pub color: Color,
    pub x: i32,
    pub y: i32,
    pub w: i32,
    pub h: i32,
}

/// The name by which the canvas knows a colour.
pub open spec fn color_name_spec(c: Color) -> Seq<char> {
    match c {
        Color::Black => "black"@,
        Color::Green => "green"@,
        Color::Red => "red"@,
    }
}

/// The name by which the canvas knows a colour.
pub fn color_name(c: Color) -> (r: &'static str)
    ensures
        r@ == color_name_spec(c),
{
    match c {
        Color::Black => "black",
        Color::Green => "green",
        Color::Red => "red",
    }
}

/// The rectangle that clears the canvas.
pub open spec fn backdrop_spec() -> Rect {
    Rect { color: Color::Black, x: 0, y: 0, w: (WIDTH * CELL) as i32, h: (HEIGHT * CELL) as i32 }
}

/// The square of the cell `c`.
pub open spec fn cell_rect_spec(c: (i32, i32), color: Color) -> Rect {
    Rect { color: color, x: (c.0 * CELL) as i32, y: (c.1 * CELL) as i32, w: CELL, h: CELL }
}

/// The rectangle that clears the canvas: the whole grid, in black.
pub fn backdrop() -> (r: Rect)
    ensures
        r == backdrop_spec(),
        r.w == 400 && r.h == 400,
{
    Rect { color: Color::Black, x: 0, y: 0, w: WIDTH * CELL, h: HEIGHT * CELL }
}

/// The square of the cell `c`, `CELL` pixels wide, in the given colour.
pub fn cell_rect(c: (i32, i32), color: Color) -> (r: Rect)
    requires
        in_grid2(c),
    ensures
        r == cell_rect_spec(c, color),
        r.x == c.0 * CELL && r.y == c.1 * CELL,
{
    Rect { color, x: c.0 * CELL, y: c.1 * CELL, w: CELL, h: CELL }
}

} // verus!
