//! From lattice points to the screen: the two projections, and the shape of
//! a cell drawn as a cube.
//!
//! A screen coordinate is kept as an exact fraction of pixels, so that all
//! of the geometry stays in integers; whoever paints divides.

use vstd::prelude::*;
use crate::grid::{Vec3, CELL, DEPTH, HEIGHT, WIDTH};
use crate::render::Color;

verus! {

/// The distance of the eye in the perspective projection: twice the depth
/// of the grid.
pub const EYE: i32 = 40;

/// How a lattice point is brought to the screen.
#[derive(Clone, Copy, Debug, PartialEq, Eq, Structural)]
pub enum Projection {
    /// Each layer of depth is shifted by half a cell to the right and down.
    Parallel,
    /// Points shrink toward the middle of the screen as they get deeper.
    Perspective,
}

/// A point of the screen: `x_num / den` pixels to the right and
/// `y_num / den` pixels down.
#[derive(Clone, Copy, Debug, PartialEq, Eq, Structural)]
pub struct ScreenPoint {
    pub x_num: i64,
    pub y_num: i64,
    pub den: i64,
}

/// A filled quadrilateral, its corners in drawing order, with its opacity
/// in tenths.
#[derive(Clone, Copy, Debug, PartialEq, Eq, Structural)]
pub struct Face {
    pub a: ScreenPoint,
    pub b: ScreenPoint,
    pub c: ScreenPoint,
    pub d: ScreenPoint,
    pub opacity_tenths: u8,
}

/// A stroked line.
#[derive(Clone, Copy, Debug, PartialEq, Eq, Structural)]
pub struct Segment {
    pub from: ScreenPoint,
    pub to: ScreenPoint,
}

/// A cell drawn as a cube: four faces, to be filled in the order back, top,
/// right, front, and the four edges that run into the depth.
#[derive(Clone, Copy, Debug, PartialEq, Eq, Structural)]
pub struct Cube {
    pub color: Color,
    pub back: Face,
    pub top: Face,
    pub right: Face,
    pub front: Face,
    pub edge_00: Segment,
    pub edge_10: Segment,
    pub edge_11: Segment,
    pub edge_01: Segment,
}

/// The perspective image of `(x, y, z)`. In pixels it is
/// `((x - WIDTH / 2) * EYE / (z + EYE) + WIDTH / 2) * CELL` across, and the
/// same with `y` and `HEIGHT` down; here both stand over the common
/// denominator `z + EYE`.
pub open spec fn perspective(x: int, y: int, z: int) -> ScreenPoint {
    ScreenPoint {
        x_num: (((x - WIDTH / 2) * EYE + (WIDTH / 2) * (z + EYE)) * CELL) as i64,
        y_num: (((y - HEIGHT / 2) * EYE + (HEIGHT / 2) * (z + EYE)) * CELL) as i64,
        den: (z + EYE) as i64,
    }
}

/// The parallel image of `(x, y, z)`: the cell's own place, shifted by half
/// a cell for each layer of depth, on both axes.
pub open spec fn parallel(x: int, y: int, z: int) -> ScreenPoint {
    ScreenPoint {
        x_num: (x * CELL + z * (CELL / 2)) as i64,
        y_num: (y * CELL + z * (CELL / 2)) as i64,
        den: 1,
    }
}

/// The image of `(x, y, z)` under the projection `p`.
pub open spec fn projected(p: Projection, x: int, y: int, z: int) -> ScreenPoint {
    match p {
        Projection::Parallel => parallel(x, y, z),
        Projection::Perspective => perspective(x, y, z),
    }
}

/// The cube at `pos` in the colour `color`, under the projection `p`.
pub open spec fn cube_of(p: Projection, pos: Vec3, color: Color) -> Cube {
    let (x, y, z) = (pos.0 as int, pos.1 as int, pos.2 as int);
    let p000 = projected(p, x, y, z);
    let p100 = projected(p, x + 1, y, z);
    let p010 = projected(p, x, y + 1, z);
    let p110 = projected(p, x + 1, y + 1, z);
    let p001 = projected(p, x, y, z + 1);
    let p101 = projected(p, x + 1, y, z + 1);
    let p011 = projected(p, x, y + 1, z + 1);
    let p111 = projected(p, x + 1, y + 1, z + 1);
    Cube {
        color: color,
        back: Face { a: p001, b: p101, c: p111, d: p011, opacity_tenths: 2 },
        top: Face { a: p011, b: p111, c: p110, d: p010, opacity_tenths: 6 },
        right: Face { a: p101, b: p111, c: p110, d: p100, opacity_tenths: 4 },
        front: Face { a: p000, b: p100, c: p110, d: p010, opacity_tenths: 10 },
        edge_00: Segment { from: p000, to: p001 },
        edge_10: Segment { from: p100, to: p101 },
        edge_11: Segment { from: p110, to: p111 },
        edge_01: Segment { from: p010, to: p011 },
    }
}

/// Projects the lattice point `(x, y, z)` in perspective.
pub fn project_point(x: i32, y: i32, z: i32) -> (r: ScreenPoint)
    ensures
        r == perspective(x as int, y as int, z as int),
        z > -EYE ==> r.den > 0,
{
    let d: i64 = EYE as i64;
    let zf: i64 = z as i64 + d;
    let cx: i64 = (WIDTH / 2) as i64;
    let cy: i64 = (HEIGHT / 2) as i64;
    let px: i64 = (x as i64 - cx) * d + cx * zf;
    let py: i64 = (y as i64 - cy) * d + cy * zf;
    let cell: i64 = CELL as i64;
    assert(-0x100_0000_0000 < px < 0x100_0000_0000 && -0x100_0000_0000 < py < 0x100_0000_0000);
    ScreenPoint { x_num: px * cell, y_num: py * cell, den: zf }
}

/// Projects the lattice point `(x, y, z)` in parallel.
pub fn project_parallel(x: i32, y: i32, z: i32) -> (r: ScreenPoint)
    ensures
        r == parallel(x as int, y as int, z as int),
{
    let cell: i64 = CELL as i64;
    let shift: i64 = z as i64 * (cell / 2);
    ScreenPoint { x_num: x as i64 * cell + shift, y_num: y as i64 * cell + shift, den: 1 }
}

/// Projects the lattice point `(x, y, z)` as `p` says.
pub fn project(p: Projection, x: i32, y: i32, z: i32) -> (r: ScreenPoint)
    ensures
        r == projected(p, x as int, y as int, z as int),
{
    match p {
        Projection::Parallel => project_parallel(x, y, z),
        Projection::Perspective => project_point(x, y, z),
    }
}

/// The shape of the cube that stands at `pos`: its eight corners projected,
/// four faces at opacities 0.2, 0.6, 0.4 and 1.0, and four edges.
pub fn draw_cube(p: Projection, pos: Vec3, color: Color) -> (r: Cube)
    requires
        pos.0 < i32::MAX,
        pos.1 < i32::MAX,
        pos.2 < i32::MAX,
    ensures
        r == cube_of(p, pos, color),
{
    let p000 = project(p, pos.0, pos.1, pos.2);
    let p100 = project(p, pos.0 + 1, pos.1, pos.2);
    let p010 = project(p, pos.0, pos.1 + 1, pos.2);
    let p110 = project(p, pos.0 + 1, pos.1 + 1, pos.2);
    let p001 = project(p, pos.0, pos.1, pos.2 + 1);
    let p101 = project(p, pos.0 + 1, pos.1, pos.2 + 1);
    let p011 = project(p, pos.0, pos.1 + 1, pos.2 + 1);
    let p111 = project(p, pos.0 + 1, pos.1 + 1, pos.2 + 1);
    Cube {
        color,
        back: Face { a: p001, b: p101, c: p111, d: p011, opacity_tenths: 2 },
        top: Face { a: p011, b: p111, c: p110, d: p010, opacity_tenths: 6 },
        right: Face { a: p101, b: p111, c: p110, d: p100, opacity_tenths: 4 },
        front: Face { a: p000, b: p100, c: p110, d: p010, opacity_tenths: 10 },
        edge_00: Segment { from: p000, to: p001 },
        edge_10: Segment { from: p100, to: p101 },
        edge_11: Segment { from: p110, to: p111 },
        edge_01: Segment { from: p010, to: p011 },
    }
}

/// In perspective a point of the front layer has no parallax: it stands at
/// `x * CELL` and `y * CELL` pixels exactly.
pub proof fn lemma_front_layer_is_flat(x: int, y: int)
    requires
        i32::MIN <= x <= i32::MAX,
        i32::MIN <= y <= i32::MAX,
    ensures
        perspective(x, y, 0).den == EYE,
        perspective(x, y, 0).x_num == x * CELL * perspective(x, y, 0).den,
        perspective(x, y, 0).y_num == y * CELL * perspective(x, y, 0).den,
{
}

/// In perspective the middle of the grid stays at the middle of the screen
/// at every depth.
pub proof fn lemma_middle_is_fixed(z: int)
    requires
        i32::MIN <= z <= i32::MAX,
    ensures
        perspective(WIDTH / 2, HEIGHT / 2, z).x_num == (WIDTH / 2) * CELL * perspective(
            WIDTH / 2,
            HEIGHT / 2,
            z,
        ).den,
        perspective(WIDTH / 2, HEIGHT / 2, z).y_num == (HEIGHT / 2) * CELL * perspective(
            WIDTH / 2,
            HEIGHT / 2,
            z,
        ).den,
{
}

/// In parallel a point of the front layer stands at its own cell, and each
/// layer behind it is half a cell further right and down.
pub proof fn lemma_parallel_layers(x: int, y: int, z: int)
    requires
        0 <= x < WIDTH,
        0 <= y < HEIGHT,
        0 <= z < DEPTH,
    ensures
        parallel(x, y, 0).x_num == x * CELL,
        parallel(x, y, 0).y_num == y * CELL,
        parallel(x, y, z + 1).x_num == parallel(x, y, z).x_num + CELL / 2,
        parallel(x, y, z + 1).y_num == parallel(x, y, z).y_num + CELL / 2,
{
}

} // verus!
