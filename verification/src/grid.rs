//! The grid's extents, its cells, and the arithmetic that wraps a coordinate
//! round the edges.

use vstd::prelude::*;
use vstd::arithmetic::div_mod::{lemma_fundamental_div_mod_converse, lemma_mod_bound};

verus! {

/// Number of cells along the x axis.
pub const WIDTH: i32 = 20;

/// Number of cells along the y axis.
pub const HEIGHT: i32 = 20;

/// Number of cells along the z axis.
pub const DEPTH: i32 = 20;

/// Edge of one cell in pixels.
pub const CELL: i32 = 20;

/// The value that `v` wraps to on an axis of `extent` cells.
pub open spec fn wrapped(v: int, extent: int) -> int {
    (v + extent) % extent
}

/// Wraps `v` on an axis of `extent` cells: a value inside the axis stays, one
/// step off either edge comes back in at the opposite edge.
pub fn wrap_axis(v: i32, extent: i32) -> (r: i32)
    requires
        0 < extent,
        -extent <= v,
        v + extent <= i32::MAX,
    ensures
        r == wrapped(v as int, extent as int),
        0 <= r < extent,
        0 <= v < extent ==> r == v,
        -extent <= v < 0 ==> r == v + extent,
        v == extent ==> r == 0,
{
    proof {
        let e = extent as int;
        let x = v as int + e;
        lemma_mod_bound(x, e);
        if 0 <= v < extent {
            lemma_fundamental_div_mod_converse(x, e, 1, v as int);
        } else if v < 0 {
            lemma_fundamental_div_mod_converse(x, e, 0, x);
        } else if v == extent {
            lemma_fundamental_div_mod_converse(x, e, 2, 0);
        }
    }
    (v + extent) % extent
}

/// Wrapping lands on the axis, whatever comes in; it leaves a value on the
/// axis alone, and takes one step off either end to the other end.
pub proof fn lemma_wrapped_in_range(v: int, extent: int)
    requires
        0 < extent,
    ensures
        0 <= wrapped(v, extent) < extent,
        0 <= v < extent ==> wrapped(v, extent) == v,
        wrapped(-1, extent) == extent - 1,
        wrapped(extent, extent) == 0,
{
    lemma_mod_bound(v + extent, extent);
    if 0 <= v < extent {
        lemma_fundamental_div_mod_converse(v + extent, extent, 1, v);
    }
    lemma_fundamental_div_mod_converse(extent - 1, extent, 0, extent - 1);
    lemma_fundamental_div_mod_converse(extent + extent, extent, 2, 0);
}

/// A cell of the flat grid lies inside it.
pub open spec fn in_grid2(c: (i32, i32)) -> bool {
    0 <= c.0 < WIDTH && 0 <= c.1 < HEIGHT
}

/// One of the four unit steps of the flat grid.
pub open spec fn is_unit_step(d: (i32, i32)) -> bool {
    d == (1i32, 0i32) || d == (-1i32, 0i32) || d == (0i32, 1i32) || d == (0i32, -1i32)
}

/// The cell reached from `c` by the step `d`, wrapped into the grid.
pub open spec fn next_cell2(c: (i32, i32), d: (i32, i32)) -> (i32, i32) {
    (wrapped(c.0 + d.0, WIDTH as int) as i32, wrapped(c.1 + d.1, HEIGHT as int) as i32)
}

/// Moves from the cell `c` by the unit step `d` and wraps the result.
pub fn step2(c: (i32, i32), d: (i32, i32)) -> (r: (i32, i32))
    requires
        in_grid2(c),
        is_unit_step(d),
    ensures
        r == next_cell2(c, d),
        in_grid2(r),
{
    (wrap_axis(c.0 + d.0, WIDTH), wrap_axis(c.1 + d.1, HEIGHT))
}

/// A point or a direction of the three-dimensional integer lattice.
#[derive(Clone, Copy, Debug, PartialEq, Eq, Structural)]
pub struct Vec3(pub i32, pub i32, pub i32);

impl Vec3 {
    /// The point lies inside the grid.
    pub open spec fn in_grid(self) -> bool {
        0 <= self.0 < WIDTH && 0 <= self.1 < HEIGHT && 0 <= self.2 < DEPTH
    }

    /// Componentwise sum, over the integers.
    pub open spec fn plus(self, other: Vec3) -> (int, int, int) {
        (self.0 + other.0, self.1 + other.1, self.2 + other.2)
    }

    /// The point that `self` wraps to, axis by axis.
    pub open spec fn wrap_spec(self) -> Vec3 {
        Vec3(
            wrapped(self.0 as int, WIDTH as int) as i32,
            wrapped(self.1 as int, HEIGHT as int) as i32,
            wrapped(self.2 as int, DEPTH as int) as i32,
        )
    }

    /// The opposite vector.
    pub open spec fn neg_spec(self) -> Vec3 {
        Vec3((-self.0) as i32, (-self.1) as i32, (-self.2) as i32)
    }

    /// Whether every component can be negated in `i32`.
    pub open spec fn negatable(self) -> bool {
        self.0 > i32::MIN && self.1 > i32::MIN && self.2 > i32::MIN
    }

    /// Whether the point is at most one grid extent below zero on each axis
    /// and leaves room to add the extent.
    pub open spec fn wrappable(self) -> bool {
        &&& -WIDTH <= self.0 <= i32::MAX - WIDTH
        &&& -HEIGHT <= self.1 <= i32::MAX - HEIGHT
        &&& -DEPTH <= self.2 <= i32::MAX - DEPTH
    }

    /// Componentwise sum.
    pub fn add(&self, other: Vec3) -> (r: Vec3)
        requires
            i32::MIN <= self.0 + other.0 <= i32::MAX,
            i32::MIN <= self.1 + other.1 <= i32::MAX,
            i32::MIN <= self.2 + other.2 <= i32::MAX,
        ensures
            (r.0 as int, r.1 as int, r.2 as int) == self.plus(other),
    {
        Vec3(self.0 + other.0, self.1 + other.1, self.2 + other.2)
    }

    /// Wraps each component on its own axis.
    pub fn wrap(&self) -> (r: Vec3)
        requires
            self.wrappable(),
        ensures
            r == self.wrap_spec(),
            r.in_grid(),
            self.in_grid() ==> r == *self,
    {
        Vec3(wrap_axis(self.0, WIDTH), wrap_axis(self.1, HEIGHT), wrap_axis(self.2, DEPTH))
    }

    /// The opposite vector.
    pub fn neg(&self) -> (r: Vec3)
        requires
            self.negatable(),
        ensures
            r == self.neg_spec(),
            r.0 == -self.0,
            r.1 == -self.1,
            r.2 == -self.2,
    {
        Vec3(-self.0, -self.1, -self.2)
    }
}

} // verus!
