//! The heading of the snake in three dimensions: a frame of three lattice
//! axes that quarter turns rotate.

use vstd::prelude::*;
use crate::grid::Vec3;

verus! {

/// `v` is a signed vector of the standard basis.
pub open spec fn is_axis(v: Vec3) -> bool {
    ||| v == Vec3(1, 0, 0)
    ||| v == Vec3(-1i32, 0, 0)
    ||| v == Vec3(0, 1, 0)
    ||| v == Vec3(0, -1i32, 0)
    ||| v == Vec3(0, 0, 1)
    ||| v == Vec3(0, 0, -1i32)
}

/// Scalar product.
pub open spec fn dot(a: Vec3, b: Vec3) -> int {
    a.0 * b.0 + a.1 * b.1 + a.2 * b.2
}

/// Vector product.
pub open spec fn cross(a: Vec3, b: Vec3) -> (int, int, int) {
    (a.1 * b.2 - a.2 * b.1, a.2 * b.0 - a.0 * b.2, a.0 * b.1 - a.1 * b.0)
}

/// A quarter turn of the frame.
#[derive(Clone, Copy, Debug, PartialEq, Eq, Structural)]
pub enum Turn {
    PitchUp,
    PitchDown,
    YawLeft,
    YawRight,
}

/// The frame: where the snake heads (`f`), what it takes for up (`u`) and
/// for right (`r`).
#[derive(Clone, Copy, Debug, PartialEq, Eq, Structural)]
pub struct Orientation {
    pub f: Vec3,
    pub u: Vec3,
    pub r: Vec3,
}

impl Orientation {
    /// The three vectors are signed basis vectors, orthogonal to each other.
    pub open spec fn orthonormal(self) -> bool {
        &&& is_axis(self.f)
        &&& is_axis(self.u)
        &&& is_axis(self.r)
        &&& dot(self.f, self.u) == 0
        &&& dot(self.f, self.r) == 0
        &&& dot(self.u, self.r) == 0
    }

    /// `r` is the vector product of `f` and `u`.
    pub open spec fn right_handed(self) -> bool {
        (self.r.0 as int, self.r.1 as int, self.r.2 as int) == cross(self.f, self.u)
    }

    /// What every frame of a game satisfies.
    pub open spec fn wf(self) -> bool {
        self.orthonormal() && self.right_handed()
    }

    /// The frame a game starts with.
    pub open spec fn initial() -> Orientation {
        Orientation { f: Vec3(0, 0, 1), u: Vec3(1, 0, 0), r: Vec3(0, 1, 0) }
    }

    /// The frame after the turn `t`.
    pub open spec fn turned(self, t: Turn) -> Orientation {
        match t {
            Turn::PitchUp => Orientation { f: self.u, u: self.f.neg_spec(), r: self.r },
            Turn::PitchDown => Orientation { f: self.u.neg_spec(), u: self.f, r: self.r },
            Turn::YawLeft => Orientation { f: self.r.neg_spec(), u: self.u, r: self.f },
            Turn::YawRight => Orientation { f: self.r, u: self.u, r: self.f.neg_spec() },
        }
    }

    /// The frame after the turns of `ts`, first to last.
    pub open spec fn after(self, ts: Seq<Turn>) -> Orientation
        decreases ts.len(),
    {
        if ts.len() == 0 {
            self
        } else {
            self.after(ts.drop_last()).turned(ts.last())
        }
    }

    /// The starting frame: forward along z, up along x, right along y.
    pub fn new() -> (o: Orientation)
        ensures
            o == Orientation::initial(),
            o.wf(),
    {
        Orientation { f: Vec3(0, 0, 1), u: Vec3(1, 0, 0), r: Vec3(0, 1, 0) }
    }

    /// Up becomes forward, and the old forward, reversed, becomes up.
    pub fn pitch_up(&mut self)
        requires
            old(self).wf(),
        ensures
            *final(self) == old(self).turned(Turn::PitchUp),
            final(self).wf(),
    {
        proof {
            lemma_turn_keeps_frame(*old(self), Turn::PitchUp);
        }
        let new_f = self.u;
        self.u = self.f.neg();
        self.f = new_f;
    }

    /// Up, reversed, becomes forward, and the old forward becomes up.
    pub fn pitch_down(&mut self)
        requires
            old(self).wf(),
        ensures
            *final(self) == old(self).turned(Turn::PitchDown),
            final(self).wf(),
    {
        proof {
            lemma_turn_keeps_frame(*old(self), Turn::PitchDown);
        }
        let new_f = self.u.neg();
        self.u = self.f;
        self.f = new_f;
    }

    /// Right, reversed, becomes forward, and the old forward becomes right.
    pub fn yaw_left(&mut self)
        requires
            old(self).wf(),
        ensures
            *final(self) == old(self).turned(Turn::YawLeft),
            final(self).wf(),
    {
        proof {
            lemma_turn_keeps_frame(*old(self), Turn::YawLeft);
        }
        let new_f = self.r.neg();
        self.r = self.f;
        self.f = new_f;
    }

    /// Right becomes forward, and the old forward, reversed, becomes right.
    pub fn yaw_right(&mut self)
        requires
            old(self).wf(),
        ensures
            *final(self) == old(self).turned(Turn::YawRight),
            final(self).wf(),
    {
        proof {
            lemma_turn_keeps_frame(*old(self), Turn::YawRight);
        }
        let new_f = self.r;
        self.r = self.f.neg();
        self.f = new_f;
    }

    /// Makes the turn `t`.
    pub fn turn(&mut self, t: Turn)
        requires
            old(self).wf(),
        ensures
            *final(self) == old(self).turned(t),
            final(self).wf(),
    {
        match t {
            Turn::PitchUp => self.pitch_up(),
            Turn::PitchDown => self.pitch_down(),
            Turn::YawLeft => self.yaw_left(),
            Turn::YawRight => self.yaw_right(),
        }
    }
}

/// The product of `a` and `b` where `a` is -1, 0 or 1.
spec fn signed(a: int, b: int) -> int {
    if a == 0 {
        0
    } else if a == 1 {
        b
    } else {
        -b
    }
}

/// Multiplying by -1, 0 or 1 negates, cancels or keeps.
proof fn lemma_unit_product(a: int, b: int)
    requires
        -1 <= a <= 1,
    ensures
        a * b == signed(a, b),
{
    assert(a * b == signed(a, b)) by (nonlinear_arith)
        requires
            -1 <= a <= 1,
    ;
}

/// Every product of a component of the signed basis vector `a` with one of
/// `b` is plus or minus that component of `b`, or zero.
proof fn lemma_axis_products(a: Vec3, b: Vec3)
    requires
        is_axis(a),
    ensures
        a.0 * b.0 == signed(a.0 as int, b.0 as int),
        a.0 * b.1 == signed(a.0 as int, b.1 as int),
        a.0 * b.2 == signed(a.0 as int, b.2 as int),
        a.1 * b.0 == signed(a.1 as int, b.0 as int),
        a.1 * b.1 == signed(a.1 as int, b.1 as int),
        a.1 * b.2 == signed(a.1 as int, b.2 as int),
        a.2 * b.0 == signed(a.2 as int, b.0 as int),
        a.2 * b.1 == signed(a.2 as int, b.1 as int),
        a.2 * b.2 == signed(a.2 as int, b.2 as int),
{
    lemma_unit_product(a.0 as int, b.0 as int);
    lemma_unit_product(a.0 as int, b.1 as int);
    lemma_unit_product(a.0 as int, b.2 as int);
    lemma_unit_product(a.1 as int, b.0 as int);
    lemma_unit_product(a.1 as int, b.1 as int);
    lemma_unit_product(a.1 as int, b.2 as int);
    lemma_unit_product(a.2 as int, b.0 as int);
    lemma_unit_product(a.2 as int, b.1 as int);
    lemma_unit_product(a.2 as int, b.2 as int);
}

/// The products between the vectors of a frame of signed basis vectors.
proof fn lemma_frame_products(o: Orientation)
    requires
        is_axis(o.f),
        is_axis(o.u),
        is_axis(o.r),
    ensures
        dot(o.f, o.u) == signed(o.f.0 as int, o.u.0 as int) + signed(o.f.1 as int, o.u.1 as int)
            + signed(o.f.2 as int, o.u.2 as int),
        dot(o.f, o.r) == signed(o.f.0 as int, o.r.0 as int) + signed(o.f.1 as int, o.r.1 as int)
            + signed(o.f.2 as int, o.r.2 as int),
        dot(o.u, o.r) == signed(o.u.0 as int, o.r.0 as int) + signed(o.u.1 as int, o.r.1 as int)
            + signed(o.u.2 as int, o.r.2 as int),
        dot(o.f, o.f) == 1,
        dot(o.u, o.u) == 1,
        dot(o.r, o.r) == 1,
        cross(o.f, o.u) == (
            signed(o.f.1 as int, o.u.2 as int) - signed(o.f.2 as int, o.u.1 as int),
            signed(o.f.2 as int, o.u.0 as int) - signed(o.f.0 as int, o.u.2 as int),
            signed(o.f.0 as int, o.u.1 as int) - signed(o.f.1 as int, o.u.0 as int),
        ),
{
    lemma_axis_products(o.f, o.u);
    lemma_axis_products(o.f, o.r);
    lemma_axis_products(o.u, o.r);
    lemma_axis_products(o.f, o.f);
    lemma_axis_products(o.u, o.u);
    lemma_axis_products(o.r, o.r);
}

/// Whether `v` is a signed vector of the standard basis.
pub fn axis(v: Vec3) -> (r: bool)
    ensures
        r == is_axis(v),
{
    (v.1 == 0 && v.2 == 0 && (v.0 == 1 || v.0 == -1)) || (v.0 == 0 && v.2 == 0 && (v.1 == 1 || v.1
        == -1)) || (v.0 == 0 && v.1 == 0 && (v.2 == 1 || v.2 == -1))
}

/// Whether `o` is a right-handed orthonormal frame.
pub fn frame_valid(o: Orientation) -> (r: bool)
    ensures
        r == o.wf(),
{
    if !axis(o.f) || !axis(o.u) || !axis(o.r) {
        return false;
    }
    let f = o.f;
    let u = o.u;
    let r = o.r;
    proof {
        lemma_axis_products(f, u);
        lemma_axis_products(f, r);
        lemma_axis_products(u, r);
    }
    f.0 * u.0 + f.1 * u.1 + f.2 * u.2 == 0 && f.0 * r.0 + f.1 * r.1 + f.2 * r.2 == 0 && u.0 * r.0
        + u.1 * r.1 + u.2 * r.2 == 0 && r.0 == f.1 * u.2 - f.2 * u.1 && r.1 == f.2 * u.0 - f.0 * u.2
        && r.2 == f.0 * u.1 - f.1 * u.0
}

/// A quarter turn takes a right-handed orthonormal frame to another.
pub proof fn lemma_turn_keeps_frame(o: Orientation, t: Turn)
    requires
        o.wf(),
    ensures
        o.turned(t).wf(),
{
    lemma_frame_products(o);
    lemma_frame_products(o.turned(t));
}

/// Whatever turns are made, in whatever order, a right-handed orthonormal
/// frame stays one: each vector a signed basis vector, the three orthogonal
/// to each other.
pub proof fn lemma_turns_keep_frame(o: Orientation, ts: Seq<Turn>)
    requires
        o.wf(),
    ensures
        o.after(ts).wf(),
    decreases ts.len(),
{
    if ts.len() > 0 {
        lemma_turns_keep_frame(o, ts.drop_last());
        lemma_turn_keeps_frame(o.after(ts.drop_last()), ts.last());
    }
}

/// Whatever turns are made from the starting frame, the frame reached is
/// right-handed and orthonormal.
pub proof fn lemma_reachable_frames(ts: Seq<Turn>)
    ensures
        Orientation::initial().after(ts).orthonormal(),
        Orientation::initial().after(ts).right_handed(),
{
    lemma_turns_keep_frame(Orientation::initial(), ts);
}

/// The vectors of an orthonormal frame have length one and lie on three
/// different axes.
pub proof fn lemma_frame_is_signed_permutation(o: Orientation)
    requires
        o.orthonormal(),
    ensures
        dot(o.f, o.f) == 1,
        dot(o.u, o.u) == 1,
        dot(o.r, o.r) == 1,
        o.f != o.u && o.f != o.r && o.u != o.r,
        o.f != o.u.neg_spec() && o.f != o.r.neg_spec() && o.u != o.r.neg_spec(),
{
    lemma_frame_products(o);
}

/// Four quarter turns of one kind bring the frame back.
pub proof fn lemma_four_turns_are_none(o: Orientation, t: Turn)
    requires
        o.wf(),
    ensures
        o.turned(t).turned(t).turned(t).turned(t) == o,
{
}

/// A pitch up undoes a pitch down, and a yaw left a yaw right.
pub proof fn lemma_opposite_turns_cancel(o: Orientation)
    requires
        o.wf(),
    ensures
        o.turned(Turn::PitchUp).turned(Turn::PitchDown) == o,
        o.turned(Turn::PitchDown).turned(Turn::PitchUp) == o,
        o.turned(Turn::YawLeft).turned(Turn::YawRight) == o,
        o.turned(Turn::YawRight).turned(Turn::YawLeft) == o,
{
}

} // verus!
