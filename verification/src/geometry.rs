//! Geometry primitives and the rotation kernel: planar rotations composed
//! about the X, Y and Z axes, and the orthographic projection to drawing
//! coordinates.

use vstd::prelude::*;
use crate::fixed::{div_trunc, spec_clamp_abs, lemma_div_trunc_bound, div_trunc_i128, clamp_abs_i128};
use crate::{SCALE, COORD_LIMIT, VIEW_CENTER_FX};

verus! {

/// A point in three-dimensional object space, fixed-point scaled.
#[derive(Clone, Copy, PartialEq, Eq, Structural, Debug)]
pub struct Point3 {
    pub x: i64,
    pub y: i64,
    pub z: i64,
}

/// A point on the two-dimensional drawing surface, fixed-point scaled;
/// the origin is the top-left corner.
#[derive(Clone, Copy, PartialEq, Eq, Structural, Debug)]
pub struct Point2 {
    pub x: i64,
    pub y: i64,
}

/// An unordered pair of indices into the vertex sequence: a line segment
/// to draw.
#[derive(Clone, Copy, PartialEq, Eq, Structural, Debug)]
pub struct Edge {
    pub a: usize,
    pub b: usize,
}

/// A triple of angular speeds (radians per second about the X, Y and Z
/// axes), fixed-point scaled.
#[derive(Clone, Copy, PartialEq, Eq, Structural, Debug)]
pub struct Angle3 {
    pub xa: i64,
    pub ya: i64,
    pub za: i64,
}

/// A coordinate the engine can hold: saturation keeps every coordinate
/// within this range.
pub open spec fn coord_in_range(v: int) -> bool {
    -COORD_LIMIT <= v <= COORD_LIMIT
}

/// A fixed-point value within the unit interval, as a sine or cosine is.
pub open spec fn unit_in_range(v: int) -> bool {
    -SCALE <= v <= SCALE
}

/// First output of a planar rotation of `(a, b)` by the angle whose cosine
/// and sine are `c` and `s`: `(a c - b s) / SCALE`, truncated, saturated.
pub open spec fn spec_rot_a(a: int, b: int, c: int, s: int) -> int {
    spec_clamp_abs(div_trunc(a * c - b * s, SCALE as int), COORD_LIMIT as int)
}

/// Second output of a planar rotation of `(a, b)`:
/// `(b c + a s) / SCALE`, truncated, saturated.
pub open spec fn spec_rot_b(a: int, b: int, c: int, s: int) -> int {
    spec_clamp_abs(div_trunc(b * c + a * s, SCALE as int), COORD_LIMIT as int)
}

/// Rotate the pair `(a, b)` in its plane by the angle whose fixed-point
/// cosine and sine are `c` and `s`.
pub fn rotate_in_plane(a: i64, b: i64, c: i64, s: i64) -> (r: (i64, i64))
    requires
        coord_in_range(a as int),
        coord_in_range(b as int),
        unit_in_range(c as int),
        unit_in_range(s as int),
    ensures
        r.0 == spec_rot_a(a as int, b as int, c as int, s as int),
        r.1 == spec_rot_b(a as int, b as int, c as int, s as int),
        coord_in_range(r.0 as int),
        coord_in_range(r.1 as int),
{
    proof {
        assert(SCALE == 10_000_000_000);
        assert(COORD_LIMIT == 1_000_000_000_000_000_000);
        assert({
            let p = (a as i128) * (c as i128);
            let q = (b as i128) * (s as i128);
            let u = (b as i128) * (c as i128);
            let v = (a as i128) * (s as i128);
            -1_000_000_000_000_000_000 * 10_000_000_000 <= p <= 1_000_000_000_000_000_000
                * 10_000_000_000 && -1_000_000_000_000_000_000 * 10_000_000_000 <= q
                <= 1_000_000_000_000_000_000 * 10_000_000_000 && -1_000_000_000_000_000_000
                * 10_000_000_000 <= u <= 1_000_000_000_000_000_000 * 10_000_000_000
                && -1_000_000_000_000_000_000 * 10_000_000_000 <= v <= 1_000_000_000_000_000_000
                * 10_000_000_000
        }) by (nonlinear_arith)
            requires
                -1_000_000_000_000_000_000 <= a <= 1_000_000_000_000_000_000,
                -1_000_000_000_000_000_000 <= b <= 1_000_000_000_000_000_000,
                -10_000_000_000 <= c <= 10_000_000_000,
                -10_000_000_000 <= s <= 10_000_000_000,
        ;
    }
    let na: i128 = (a as i128) * (c as i128) - (b as i128) * (s as i128);
    let nb: i128 = (b as i128) * (c as i128) + (a as i128) * (s as i128);
    proof {
        lemma_div_trunc_bound(na as int, 10_000_000_000, 200_000_000_000_000_000_000);
        lemma_div_trunc_bound(nb as int, 10_000_000_000, 200_000_000_000_000_000_000);
    }
    let ra: i64 = clamp_abs_i128(div_trunc_i128(na, 10_000_000_000), COORD_LIMIT);
    let rb: i64 = clamp_abs_i128(div_trunc_i128(nb, 10_000_000_000), COORD_LIMIT);
    (ra, rb)
}

/// The per-frame cosine/sine pairs for the three axes, fixed-point scaled.
#[derive(Clone, Copy, PartialEq, Eq, Structural, Debug)]
pub struct RotationFrame {
    pub cx: i64,
    pub sx: i64,
    pub cy: i64,
    pub sy: i64,
    pub cz: i64,
    pub sz: i64,
}

impl RotationFrame {
    /// All six entries lie within the fixed-point unit interval.
    pub open spec fn wf(self) -> bool {
        unit_in_range(self.cx as int) && unit_in_range(self.sx as int) && unit_in_range(
            self.cy as int,
        ) && unit_in_range(self.sy as int) && unit_in_range(self.cz as int) && unit_in_range(
            self.sz as int,
        )
    }
}

/// One kernel step on a single point: rotate in the Y-Z plane, then the
/// X-Z plane, then the X-Y plane.
pub open spec fn spec_rotate_point(p: Point3, f: RotationFrame) -> Point3 {
    let y1 = spec_rot_a(p.y as int, p.z as int, f.cx as int, f.sx as int);
    let z1 = spec_rot_b(p.y as int, p.z as int, f.cx as int, f.sx as int);
    let x2 = spec_rot_a(p.x as int, z1, f.cy as int, f.sy as int);
    let z2 = spec_rot_b(p.x as int, z1, f.cy as int, f.sy as int);
    let x3 = spec_rot_a(x2, y1, f.cz as int, f.sz as int);
    let y3 = spec_rot_b(x2, y1, f.cz as int, f.sz as int);
    Point3 { x: x3 as i64, y: y3 as i64, z: z2 as i64 }
}

/// The inverse kernel step: undo the three planar rotations in the
/// reverse axis order (Z, then Y, then X) with negated sines. Because
/// the kernel fixes the X-then-Y-then-Z order, this reversed order is
/// what inverts it; same-order negation does not.
pub open spec fn spec_rotate_point_inverse(p: Point3, f: RotationFrame) -> Point3 {
    let x1 = spec_rot_a(p.x as int, p.y as int, f.cz as int, -(f.sz as int));
    let y1 = spec_rot_b(p.x as int, p.y as int, f.cz as int, -(f.sz as int));
    let x2 = spec_rot_a(x1, p.z as int, f.cy as int, -(f.sy as int));
    let z2 = spec_rot_b(x1, p.z as int, f.cy as int, -(f.sy as int));
    let y3 = spec_rot_a(y1, z2, f.cx as int, -(f.sx as int));
    let z3 = spec_rot_b(y1, z2, f.cx as int, -(f.sx as int));
    Point3 { x: x2 as i64, y: y3 as i64, z: z3 as i64 }
}

impl Point3 {
    /// Every coordinate is within the saturation range.
    pub open spec fn wf(self) -> bool {
        coord_in_range(self.x as int) && coord_in_range(self.y as int) && coord_in_range(
            self.z as int,
        )
    }

    /// Rotate this point by the per-frame angles whose cosines and sines
    /// `f` holds, about the X, then Y, then Z axis.
    pub fn rotate(self, f: RotationFrame) -> (r: Point3)
        requires
            self.wf(),
            f.wf(),
        ensures
            r == spec_rotate_point(self, f),
            r.wf(),
    {
        let (y1, z1) = rotate_in_plane(self.y, self.z, f.cx, f.sx);
        let (x2, z2) = rotate_in_plane(self.x, z1, f.cy, f.sy);
        let (x3, y3) = rotate_in_plane(x2, y1, f.cz, f.sz);
        Point3 { x: x3, y: y3, z: z2 }
    }

    /// Orthographic projection: drop `z` and translate the origin to the
    /// drawing-surface center.
    pub fn project(self) -> (r: Point2)
        requires
            self.wf(),
        ensures
            r == spec_project(self),
    {
        Point2 { x: self.x + VIEW_CENTER_FX, y: self.y + VIEW_CENTER_FX }
    }
}

/// The orthographic projection of `p`: `z` is dropped, and the
/// drawing-surface center is added to `x` and `y`.
pub open spec fn spec_project(p: Point3) -> Point2 {
    Point2 {
        x: (p.x + VIEW_CENTER_FX) as i64,
        y: (p.y + VIEW_CENTER_FX) as i64,
    }
}

} // verus!
