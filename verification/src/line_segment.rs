//! Oriented segments, normalized directions, normals and line intersection,
//! and the offset segment bundle derived from a center segment and a thickness.

use vstd::prelude::*;
use crate::fixed::{SCALE, abs_s, trunc_div_s, trunc_div, sqrt_floor, isqrt};
use crate::fixed::{lemma_trunc_div_bound, lemma_sqrt_floor_pos, lemma_sqrt_floor_lower};
use crate::vec2::{Vec2, vec_in_range};

verus! {

/// Largest coordinate magnitude the segment layer works with; intersection
/// points beyond it are treated as degenerate.
pub const COORD_LIMIT: i64 = 2_000_000_000;

/// Largest coordinate magnitude allowed for the center segment handed to
/// `PolySegment::new`; the derived offset edges then stay within `COORD_LIMIT`.
pub const CENTER_LIMIT: i64 = 1_500_000_000;

/// Largest thickness a stroke may have, in subunits.
pub const MAX_THICKNESS: i64 = 1_000_000;

/// Determinant threshold below which two lines count as parallel: about
/// 1e-4 square world units, expressed in square subunits.
pub const PARALLEL_EPS: i64 = 100;

/// Whether a direction is wanted raw or normalized to one world unit.
#[derive(Clone, Copy, Debug, PartialEq, Eq, Structural)]
pub enum Direction {
    Absolute,
    Normalized,
}

/// An ordered pair of points, read as the oriented segment from `a` to `b`.
#[derive(Clone, Copy, Debug, PartialEq, Eq, Structural)]
pub struct LineSegment {
    pub a: Vec2,
    pub b: Vec2,
}

/// Raw direction components of a segment.
pub open spec fn dir_x(s: LineSegment) -> int {
    s.b.x - s.a.x
}

pub open spec fn dir_y(s: LineSegment) -> int {
    s.b.y - s.a.y
}

/// Squared raw length.
pub open spec fn len_sq(s: LineSegment) -> int {
    dir_x(s) * dir_x(s) + dir_y(s) * dir_y(s)
}

/// Floor of the raw length.
pub open spec fn seg_len(s: LineSegment) -> int {
    sqrt_floor(len_sq(s) as nat) as int
}

/// Components of the direction normalized to length `SCALE` (one world unit),
/// computed with truncated division.
pub open spec fn unit_x(s: LineSegment) -> int {
    trunc_div_s(dir_x(s) * SCALE, seg_len(s))
}

pub open spec fn unit_y(s: LineSegment) -> int {
    trunc_div_s(dir_y(s) * SCALE, seg_len(s))
}

/// Left-hand normal: the unit direction rotated a quarter turn.
pub open spec fn normal_x(s: LineSegment) -> int {
    -unit_y(s)
}

pub open spec fn normal_y(s: LineSegment) -> int {
    unit_x(s)
}

/// Dot product of the unit directions of two segments.
pub open spec fn unit_dot(s1: LineSegment, s2: LineSegment) -> int {
    unit_x(s1) * unit_x(s2) + unit_y(s1) * unit_y(s2)
}

/// A segment with distinct endpoints, the documented precondition for taking
/// directions and normals.
pub open spec fn nondegenerate(s: LineSegment) -> bool {
    s.a != s.b
}

pub open spec fn seg_in_range(s: LineSegment, bound: int) -> bool {
    vec_in_range(s.a, bound) && vec_in_range(s.b, bound)
}

/// `r` is `s` translated by `(ox, oy)`.
pub open spec fn seg_shifted(r: LineSegment, s: LineSegment, ox: int, oy: int) -> bool {
    r.a.x == s.a.x + ox && r.a.y == s.a.y + oy && r.b.x == s.b.x + ox && r.b.y == s.b.y + oy
}

/// Determinant of the 2x2 system solved when intersecting the carrier lines
/// of `s1` and `s2`.
pub open spec fn det_s(s1: LineSegment, s2: LineSegment) -> int {
    (s1.a.x - s1.b.x) * (s2.a.y - s2.b.y) - (s1.a.y - s1.b.y) * (s2.a.x - s2.b.x)
}

pub open spec fn seg_k(s: LineSegment) -> int {
    s.a.x * s.b.y - s.a.y * s.b.x
}

pub open spec fn inter_x(s1: LineSegment, s2: LineSegment) -> int {
    trunc_div_s(
        seg_k(s1) * (s2.a.x - s2.b.x) - seg_k(s2) * (s1.a.x - s1.b.x),
        det_s(s1, s2),
    )
}

pub open spec fn inter_y(s1: LineSegment, s2: LineSegment) -> int {
    trunc_div_s(
        seg_k(s1) * (s2.a.y - s2.b.y) - seg_k(s2) * (s1.a.y - s1.b.y),
        det_s(s1, s2),
    )
}

/// The carrier lines intersect in a representable point: the determinant is
/// not near zero and the intersection point stays within `COORD_LIMIT`.
pub open spec fn inter_ok(s1: LineSegment, s2: LineSegment) -> bool {
    abs_s(det_s(s1, s2)) >= PARALLEL_EPS
    && abs_s(inter_x(s1, s2)) <= COORD_LIMIT
    && abs_s(inter_y(s1, s2)) <= COORD_LIMIT
}

impl LineSegment {
    /// The segment's direction: raw, or normalized to one world unit
    /// (`SCALE` subunits) with truncated division.
    pub fn direction(&self, direction: Direction) -> (r: Vec2)
        requires
            seg_in_range(*self, COORD_LIMIT as int),
            direction is Normalized ==> nondegenerate(*self),
        ensures
            direction is Absolute ==> r.x == dir_x(*self) && r.y == dir_y(*self),
            direction is Normalized ==> r.x == unit_x(*self) && r.y == unit_y(*self),
            direction is Normalized ==> abs_s(r.x as int) <= SCALE && abs_s(r.y as int) <= SCALE,
    {
        let dx: i64 = self.b.x - self.a.x;
        let dy: i64 = self.b.y - self.a.y;
        match direction {
            Direction::Absolute => Vec2 { x: dx, y: dy },
            Direction::Normalized => {
                proof {
                    assert(0 <= (dx as int) * (dx as int) <= 0x1_0000_0000_0000_0000 && 0 <= (
                    dy as int) * (dy as int) <= 0x1_0000_0000_0000_0000) by (nonlinear_arith)
                        requires
                            -4_000_000_000 <= dx <= 4_000_000_000,
                            -4_000_000_000 <= dy <= 4_000_000_000,
                    ;
                }
                let sq: i128 = (dx as i128) * (dx as i128) + (dy as i128) * (dy as i128);
                proof {
                    assert(dx != 0 || dy != 0);
                    assert(sq >= 1) by (nonlinear_arith)
                        requires
                            sq == (dx as int) * (dx as int) + (dy as int) * (dy as int),
                            dx != 0 || dy != 0,
                    ;
                }
                let len: u64 = isqrt(sq as u128);
                proof {
                    lemma_sqrt_floor_pos(sq as nat);
                    assert(len as int == seg_len(*self));
                    lemma_sqrt_floor_lower(dx as int, sq as nat);
                    lemma_sqrt_floor_lower(dy as int, sq as nat);
                    crate::fixed::lemma_abs_mul(dx as int, SCALE as int);
                    crate::fixed::lemma_abs_mul(dy as int, SCALE as int);
                    let adx = abs_s(dx as int);
                    let ady = abs_s(dy as int);
                    assert(adx * (SCALE as int) <= (len as int) * (SCALE as int) && ady * (
                    SCALE as int) <= (len as int) * (SCALE as int)) by (nonlinear_arith)
                        requires
                            adx <= len as int,
                            ady <= len as int,
                            0 <= adx,
                            0 <= ady,
                            SCALE > 0,
                    ;
                    lemma_trunc_div_bound(dx as int * SCALE, len as int, SCALE as int);
                    lemma_trunc_div_bound(dy as int * SCALE, len as int, SCALE as int);
                    assert(-0x1_0000_0000_0000_0000 <= (dx as int) * (SCALE as int)
                        <= 0x1_0000_0000_0000_0000 && -0x1_0000_0000_0000_0000 <= (dy as int) * (
                    SCALE as int) <= 0x1_0000_0000_0000_0000) by (nonlinear_arith)
                        requires
                            -4_000_000_000 <= dx <= 4_000_000_000,
                            -4_000_000_000 <= dy <= 4_000_000_000,
                            SCALE == 1000,
                    ;
                }
                let ux: i128 = trunc_div((dx as i128) * (SCALE as i128), len as i128);
                let uy: i128 = trunc_div((dy as i128) * (SCALE as i128), len as i128);
                Vec2 { x: ux as i64, y: uy as i64 }
            }
        }
    }

    /// The left-hand normal of the normalized direction.
    pub fn normal(&self) -> (r: Vec2)
        requires
            seg_in_range(*self, COORD_LIMIT as int),
            nondegenerate(*self),
        ensures
            r.x == normal_x(*self) && r.y == normal_y(*self),
            abs_s(r.x as int) <= SCALE && abs_s(r.y as int) <= SCALE,
    {
        let u = self.direction(Direction::Normalized);
        Vec2 { x: -u.y, y: u.x }
    }

    /// Intersection of the two carrier lines. Returns `None` when the
    /// determinant is below `PARALLEL_EPS` (near-parallel lines) or the
    /// intersection point falls outside the representable coordinate range.
    pub fn intersection(&self, rhs: LineSegment) -> (r: Option<Vec2>)
        requires
            seg_in_range(*self, COORD_LIMIT as int),
            seg_in_range(rhs, COORD_LIMIT as int),
        ensures
            (r is Some) == inter_ok(*self, rhs),
            r is Some ==> r.unwrap().x == inter_x(*self, rhs) && r.unwrap().y == inter_y(
                *self,
                rhs,
            ),
    {
        let x12: i128 = (self.a.x as i128) - (self.b.x as i128);
        let y12: i128 = (self.a.y as i128) - (self.b.y as i128);
        let x34: i128 = (rhs.a.x as i128) - (rhs.b.x as i128);
        let y34: i128 = (rhs.a.y as i128) - (rhs.b.y as i128);
        proof {
            assert(-0x1_0000_0000_0000_0000_0000 <= (x12 as int) * (y34 as int)
                <= 0x1_0000_0000_0000_0000_0000 && -0x1_0000_0000_0000_0000_0000 <= (y12 as int) * (
            x34 as int) <= 0x1_0000_0000_0000_0000_0000) by (nonlinear_arith)
                requires
                    -4_000_000_000 <= x12 <= 4_000_000_000,
                    -4_000_000_000 <= y12 <= 4_000_000_000,
                    -4_000_000_000 <= x34 <= 4_000_000_000,
                    -4_000_000_000 <= y34 <= 4_000_000_000,
            ;
        }
        let det: i128 = x12 * y34 - y12 * x34;
        assert(det == det_s(*self, rhs));
        if det < PARALLEL_EPS as i128 && det > -(PARALLEL_EPS as i128) {
            assert(!inter_ok(*self, rhs));
            None
        } else {
            proof {
                assert(-0x80_0000_0000_0000_0000 <= (self.a.x as int) * (self.b.y as int)
                    <= 0x80_0000_0000_0000_0000 && -0x80_0000_0000_0000_0000 <= (self.a.y as int)
                    * (self.b.x as int) <= 0x80_0000_0000_0000_0000 && -0x80_0000_0000_0000_0000
                    <= (rhs.a.x as int) * (rhs.b.y as int) <= 0x80_0000_0000_0000_0000
                    && -0x80_0000_0000_0000_0000 <= (rhs.a.y as int) * (rhs.b.x as int)
                    <= 0x80_0000_0000_0000_0000) by (nonlinear_arith)
                    requires
                        -2_000_000_000 <= self.a.x <= 2_000_000_000,
                        -2_000_000_000 <= self.a.y <= 2_000_000_000,
                        -2_000_000_000 <= self.b.x <= 2_000_000_000,
                        -2_000_000_000 <= self.b.y <= 2_000_000_000,
                        -2_000_000_000 <= rhs.a.x <= 2_000_000_000,
                        -2_000_000_000 <= rhs.a.y <= 2_000_000_000,
                        -2_000_000_000 <= rhs.b.x <= 2_000_000_000,
                        -2_000_000_000 <= rhs.b.y <= 2_000_000_000,
                ;
            }
            let k1: i128 = (self.a.x as i128) * (self.b.y as i128) - (self.a.y as i128)
                * (self.b.x as i128);
            let k2: i128 = (rhs.a.x as i128) * (rhs.b.y as i128) - (rhs.a.y as i128)
                * (rhs.b.x as i128);
            proof {
                assert(-0x100_0000_0000_0000_0000 <= k1 <= 0x100_0000_0000_0000_0000
                    && -0x100_0000_0000_0000_0000 <= k2 <= 0x100_0000_0000_0000_0000);
                assert(-0x800_0000_0000_0000_0000_0000_0000 <= (k1 as int) * (x34 as int)
                    <= 0x800_0000_0000_0000_0000_0000_0000 && -0x800_0000_0000_0000_0000_0000_0000
                    <= (k2 as int) * (x12 as int) <= 0x800_0000_0000_0000_0000_0000_0000
                    && -0x800_0000_0000_0000_0000_0000_0000 <= (k1 as int) * (y34 as int)
                    <= 0x800_0000_0000_0000_0000_0000_0000 && -0x800_0000_0000_0000_0000_0000_0000
                    <= (k2 as int) * (y12 as int) <= 0x800_0000_0000_0000_0000_0000_0000) by (
                nonlinear_arith)
                    requires
                        -0x100_0000_0000_0000_0000 <= k1 <= 0x100_0000_0000_0000_0000,
                        -0x100_0000_0000_0000_0000 <= k2 <= 0x100_0000_0000_0000_0000,
                        -4_000_000_000 <= x12 <= 4_000_000_000,
                        -4_000_000_000 <= y12 <= 4_000_000_000,
                        -4_000_000_000 <= x34 <= 4_000_000_000,
                        -4_000_000_000 <= y34 <= 4_000_000_000,
                ;
            }
            let num_x: i128 = k1 * x34 - k2 * x12;
            let num_y: i128 = k1 * y34 - k2 * y12;
            let px: i128 = trunc_div(num_x, det);
            let py: i128 = trunc_div(num_y, det);
            assert(px == inter_x(*self, rhs) && py == inter_y(*self, rhs));
            if px > COORD_LIMIT as i128 || px < -(COORD_LIMIT as i128) || py > COORD_LIMIT as i128
                || py < -(COORD_LIMIT as i128) {
                assert(!inter_ok(*self, rhs));
                None
            } else {
                assert(inter_ok(*self, rhs));
                Some(Vec2 { x: px as i64, y: py as i64 })
            }
        }
    }

    /// The segment translated by `v`.
    pub fn add_vec(&self, v: Vec2) -> (r: LineSegment)
        requires
            seg_in_range(*self, COORD_LIMIT as int),
            vec_in_range(v, COORD_LIMIT as int),
        ensures
            seg_shifted(r, *self, v.x as int, v.y as int),
    {
        LineSegment {
            a: Vec2 { x: self.a.x + v.x, y: self.a.y + v.y },
            b: Vec2 { x: self.b.x + v.x, y: self.b.y + v.y },
        }
    }

    /// The segment translated by `-v`.
    pub fn sub_vec(&self, v: Vec2) -> (r: LineSegment)
        requires
            seg_in_range(*self, COORD_LIMIT as int),
            vec_in_range(v, COORD_LIMIT as int),
        ensures
            seg_shifted(r, *self, -(v.x as int), -(v.y as int)),
    {
        LineSegment {
            a: Vec2 { x: self.a.x - v.x, y: self.a.y - v.y },
            b: Vec2 { x: self.b.x - v.x, y: self.b.y - v.y },
        }
    }
}

/// Half the thickness, truncated.
pub open spec fn half_thickness(t: int) -> int {
    trunc_div_s(t, 2)
}

/// Offset from the center line to the upper core edge.
pub open spec fn core_off_x(c: LineSegment, t: int) -> int {
    trunc_div_s(normal_x(c) * half_thickness(t), SCALE as int)
}

pub open spec fn core_off_y(c: LineSegment, t: int) -> int {
    trunc_div_s(normal_y(c) * half_thickness(t), SCALE as int)
}

/// What `PolySegment::new` builds: core edges at half the thickness along the
/// normal, and fringe edges exactly one normalized-normal (one world unit)
/// beyond the core edges, whatever the thickness.
pub open spec fn poly_built(p: PolySegment, c: LineSegment, t: int) -> bool {
    let ox = core_off_x(c, t);
    let oy = core_off_y(c, t);
    let nx = normal_x(c);
    let ny = normal_y(c);
    &&& p.c == c
    &&& seg_shifted(p.u, c, ox, oy)
    &&& seg_shifted(p.u_aa, c, ox + nx, oy + ny)
    &&& seg_shifted(p.l, c, -ox, -oy)
    &&& seg_shifted(p.l_aa, c, -ox - nx, -oy - ny)
}

/// The center segment of a stroke together with its four derived offset
/// segments: upper/lower core edges and upper/lower antialiasing fringe edges.
#[derive(Clone, Copy, Debug, PartialEq, Eq, Structural)]
pub struct PolySegment {
    pub c: LineSegment,
    pub u_aa: LineSegment,
    pub u: LineSegment,
    pub l_aa: LineSegment,
    pub l: LineSegment,
}

impl PolySegment {
    pub fn new(center: &LineSegment, thickness: i64) -> (r: PolySegment)
        requires
            nondegenerate(*center),
            seg_in_range(*center, CENTER_LIMIT as int),
            0 < thickness <= MAX_THICKNESS,
        ensures
            poly_built(r, *center, thickness as int),
            seg_in_range(r.c, CENTER_LIMIT as int),
            seg_in_range(r.u, COORD_LIMIT as int),
            seg_in_range(r.u_aa, COORD_LIMIT as int),
            seg_in_range(r.l, COORD_LIMIT as int),
            seg_in_range(r.l_aa, COORD_LIMIT as int),
    {
        let nrm = center.normal();
        let ht: i64 = thickness / 2;
        assert(ht == half_thickness(thickness as int));
        proof {
            crate::fixed::lemma_abs_mul(nrm.x as int, ht as int);
            crate::fixed::lemma_abs_mul(nrm.y as int, ht as int);
            let anx = abs_s(nrm.x as int);
            let any = abs_s(nrm.y as int);
            assert(anx * (ht as int) <= (SCALE as int) * (ht as int) && any * (ht as int) <= (
            SCALE as int) * (ht as int) && 0 <= (SCALE as int) * (ht as int)
                <= 1_000_000_000) by (nonlinear_arith)
                requires
                    0 <= anx <= SCALE as int,
                    0 <= any <= SCALE as int,
                    0 <= ht <= 500_000,
                    SCALE == 1000,
            ;
            assert((SCALE as int) * (ht as int) == (ht as int) * (SCALE as int)) by (
            nonlinear_arith);
            lemma_trunc_div_bound(nrm.x as int * ht, SCALE as int, ht as int);
            lemma_trunc_div_bound(nrm.y as int * ht, SCALE as int, ht as int);
        }
        let off_x: i64 = trunc_div((nrm.x as i128) * (ht as i128), SCALE as i128) as i64;
        let off_y: i64 = trunc_div((nrm.y as i128) * (ht as i128), SCALE as i128) as i64;
        let off = Vec2 { x: off_x, y: off_y };
        let u = center.add_vec(off);
        let u_aa = u.add_vec(nrm);
        let l = center.sub_vec(off);
        let l_aa = l.sub_vec(nrm);
        PolySegment { c: *center, u_aa, u, l_aa, l }
    }
}

/// The same segment walked the other way.
pub open spec fn rev_seg(s: LineSegment) -> LineSegment {
    LineSegment { a: s.b, b: s.a }
}

/// Reversing a segment negates its normalized direction exactly, truncation
/// included.
pub proof fn lemma_unit_reverse(s: LineSegment)
    ensures
        unit_x(rev_seg(s)) == -unit_x(s),
        unit_y(rev_seg(s)) == -unit_y(s),
{
    let dx = dir_x(s);
    let dy = dir_y(s);
    assert(dir_x(rev_seg(s)) == -dx && dir_y(rev_seg(s)) == -dy);
    assert((-dx) * (-dx) == dx * dx && (-dy) * (-dy) == dy * dy) by (nonlinear_arith);
    assert(len_sq(rev_seg(s)) == len_sq(s));
    let len = seg_len(s);
    assert((-dx) * SCALE == -(dx * SCALE) && (-dy) * SCALE == -(dy * SCALE));
    crate::fixed::lemma_trunc_div_neg(dx * SCALE, len);
    crate::fixed::lemma_trunc_div_neg(dy * SCALE, len);
}

/// The segment translated by `(ox, oy)`, as a value.
pub open spec fn shift_seg_s(c: LineSegment, ox: int, oy: int) -> LineSegment {
    LineSegment {
        a: Vec2 { x: (c.a.x + ox) as i64, y: (c.a.y + oy) as i64 },
        b: Vec2 { x: (c.b.x + ox) as i64, y: (c.b.y + oy) as i64 },
    }
}

/// The bundle `PolySegment::new` builds, as a value.
pub open spec fn poly_spec(c: LineSegment, t: int) -> PolySegment {
    let ox = core_off_x(c, t);
    let oy = core_off_y(c, t);
    let nx = normal_x(c);
    let ny = normal_y(c);
    PolySegment {
        c,
        u_aa: shift_seg_s(c, ox + nx, oy + ny),
        u: shift_seg_s(c, ox, oy),
        l_aa: shift_seg_s(c, -ox - nx, -oy - ny),
        l: shift_seg_s(c, -ox, -oy),
    }
}

/// Components of a normalized direction never exceed one world unit.
pub proof fn lemma_unit_bounds(s: LineSegment)
    ensures
        abs_s(unit_x(s)) <= SCALE,
        abs_s(unit_y(s)) <= SCALE,
{
    let dx = dir_x(s);
    let dy = dir_y(s);
    assert(dx * dx >= 0 && dy * dy >= 0) by (nonlinear_arith);
    let n = len_sq(s);
    let len = seg_len(s);
    if len == 0 {
    } else {
        lemma_sqrt_floor_lower(dx, n as nat);
        lemma_sqrt_floor_lower(dy, n as nat);
        crate::fixed::lemma_abs_mul(dx, SCALE as int);
        crate::fixed::lemma_abs_mul(dy, SCALE as int);
        let adx = abs_s(dx);
        let ady = abs_s(dy);
        assert(adx * (SCALE as int) <= len * (SCALE as int) && ady * (SCALE as int) <= len * (
        SCALE as int)) by (nonlinear_arith)
            requires
                0 <= adx <= len,
                0 <= ady <= len,
                SCALE > 0,
        ;
        lemma_trunc_div_bound(dx * SCALE, len, SCALE as int);
        lemma_trunc_div_bound(dy * SCALE, len, SCALE as int);
    }
}

/// The core offsets are bounded by the half-thickness.
pub proof fn lemma_core_off_bounds(c: LineSegment, t: int)
    requires
        0 <= t <= MAX_THICKNESS,
    ensures
        0 <= half_thickness(t) <= 500_000,
        abs_s(core_off_x(c, t)) <= half_thickness(t),
        abs_s(core_off_y(c, t)) <= half_thickness(t),
{
    let ht = half_thickness(t);
    vstd::arithmetic::div_mod::lemma_div_pos_is_pos(t, 2);
    vstd::arithmetic::div_mod::lemma_div_is_ordered(t, 1_000_000, 2);
    vstd::arithmetic::div_mod::lemma_div_by_multiple(500_000, 2);
    lemma_unit_bounds(c);
    crate::fixed::lemma_abs_mul(normal_x(c), ht);
    crate::fixed::lemma_abs_mul(normal_y(c), ht);
    let anx = abs_s(normal_x(c));
    let any = abs_s(normal_y(c));
    assert(anx * ht <= (SCALE as int) * ht && any * ht <= (SCALE as int) * ht && (SCALE as int) * ht
        == ht * (SCALE as int)) by (nonlinear_arith)
        requires
            0 <= anx <= SCALE as int,
            0 <= any <= SCALE as int,
            0 <= ht,
    ;
    lemma_trunc_div_bound(normal_x(c) * ht, SCALE as int, ht);
    lemma_trunc_div_bound(normal_y(c) * ht, SCALE as int, ht);
}

/// A bundle satisfying `poly_built` is exactly the `poly_spec` value.
pub proof fn lemma_poly_built_is_spec(p: PolySegment, c: LineSegment, t: int)
    requires
        poly_built(p, c, t),
        seg_in_range(c, CENTER_LIMIT as int),
        0 <= t <= MAX_THICKNESS,
    ensures
        p == poly_spec(c, t),
{
    lemma_core_off_bounds(c, t);
    lemma_unit_bounds(c);
    let q = poly_spec(c, t);
    assert(p.u.a == q.u.a && p.u.b == q.u.b);
    assert(p.u_aa.a == q.u_aa.a && p.u_aa.b == q.u_aa.b);
    assert(p.l.a == q.l.a && p.l.b == q.l.b);
    assert(p.l_aa.a == q.l_aa.a && p.l_aa.b == q.l_aa.b);
}

} // verus!
