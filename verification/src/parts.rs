//! Joint and cap units and their fixed triangulation layouts.
//!
//! A joint unit (`VSegments`) is two adjacent offset bundles sharing a corner
//! vertex; a cap unit closes off a strip end. Each triangulates into one of
//! three fixed layouts: Straight (no shared corner, near-parallel fallback),
//! Miter (corner extended to the true intersection) or Bevel (convex side cut
//! flat).

use vstd::prelude::*;
use crate::fixed::{SCALE, abs_s, trunc_div};
use crate::indices::{IndexPart, expand_parts, expand_indices};
use crate::line_segment::{
    LineSegment, PolySegment, Direction, nondegenerate, seg_in_range, unit_x, unit_y, unit_dot,
    inter_ok, inter_x, inter_y, COORD_LIMIT, CENTER_LIMIT, MAX_THICKNESS, poly_built,
    half_thickness,
};
use crate::style::{JointStyle, EndCapStyle};
use crate::vec2::{Vec2, vec_in_range};
use crate::draw_batcher::BufferedDrawBatcher;

verus! {

/// Unit-direction dot product below which a requested Miter joint is forced
/// to Bevel: -0.8 at the fixed-point scale (the turn is sharper than ~143
/// degrees).
pub const SHARP_TURN_DOT: i64 = -800_000;

/// An RGBA color with 8-bit channels.
#[derive(Clone, Copy, Debug, PartialEq, Eq, Structural)]
pub struct Rgba {
    pub r: u8,
    pub g: u8,
    pub b: u8,
    pub a: u8,
}

/// The same color faded out completely, as put on fringe-boundary vertices.
pub open spec fn transparent_s(c: Rgba) -> Rgba {
    Rgba { r: c.r, g: c.g, b: c.b, a: 0 }
}

/// One mesh vertex: position in subunits plus color.
#[derive(Clone, Copy, Debug, PartialEq, Eq, Structural)]
pub struct VertexData {
    pub pos_x: i64,
    pub pos_y: i64,
    pub color: Rgba,
}

impl VertexData {
    pub fn new(pos_x: i64, pos_y: i64, color: Rgba) -> (r: VertexData)
        ensures
            r == (VertexData { pos_x, pos_y, color }),
    {
        VertexData { pos_x, pos_y, color }
    }
}

/// The vertex sits on the given point and carries the given color.
pub open spec fn vertex_is(v: VertexData, p: Vec2, c: Rgba) -> bool {
    v.pos_x == p.x && v.pos_y == p.y && v.color == c
}

/// The vertex sits on the intersection of the carrier lines of `s1` and `s2`.
pub open spec fn vertex_at_inter(v: VertexData, s1: LineSegment, s2: LineSegment, c: Rgba) -> bool {
    v.pos_x == inter_x(s1, s2) && v.pos_y == inter_y(s1, s2) && v.color == c
}

/// The index list is exactly the expansion of the descriptor list at `base`.
pub open spec fn indices_match(idxs: Seq<u16>, parts: Seq<IndexPart>, base: int) -> bool {
    idxs.len() == expand_parts(parts, base).len() && forall|i: int|
        0 <= i < idxs.len() ==> idxs[i] as int == expand_parts(parts, base)[i]
}

/// Index table shared by the Straight layout and all caps: three bridging
/// quads between the two cross-sections plus one closing quad per side.
pub open spec fn straight_parts() -> Seq<IndexPart> {
    seq![
        IndexPart::Quad(0, 4, 1, 5),
        IndexPart::Quad(1, 5, 2, 6),
        IndexPart::Quad(2, 6, 3, 7),
        IndexPart::Quad(0, 1, 2, 3),
        IndexPart::Quad(4, 5, 6, 7),
    ]
}

/// Index table of the Miter layout: two quad strips meeting in the shared
/// corner cross-section.
pub open spec fn miter_parts() -> Seq<IndexPart> {
    seq![
        IndexPart::Quad(0, 4, 1, 5),
        IndexPart::Quad(1, 5, 2, 6),
        IndexPart::Quad(2, 6, 3, 7),
        IndexPart::Quad(4, 8, 5, 9),
        IndexPart::Quad(5, 9, 6, 10),
        IndexPart::Quad(6, 10, 7, 11),
    ]
}

/// Index table of the Bevel layout for a counter-clockwise turn.
pub open spec fn bevel_ccw_parts() -> Seq<IndexPart> {
    seq![
        IndexPart::Quad(0, 4, 1, 5),
        IndexPart::Quad(1, 5, 2, 6),
        IndexPart::Quad(2, 6, 3, 7),
        IndexPart::Quad(4, 10, 5, 11),
        IndexPart::Quad(5, 11, 8, 12),
        IndexPart::Quad(8, 12, 9, 13),
        IndexPart::Quad(6, 8, 7, 9),
        IndexPart::Triangle(6, 5, 8),
    ]
}

/// Index table of the Bevel layout for a clockwise turn.
pub open spec fn bevel_cw_parts() -> Seq<IndexPart> {
    seq![
        IndexPart::Quad(0, 4, 1, 5),
        IndexPart::Quad(1, 5, 2, 8),
        IndexPart::Quad(2, 8, 3, 9),
        IndexPart::Quad(6, 10, 7, 11),
        IndexPart::Quad(7, 11, 8, 12),
        IndexPart::Quad(8, 12, 9, 13),
        IndexPart::Quad(4, 6, 5, 7),
        IndexPart::Triangle(8, 5, 7),
    ]
}

/// One triangulated unit: one of three fixed vertex/index layouts.
pub enum SegmentTriangulation {
    /// 8 vertices, 30 indices: two independently capped quad strips, no
    /// shared corner vertex. The near-parallel fallback, and every cap.
    Straight { vertices: Vec<VertexData>, indices: Vec<u16> },
    /// 12 vertices, 36 indices: both sides extended to the four offset-edge
    /// intersections.
    Miter { vertices: Vec<VertexData>, indices: Vec<u16> },
    /// 14 vertices, 45 indices: the concave side intersected, the convex side
    /// cut flat with one extra triangle.
    Bevel { vertices: Vec<VertexData>, indices: Vec<u16> },
}

/// Content of the Straight fallback of a joint: each bundle keeps its own far
/// cross-section, nothing is shared at the corner.
pub open spec fn straight_joint_content(
    vs: Seq<VertexData>,
    idxs: Seq<u16>,
    v: VSegments,
    base: int,
    color: Rgba,
) -> bool {
    &&& vs.len() == 8
    &&& vertex_is(vs[0], v.lcs.u_aa.a, transparent_s(color))
    &&& vertex_is(vs[1], v.lcs.u.a, color)
    &&& vertex_is(vs[2], v.lcs.l.a, color)
    &&& vertex_is(vs[3], v.lcs.l_aa.a, transparent_s(color))
    &&& vertex_is(vs[4], v.rcs.u_aa.b, transparent_s(color))
    &&& vertex_is(vs[5], v.rcs.u.b, color)
    &&& vertex_is(vs[6], v.rcs.l.b, color)
    &&& vertex_is(vs[7], v.rcs.l_aa.b, transparent_s(color))
    &&& indices_match(idxs, straight_parts(), base)
}

/// Content of the Miter layout: the four intersection points are the shared
/// corner cross-section on both sides.
pub open spec fn miter_content(
    vs: Seq<VertexData>,
    idxs: Seq<u16>,
    v: VSegments,
    base: int,
    color: Rgba,
) -> bool {
    &&& vs.len() == 12
    &&& vertex_is(vs[0], v.lcs.u_aa.a, transparent_s(color))
    &&& vertex_is(vs[1], v.lcs.u.a, color)
    &&& vertex_is(vs[2], v.lcs.l.a, color)
    &&& vertex_is(vs[3], v.lcs.l_aa.a, transparent_s(color))
    &&& vertex_at_inter(vs[4], v.lcs.u_aa, v.rcs.u_aa, transparent_s(color))
    &&& vertex_at_inter(vs[5], v.lcs.u, v.rcs.u, color)
    &&& vertex_at_inter(vs[6], v.lcs.l, v.rcs.l, color)
    &&& vertex_at_inter(vs[7], v.lcs.l_aa, v.rcs.l_aa, transparent_s(color))
    &&& vertex_is(vs[8], v.rcs.u_aa.b, transparent_s(color))
    &&& vertex_is(vs[9], v.rcs.u.b, color)
    &&& vertex_is(vs[10], v.rcs.l.b, color)
    &&& vertex_is(vs[11], v.rcs.l_aa.b, transparent_s(color))
    &&& indices_match(idxs, miter_parts(), base)
}

/// Content of the Bevel layout on a counter-clockwise turn: upper side shares
/// the intersection, lower side is cut flat.
pub open spec fn bevel_ccw_content(
    vs: Seq<VertexData>,
    idxs: Seq<u16>,
    v: VSegments,
    base: int,
    color: Rgba,
) -> bool {
    &&& vs.len() == 14
    &&& vertex_is(vs[0], v.lcs.u_aa.a, transparent_s(color))
    &&& vertex_is(vs[1], v.lcs.u.a, color)
    &&& vertex_is(vs[2], v.lcs.l.a, color)
    &&& vertex_is(vs[3], v.lcs.l_aa.a, transparent_s(color))
    &&& vertex_at_inter(vs[4], v.lcs.u_aa, v.rcs.u_aa, transparent_s(color))
    &&& vertex_at_inter(vs[5], v.lcs.u, v.rcs.u, color)
    &&& vertex_is(vs[6], v.lcs.l.b, color)
    &&& vertex_is(vs[7], v.lcs.l_aa.b, transparent_s(color))
    &&& vertex_is(vs[8], v.rcs.l.a, color)
    &&& vertex_is(vs[9], v.rcs.l_aa.a, transparent_s(color))
    &&& vertex_is(vs[10], v.rcs.u_aa.b, transparent_s(color))
    &&& vertex_is(vs[11], v.rcs.u.b, color)
    &&& vertex_is(vs[12], v.rcs.l.b, color)
    &&& vertex_is(vs[13], v.rcs.l_aa.b, transparent_s(color))
    &&& indices_match(idxs, bevel_ccw_parts(), base)
}

/// Content of the Bevel layout on a clockwise turn: lower side shares the
/// intersection, upper side is cut flat.
pub open spec fn bevel_cw_content(
    vs: Seq<VertexData>,
    idxs: Seq<u16>,
    v: VSegments,
    base: int,
    color: Rgba,
) -> bool {
    &&& vs.len() == 14
    &&& vertex_is(vs[0], v.lcs.u_aa.a, transparent_s(color))
    &&& vertex_is(vs[1], v.lcs.u.a, color)
    &&& vertex_is(vs[2], v.lcs.l.a, color)
    &&& vertex_is(vs[3], v.lcs.l_aa.a, transparent_s(color))
    &&& vertex_is(vs[4], v.lcs.u_aa.b, transparent_s(color))
    &&& vertex_is(vs[5], v.lcs.u.b, color)
    &&& vertex_is(vs[6], v.rcs.u_aa.a, transparent_s(color))
    &&& vertex_is(vs[7], v.rcs.u.a, color)
    &&& vertex_at_inter(vs[8], v.lcs.l, v.rcs.l, color)
    &&& vertex_at_inter(vs[9], v.lcs.l_aa, v.rcs.l_aa, transparent_s(color))
    &&& vertex_is(vs[10], v.rcs.u_aa.b, transparent_s(color))
    &&& vertex_is(vs[11], v.rcs.u.b, color)
    &&& vertex_is(vs[12], v.rcs.l.b, color)
    &&& vertex_is(vs[13], v.rcs.l_aa.b, transparent_s(color))
    &&& indices_match(idxs, bevel_cw_parts(), base)
}

/// The vertex list of whichever layout a triangulation holds.
pub open spec fn tri_vertices(t: SegmentTriangulation) -> Seq<VertexData> {
    match t {
        SegmentTriangulation::Straight { vertices, .. } => vertices@,
        SegmentTriangulation::Miter { vertices, .. } => vertices@,
        SegmentTriangulation::Bevel { vertices, .. } => vertices@,
    }
}

/// The index list of whichever layout a triangulation holds.
pub open spec fn tri_indices(t: SegmentTriangulation) -> Seq<u16> {
    match t {
        SegmentTriangulation::Straight { indices, .. } => indices@,
        SegmentTriangulation::Miter { indices, .. } => indices@,
        SegmentTriangulation::Bevel { indices, .. } => indices@,
    }
}

impl SegmentTriangulation {
    /// Appends this unit's vertices and indices to the batcher's open buffers.
    pub fn extend_draw_batcher(&self, draw_batcher: &mut BufferedDrawBatcher)
        ensures
            final(draw_batcher).vertex_buffer@ == old(draw_batcher).vertex_buffer@ + tri_vertices(
                *self,
            ),
            final(draw_batcher).index_buffer@ == old(draw_batcher).index_buffer@ + tri_indices(
                *self,
            ),
            final(draw_batcher).submissions == old(draw_batcher).submissions,
    {
        match self {
            SegmentTriangulation::Straight { vertices, indices } => {
                draw_batcher.extend(vertices, indices);
            }
            SegmentTriangulation::Miter { vertices, indices } => {
                draw_batcher.extend(vertices, indices);
            }
            SegmentTriangulation::Bevel { vertices, indices } => {
                draw_batcher.extend(vertices, indices);
            }
        }
    }
}

/// Complete contract of joint triangulation: which layout comes out for which
/// joint, and the exact vertex and index content of each.
pub open spec fn tri_matches(
    r: SegmentTriangulation,
    v: VSegments,
    base: int,
    color: Rgba,
    style: JointStyle,
) -> bool {
    match r {
        SegmentTriangulation::Straight { vertices, indices } => {
            &&& !joint_has_intersection(v)
            &&& straight_joint_content(vertices@, indices@, v, base, color)
        },
        SegmentTriangulation::Miter { vertices, indices } => {
            &&& joint_has_intersection(v)
            &&& style is Miter
            &&& miter_content(vertices@, indices@, v, base, color)
        },
        SegmentTriangulation::Bevel { vertices, indices } => {
            &&& joint_has_intersection(v)
            &&& style is Bevel
            &&& if is_clockwise_s(v) {
                bevel_cw_content(vertices@, indices@, v, base, color)
            } else {
                bevel_ccw_content(vertices@, indices@, v, base, color)
            }
        },
    }
}

/// Offset along the unit direction of `c`, scaled by `e` subunits.
pub open spec fn ext_x(c: LineSegment, e: int) -> int {
    crate::fixed::trunc_div_s(unit_x(c) * e, SCALE as int)
}

pub open spec fn ext_y(c: LineSegment, e: int) -> int {
    crate::fixed::trunc_div_s(unit_y(c) * e, SCALE as int)
}

/// The vertex sits on `p` translated by `(ox, oy)` and carries color `c`.
pub open spec fn vertex_shifted(v: VertexData, p: Vec2, ox: int, oy: int, c: Rgba) -> bool {
    v.pos_x == p.x + ox && v.pos_y == p.y + oy && v.color == c
}

/// A cap unit fit for triangulation: a well-ranged bundle with a
/// nondegenerate center and its stored half-thickness.
pub open spec fn cap_wf(p: PolySegment, ht: int) -> bool {
    &&& nondegenerate(p.c)
    &&& seg_in_range(p.c, CENTER_LIMIT as int)
    &&& seg_in_range(p.u, COORD_LIMIT as int)
    &&& seg_in_range(p.u_aa, COORD_LIMIT as int)
    &&& seg_in_range(p.l, COORD_LIMIT as int)
    &&& seg_in_range(p.l_aa, COORD_LIMIT as int)
    &&& 0 <= ht <= 500_000
}

/// Content of a single cap at the `b` end of the bundle. Butt keeps the core
/// cross-section flush and pushes only the fringe corners one unit out;
/// Square extends core by the half-thickness and fringe one unit further.
pub open spec fn cap_content(
    vs: Seq<VertexData>,
    idxs: Seq<u16>,
    p: PolySegment,
    ht: int,
    base: int,
    color: Rgba,
    style: EndCapStyle,
) -> bool {
    let ec = if style is Butt { 0int } else { ht };
    let ef = if style is Butt { SCALE as int } else { ht + SCALE };
    &&& vs.len() == 8
    &&& vertex_is(vs[0], p.u_aa.a, transparent_s(color))
    &&& vertex_is(vs[1], p.u.a, color)
    &&& vertex_is(vs[2], p.l.a, color)
    &&& vertex_is(vs[3], p.l_aa.a, transparent_s(color))
    &&& vertex_shifted(vs[4], p.u_aa.b, ext_x(p.c, ef), ext_y(p.c, ef), transparent_s(color))
    &&& vertex_shifted(vs[5], p.u.b, ext_x(p.c, ec), ext_y(p.c, ec), color)
    &&& vertex_shifted(vs[6], p.l.b, ext_x(p.c, ec), ext_y(p.c, ec), color)
    &&& vertex_shifted(vs[7], p.l_aa.b, ext_x(p.c, ef), ext_y(p.c, ef), transparent_s(color))
    &&& indices_match(idxs, straight_parts(), base)
}

/// Content of the symmetric two-ended cap used for a strip of exactly two
/// points: the same extension applied at both the `a` and `b` ends.
pub open spec fn double_cap_content(
    vs: Seq<VertexData>,
    idxs: Seq<u16>,
    p: PolySegment,
    ht: int,
    base: int,
    color: Rgba,
    style: EndCapStyle,
) -> bool {
    let ec = if style is Butt { 0int } else { ht };
    let ef = if style is Butt { SCALE as int } else { ht + SCALE };
    &&& vs.len() == 8
    &&& vertex_shifted(vs[0], p.u_aa.a, -ext_x(p.c, ef), -ext_y(p.c, ef), transparent_s(color))
    &&& vertex_shifted(vs[1], p.u.a, -ext_x(p.c, ec), -ext_y(p.c, ec), color)
    &&& vertex_shifted(vs[2], p.l.a, -ext_x(p.c, ec), -ext_y(p.c, ec), color)
    &&& vertex_shifted(vs[3], p.l_aa.a, -ext_x(p.c, ef), -ext_y(p.c, ef), transparent_s(color))
    &&& vertex_shifted(vs[4], p.u_aa.b, ext_x(p.c, ef), ext_y(p.c, ef), transparent_s(color))
    &&& vertex_shifted(vs[5], p.u.b, ext_x(p.c, ec), ext_y(p.c, ec), color)
    &&& vertex_shifted(vs[6], p.l.b, ext_x(p.c, ec), ext_y(p.c, ec), color)
    &&& vertex_shifted(vs[7], p.l_aa.b, ext_x(p.c, ef), ext_y(p.c, ef), transparent_s(color))
    &&& indices_match(idxs, straight_parts(), base)
}

/// A cap's triangulation is always the Straight layout shape.
pub open spec fn cap_matches(
    r: SegmentTriangulation,
    p: PolySegment,
    ht: int,
    base: int,
    color: Rgba,
    style: EndCapStyle,
) -> bool {
    match r {
        SegmentTriangulation::Straight { vertices, indices } => cap_content(
            vertices@,
            indices@,
            p,
            ht,
            base,
            color,
            style,
        ),
        _ => false,
    }
}

pub open spec fn double_cap_matches(
    r: SegmentTriangulation,
    p: PolySegment,
    ht: int,
    base: int,
    color: Rgba,
    style: EndCapStyle,
) -> bool {
    match r {
        SegmentTriangulation::Straight { vertices, indices } => double_cap_content(
            vertices@,
            indices@,
            p,
            ht,
            base,
            color,
            style,
        ),
        _ => false,
    }
}

/// A joint unit: the offset bundles of the two half-segments meeting at a
/// corner. `lcs` runs into the corner, `rcs` runs out of it.
pub struct VSegments {
    pub lcs: PolySegment,
    pub rcs: PolySegment,
}

/// Both bundles' segments are well within range and their centers are
/// nondegenerate, as `VSegments::new` guarantees.
pub open spec fn vsegs_wf(v: VSegments) -> bool {
    &&& nondegenerate(v.lcs.c)
    &&& nondegenerate(v.rcs.c)
    &&& seg_in_range(v.lcs.c, CENTER_LIMIT as int)
    &&& seg_in_range(v.rcs.c, CENTER_LIMIT as int)
    &&& seg_in_range(v.lcs.u, COORD_LIMIT as int)
    &&& seg_in_range(v.lcs.u_aa, COORD_LIMIT as int)
    &&& seg_in_range(v.lcs.l, COORD_LIMIT as int)
    &&& seg_in_range(v.lcs.l_aa, COORD_LIMIT as int)
    &&& seg_in_range(v.rcs.u, COORD_LIMIT as int)
    &&& seg_in_range(v.rcs.u_aa, COORD_LIMIT as int)
    &&& seg_in_range(v.rcs.l, COORD_LIMIT as int)
    &&& seg_in_range(v.rcs.l_aa, COORD_LIMIT as int)
}

/// All four pairs of offset edges meet in representable intersection points.
pub open spec fn joint_has_intersection(v: VSegments) -> bool {
    &&& inter_ok(v.lcs.u, v.rcs.u)
    &&& inter_ok(v.lcs.u_aa, v.rcs.u_aa)
    &&& inter_ok(v.lcs.l, v.rcs.l)
    &&& inter_ok(v.lcs.l_aa, v.rcs.l_aa)
}

/// The corner turns clockwise: the cross product of the reversed incoming
/// unit direction with the outgoing unit direction is positive.
pub open spec fn is_clockwise_s(v: VSegments) -> bool {
    crate::cross_spec(-unit_x(v.lcs.c), -unit_y(v.lcs.c), unit_x(v.rcs.c), unit_y(v.rcs.c)) > 0
}

/// The turn is too sharp for a Miter joint.
pub open spec fn too_sharp_s(v: VSegments) -> bool {
    unit_dot(v.lcs.c, v.rcs.c) < SHARP_TURN_DOT
}

impl VSegments {
    /// Builds the joint unit at corner `b` from the half-segments `a -> b`
    /// and `b -> c`.
    pub fn new(a: Vec2, b: Vec2, c: Vec2, thickness: i64) -> (r: VSegments)
        requires
            a != b,
            b != c,
            vec_in_range(a, CENTER_LIMIT as int),
            vec_in_range(b, CENTER_LIMIT as int),
            vec_in_range(c, CENTER_LIMIT as int),
            0 < thickness <= MAX_THICKNESS,
        ensures
            vsegs_wf(r),
            poly_built(r.lcs, LineSegment { a, b }, thickness as int),
            poly_built(r.rcs, LineSegment { a: b, b: c }, thickness as int),
    {
        let line_segment_first = LineSegment { a, b };
        let line_segment_second = LineSegment { a: b, b: c };
        VSegments {
            lcs: PolySegment::new(&line_segment_first, thickness),
            rcs: PolySegment::new(&line_segment_second, thickness),
        }
    }

    /// Whether the corner turns clockwise (decides which side is convex).
    pub fn is_clockwise(&self) -> (r: bool)
        requires
            vsegs_wf(*self),
        ensures
            r == is_clockwise_s(*self),
    {
        let dir1 = self.lcs.c.direction(Direction::Normalized);
        let dir2 = self.rcs.c.direction(Direction::Normalized);
        let neg1 = Vec2 { x: -dir1.x, y: -dir1.y };
        crate::cross(neg1, dir2) > 0
    }

    /// Whether the unit-direction dot product falls below the Miter cutoff.
    pub fn angle_is_too_sharp(&self) -> (r: bool)
        requires
            vsegs_wf(*self),
        ensures
            r == too_sharp_s(*self),
    {
        let dir1 = self.lcs.c.direction(Direction::Normalized);
        let dir2 = self.rcs.c.direction(Direction::Normalized);
        proof {
            assert(-1_000_000 <= (dir1.x as int) * (dir2.x as int) <= 1_000_000 && -1_000_000 <= (
            dir1.y as int) * (dir2.y as int) <= 1_000_000) by (nonlinear_arith)
                requires
                    -1000 <= dir1.x <= 1000,
                    -1000 <= dir1.y <= 1000,
                    -1000 <= dir2.x <= 1000,
                    -1000 <= dir2.y <= 1000,
            ;
        }
        let dot: i64 = dir1.x * dir2.x + dir1.y * dir2.y;
        dot < SHARP_TURN_DOT
    }

    /// Intersects the four pairs of offset edges: upper core, upper fringe,
    /// lower core, lower fringe. `None` as soon as any pair is near-parallel
    /// or meets outside the representable range.
    pub fn get_intersection(&self) -> (r: Option<(Vec2, Vec2, Vec2, Vec2)>)
        requires
            vsegs_wf(*self),
        ensures
            (r is Some) == joint_has_intersection(*self),
            r is Some ==> {
                let (upper, upper_aa, lower, lower_aa) = r.unwrap();
                &&& upper.x == inter_x(self.lcs.u, self.rcs.u)
                &&& upper.y == inter_y(self.lcs.u, self.rcs.u)
                &&& upper_aa.x == inter_x(self.lcs.u_aa, self.rcs.u_aa)
                &&& upper_aa.y == inter_y(self.lcs.u_aa, self.rcs.u_aa)
                &&& lower.x == inter_x(self.lcs.l, self.rcs.l)
                &&& lower.y == inter_y(self.lcs.l, self.rcs.l)
                &&& lower_aa.x == inter_x(self.lcs.l_aa, self.rcs.l_aa)
                &&& lower_aa.y == inter_y(self.lcs.l_aa, self.rcs.l_aa)
            },
    {
        let upper = match self.lcs.u.intersection(self.rcs.u) {
            Some(p) => p,
            None => {
                return None;
            }
        };
        let upper_aa = match self.lcs.u_aa.intersection(self.rcs.u_aa) {
            Some(p) => p,
            None => {
                return None;
            }
        };
        let lower = match self.lcs.l.intersection(self.rcs.l) {
            Some(p) => p,
            None => {
                return None;
            }
        };
        let lower_aa = match self.lcs.l_aa.intersection(self.rcs.l_aa) {
            Some(p) => p,
            None => {
                return None;
            }
        };
        Some((upper, upper_aa, lower, lower_aa))
    }

    /// Triangulates the joint: Straight when the offset edges found no
    /// intersection, else the requested Miter or winding-dependent Bevel
    /// layout, with indices based at `start_id`.
    pub fn triangulate(&self, start_id: u16, color: Rgba, style: JointStyle) -> (r:
        SegmentTriangulation)
        requires
            vsegs_wf(*self),
            start_id <= 65522,
        ensures
            tri_matches(r, *self, start_id as int, color, style),
    {
        let transparent_color = Rgba { r: color.r, g: color.g, b: color.b, a: 0 };
        match self.get_intersection() {
            None => {
                let vertices = vec![
                    VertexData::new(self.lcs.u_aa.a.x, self.lcs.u_aa.a.y, transparent_color),
                    VertexData::new(self.lcs.u.a.x, self.lcs.u.a.y, color),
                    VertexData::new(self.lcs.l.a.x, self.lcs.l.a.y, color),
                    VertexData::new(self.lcs.l_aa.a.x, self.lcs.l_aa.a.y, transparent_color),
                    VertexData::new(self.rcs.u_aa.b.x, self.rcs.u_aa.b.y, transparent_color),
                    VertexData::new(self.rcs.u.b.x, self.rcs.u.b.y, color),
                    VertexData::new(self.rcs.l.b.x, self.rcs.l.b.y, color),
                    VertexData::new(self.rcs.l_aa.b.x, self.rcs.l_aa.b.y, transparent_color),
                ];
                let idx_parts: Vec<IndexPart> = vec![
                    IndexPart::Quad(0, 4, 1, 5),
                    IndexPart::Quad(1, 5, 2, 6),
                    IndexPart::Quad(2, 6, 3, 7),
                    IndexPart::Quad(0, 1, 2, 3),
                    IndexPart::Quad(4, 5, 6, 7),
                ];
                assert(idx_parts@ =~= straight_parts());
                let indices = expand_indices(&idx_parts, start_id);
                SegmentTriangulation::Straight { vertices, indices }
            }
            Some((upper, upper_aa, lower, lower_aa)) => {
                let is_cw = self.is_clockwise();
                match (is_cw, style) {
                    (false, JointStyle::Bevel) => {
                        let vertices = vec![
                            VertexData::new(self.lcs.u_aa.a.x, self.lcs.u_aa.a.y, transparent_color),
                            VertexData::new(self.lcs.u.a.x, self.lcs.u.a.y, color),
                            VertexData::new(self.lcs.l.a.x, self.lcs.l.a.y, color),
                            VertexData::new(self.lcs.l_aa.a.x, self.lcs.l_aa.a.y, transparent_color),
                            VertexData::new(upper_aa.x, upper_aa.y, transparent_color),
                            VertexData::new(upper.x, upper.y, color),
                            VertexData::new(self.lcs.l.b.x, self.lcs.l.b.y, color),
                            VertexData::new(self.lcs.l_aa.b.x, self.lcs.l_aa.b.y, transparent_color),
                            VertexData::new(self.rcs.l.a.x, self.rcs.l.a.y, color),
                            VertexData::new(self.rcs.l_aa.a.x, self.rcs.l_aa.a.y, transparent_color),
                            VertexData::new(self.rcs.u_aa.b.x, self.rcs.u_aa.b.y, transparent_color),
                            VertexData::new(self.rcs.u.b.x, self.rcs.u.b.y, color),
                            VertexData::new(self.rcs.l.b.x, self.rcs.l.b.y, color),
                            VertexData::new(self.rcs.l_aa.b.x, self.rcs.l_aa.b.y, transparent_color),
                        ];
                        let idx_parts: Vec<IndexPart> = vec![
                            IndexPart::Quad(0, 4, 1, 5),
                            IndexPart::Quad(1, 5, 2, 6),
                            IndexPart::Quad(2, 6, 3, 7),
                            IndexPart::Quad(4, 10, 5, 11),
                            IndexPart::Quad(5, 11, 8, 12),
                            IndexPart::Quad(8, 12, 9, 13),
                            IndexPart::Quad(6, 8, 7, 9),
                            IndexPart::Triangle(6, 5, 8),
                        ];
                        assert(idx_parts@ =~= bevel_ccw_parts());
                        let indices = expand_indices(&idx_parts, start_id);
                        SegmentTriangulation::Bevel { vertices, indices }
                    }
                    (true, JointStyle::Bevel) => {
                        let vertices = vec![
                            VertexData::new(self.lcs.u_aa.a.x, self.lcs.u_aa.a.y, transparent_color),
                            VertexData::new(self.lcs.u.a.x, self.lcs.u.a.y, color),
                            VertexData::new(self.lcs.l.a.x, self.lcs.l.a.y, color),
                            VertexData::new(self.lcs.l_aa.a.x, self.lcs.l_aa.a.y, transparent_color),
                            VertexData::new(self.lcs.u_aa.b.x, self.lcs.u_aa.b.y, transparent_color),
                            VertexData::new(self.lcs.u.b.x, self.lcs.u.b.y, color),
                            VertexData::new(self.rcs.u_aa.a.x, self.rcs.u_aa.a.y, transparent_color),
                            VertexData::new(self.rcs.u.a.x, self.rcs.u.a.y, color),
                            VertexData::new(lower.x, lower.y, color),
                            VertexData::new(lower_aa.x, lower_aa.y, transparent_color),
                            VertexData::new(self.rcs.u_aa.b.x, self.rcs.u_aa.b.y, transparent_color),
                            VertexData::new(self.rcs.u.b.x, self.rcs.u.b.y, color),
                            VertexData::new(self.rcs.l.b.x, self.rcs.l.b.y, color),
                            VertexData::new(self.rcs.l_aa.b.x, self.rcs.l_aa.b.y, transparent_color),
                        ];
                        let idx_parts: Vec<IndexPart> = vec![
                            IndexPart::Quad(0, 4, 1, 5),
                            IndexPart::Quad(1, 5, 2, 8),
                            IndexPart::Quad(2, 8, 3, 9),
                            IndexPart::Quad(6, 10, 7, 11),
                            IndexPart::Quad(7, 11, 8, 12),
                            IndexPart::Quad(8, 12, 9, 13),
                            IndexPart::Quad(4, 6, 5, 7),
                            IndexPart::Triangle(8, 5, 7),
                        ];
                        assert(idx_parts@ =~= bevel_cw_parts());
                        let indices = expand_indices(&idx_parts, start_id);
                        SegmentTriangulation::Bevel { vertices, indices }
                    }
                    (_, JointStyle::Miter) => {
                        let vertices = vec![
                            VertexData::new(self.lcs.u_aa.a.x, self.lcs.u_aa.a.y, transparent_color),
                            VertexData::new(self.lcs.u.a.x, self.lcs.u.a.y, color),
                            VertexData::new(self.lcs.l.a.x, self.lcs.l.a.y, color),
                            VertexData::new(self.lcs.l_aa.a.x, self.lcs.l_aa.a.y, transparent_color),
                            VertexData::new(upper_aa.x, upper_aa.y, transparent_color),
                            VertexData::new(upper.x, upper.y, color),
                            VertexData::new(lower.x, lower.y, color),
                            VertexData::new(lower_aa.x, lower_aa.y, transparent_color),
                            VertexData::new(self.rcs.u_aa.b.x, self.rcs.u_aa.b.y, transparent_color),
                            VertexData::new(self.rcs.u.b.x, self.rcs.u.b.y, color),
                            VertexData::new(self.rcs.l.b.x, self.rcs.l.b.y, color),
                            VertexData::new(self.rcs.l_aa.b.x, self.rcs.l_aa.b.y, transparent_color),
                        ];
                        let idx_parts: Vec<IndexPart> = vec![
                            IndexPart::Quad(0, 4, 1, 5),
                            IndexPart::Quad(1, 5, 2, 6),
                            IndexPart::Quad(2, 6, 3, 7),
                            IndexPart::Quad(4, 8, 5, 9),
                            IndexPart::Quad(5, 9, 6, 10),
                            IndexPart::Quad(6, 10, 7, 11),
                        ];
                        assert(idx_parts@ =~= miter_parts());
                        let indices = expand_indices(&idx_parts, start_id);
                        SegmentTriangulation::Miter { vertices, indices }
                    }
                }
            }
        }
    }
}

/// Scales a normalized-direction component `d` by `e` subunits.
fn scale_along(d: i64, e: i64) -> (r: i64)
    requires
        abs_s(d as int) <= SCALE,
        0 <= e <= 501_000,
    ensures
        r == crate::fixed::trunc_div_s(d as int * e, SCALE as int),
        abs_s(r as int) <= e,
{
    proof {
        crate::fixed::lemma_abs_mul(d as int, e as int);
        let ad = abs_s(d as int);
        assert(ad * e <= (SCALE as int) * e && 0 <= ad * e && (SCALE as int) * e
            <= 1_000_000_000) by (nonlinear_arith)
            requires
                0 <= ad <= SCALE as int,
                0 <= e <= 501_000,
                SCALE == 1000,
        ;
        assert((SCALE as int) * e == e * (SCALE as int)) by (nonlinear_arith);
        crate::fixed::lemma_trunc_div_bound(d as int * e, SCALE as int, e as int);
    }
    trunc_div((d as i128) * (e as i128), SCALE as i128) as i64
}

/// A strip-end cap: one offset bundle plus the stored half-thickness.
pub struct CapSegment(pub PolySegment, pub i64);

impl CapSegment {
    /// Builds the cap bundle over the segment from `a` to `b`; the cap closes
    /// off the `b` end.
    pub fn new(a: Vec2, b: Vec2, thickness: i64) -> (r: CapSegment)
        requires
            a != b,
            vec_in_range(a, CENTER_LIMIT as int),
            vec_in_range(b, CENTER_LIMIT as int),
            0 < thickness <= MAX_THICKNESS,
        ensures
            poly_built(r.0, LineSegment { a, b }, thickness as int),
            r.1 == half_thickness(thickness as int),
            cap_wf(r.0, r.1 as int),
    {
        let line_segment = LineSegment { a, b };
        let bundle = PolySegment::new(&line_segment, thickness);
        let ht: i64 = thickness / 2;
        proof {
            vstd::arithmetic::div_mod::lemma_div_pos_is_pos(thickness as int, 2);
            vstd::arithmetic::div_mod::lemma_div_is_ordered(thickness as int, 1_000_000, 2);
            vstd::arithmetic::div_mod::lemma_div_by_multiple(500_000, 2);
        }
        assert(0 <= ht <= 500_000);
        assert(cap_wf(bundle, ht as int));
        CapSegment(bundle, ht)
    }

    /// Triangulates the cap as a Straight layout. Butt keeps the core
    /// cross-section flush (only the fringe corners are pushed one unit out
    /// for the antialiasing gradient); Square extends the core by the
    /// half-thickness and the fringe one unit further.
    pub fn triangulate(&self, start_id: u16, color: Rgba, style: EndCapStyle) -> (r:
        SegmentTriangulation)
        requires
            cap_wf(self.0, self.1 as int),
            start_id <= 65522,
        ensures
            cap_matches(r, self.0, self.1 as int, start_id as int, color, style),
    {
        let transparent_color = Rgba { r: color.r, g: color.g, b: color.b, a: 0 };
        let dir_norm = self.0.c.direction(Direction::Normalized);
        let (e_core, e_fringe): (i64, i64) = match style {
            EndCapStyle::Butt => (0, SCALE),
            EndCapStyle::Square => (self.1, self.1 + SCALE),
        };
        let cx = scale_along(dir_norm.x, e_core);
        let cy = scale_along(dir_norm.y, e_core);
        let fx = scale_along(dir_norm.x, e_fringe);
        let fy = scale_along(dir_norm.y, e_fringe);
        let vertices = vec![
            VertexData::new(self.0.u_aa.a.x, self.0.u_aa.a.y, transparent_color),
            VertexData::new(self.0.u.a.x, self.0.u.a.y, color),
            VertexData::new(self.0.l.a.x, self.0.l.a.y, color),
            VertexData::new(self.0.l_aa.a.x, self.0.l_aa.a.y, transparent_color),
            VertexData::new(self.0.u_aa.b.x + fx, self.0.u_aa.b.y + fy, transparent_color),
            VertexData::new(self.0.u.b.x + cx, self.0.u.b.y + cy, color),
            VertexData::new(self.0.l.b.x + cx, self.0.l.b.y + cy, color),
            VertexData::new(self.0.l_aa.b.x + fx, self.0.l_aa.b.y + fy, transparent_color),
        ];
        let idx_parts: Vec<IndexPart> = vec![
            IndexPart::Quad(0, 4, 1, 5),
            IndexPart::Quad(1, 5, 2, 6),
            IndexPart::Quad(2, 6, 3, 7),
            IndexPart::Quad(0, 1, 2, 3),
            IndexPart::Quad(4, 5, 6, 7),
        ];
        assert(idx_parts@ =~= straight_parts());
        let indices = expand_indices(&idx_parts, start_id);
        SegmentTriangulation::Straight { vertices, indices }
    }
}

/// The cap unit for a strip of exactly two points: the one segment's bundle,
/// capped symmetrically at both ends.
pub struct DoubleCapSegment(pub PolySegment, pub i64);

impl DoubleCapSegment {
    pub fn new(a: Vec2, b: Vec2, thickness: i64) -> (r: DoubleCapSegment)
        requires
            a != b,
            vec_in_range(a, CENTER_LIMIT as int),
            vec_in_range(b, CENTER_LIMIT as int),
            0 < thickness <= MAX_THICKNESS,
        ensures
            poly_built(r.0, LineSegment { a, b }, thickness as int),
            r.1 == half_thickness(thickness as int),
            cap_wf(r.0, r.1 as int),
    {
        let line_segment = LineSegment { a, b };
        let bundle = PolySegment::new(&line_segment, thickness);
        let ht: i64 = thickness / 2;
        proof {
            vstd::arithmetic::div_mod::lemma_div_pos_is_pos(thickness as int, 2);
            vstd::arithmetic::div_mod::lemma_div_is_ordered(thickness as int, 1_000_000, 2);
            vstd::arithmetic::div_mod::lemma_div_by_multiple(500_000, 2);
        }
        assert(0 <= ht <= 500_000);
        assert(cap_wf(bundle, ht as int));
        DoubleCapSegment(bundle, ht)
    }

    /// Triangulates the two-ended cap: the Straight layout with the cap
    /// extension applied at both ends of the single segment.
    pub fn triangulate(&self, start_id: u16, color: Rgba, style: EndCapStyle) -> (r:
        SegmentTriangulation)
        requires
            cap_wf(self.0, self.1 as int),
            start_id <= 65522,
        ensures
            double_cap_matches(r, self.0, self.1 as int, start_id as int, color, style),
    {
        let transparent_color = Rgba { r: color.r, g: color.g, b: color.b, a: 0 };
        let dir_norm = self.0.c.direction(Direction::Normalized);
        let (e_core, e_fringe): (i64, i64) = match style {
            EndCapStyle::Butt => (0, SCALE),
            EndCapStyle::Square => (self.1, self.1 + SCALE),
        };
        let cx = scale_along(dir_norm.x, e_core);
        let cy = scale_along(dir_norm.y, e_core);
        let fx = scale_along(dir_norm.x, e_fringe);
        let fy = scale_along(dir_norm.y, e_fringe);
        let v0 = VertexData::new(self.0.u_aa.a.x - fx, self.0.u_aa.a.y - fy, transparent_color);
        let v1 = VertexData::new(self.0.u.a.x - cx, self.0.u.a.y - cy, color);
        let v2 = VertexData::new(self.0.l.a.x - cx, self.0.l.a.y - cy, color);
        let v3 = VertexData::new(self.0.l_aa.a.x - fx, self.0.l_aa.a.y - fy, transparent_color);
        let v4 = VertexData::new(self.0.u_aa.b.x + fx, self.0.u_aa.b.y + fy, transparent_color);
        let v5 = VertexData::new(self.0.u.b.x + cx, self.0.u.b.y + cy, color);
        let v6 = VertexData::new(self.0.l.b.x + cx, self.0.l.b.y + cy, color);
        let v7 = VertexData::new(self.0.l_aa.b.x + fx, self.0.l_aa.b.y + fy, transparent_color);
        let vertices = vec![v0, v1, v2, v3, v4, v5, v6, v7];
        let idx_parts: Vec<IndexPart> = vec![
            IndexPart::Quad(0, 4, 1, 5),
            IndexPart::Quad(1, 5, 2, 6),
            IndexPart::Quad(2, 6, 3, 7),
            IndexPart::Quad(0, 1, 2, 3),
            IndexPart::Quad(4, 5, 6, 7),
        ];
        assert(idx_parts@ =~= straight_parts());
        let indices = expand_indices(&idx_parts, start_id);
        SegmentTriangulation::Straight { vertices, indices }
    }
}

} // verus!
