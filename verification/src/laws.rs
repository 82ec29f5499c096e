//! Engine-wide laws, each proved once and for all inputs: the fixed fringe
//! width, the sharpness cutoff's counterpart lemmas, winding antisymmetry,
//! the two-point strip's indifference to joint style, the Miter corner's
//! agreement with the primitive intersection, and the near-parallel fallback.

use vstd::prelude::*;
use crate::draw_batcher::Submission;
use crate::fixed::{SCALE, abs_s};
use crate::line_segment::{
    LineSegment, poly_spec, normal_x, normal_y, unit_x, unit_y, unit_dot, det_s, inter_x, inter_y,
    rev_seg, lemma_unit_reverse, lemma_unit_bounds, lemma_core_off_bounds, seg_in_range,
    CENTER_LIMIT, MAX_THICKNESS, PARALLEL_EPS,
};
use crate::painter::{
    vsegs_spec, draw_lines_post, MAX_INPUT_COORD,
};
use crate::indices::{part_bounded, lemma_expand_parts_bounded};
use crate::parts::{
    SegmentTriangulation, VSegments, Rgba, tri_matches, joint_has_intersection, is_clockwise_s,
};
use crate::style::{JointStyle, EndCapStyle, LineStripStyle};
use crate::vec2::{Vec2, vec_in_range};

verus! {

/// For any thickness, the fringe edges of a bundle lie exactly one
/// normalized-normal — one world unit — further from the center line than
/// the core edges.
pub proof fn lemma_fringe_one_unit_beyond_core(c: LineSegment, t: int)
    requires
        seg_in_range(c, CENTER_LIMIT as int),
        0 <= t <= MAX_THICKNESS,
    ensures
        poly_spec(c, t).u_aa.a.x == poly_spec(c, t).u.a.x + normal_x(c),
        poly_spec(c, t).u_aa.a.y == poly_spec(c, t).u.a.y + normal_y(c),
        poly_spec(c, t).u_aa.b.x == poly_spec(c, t).u.b.x + normal_x(c),
        poly_spec(c, t).u_aa.b.y == poly_spec(c, t).u.b.y + normal_y(c),
        poly_spec(c, t).l_aa.a.x == poly_spec(c, t).l.a.x - normal_x(c),
        poly_spec(c, t).l_aa.a.y == poly_spec(c, t).l.a.y - normal_y(c),
        poly_spec(c, t).l_aa.b.x == poly_spec(c, t).l.b.x - normal_x(c),
        poly_spec(c, t).l_aa.b.y == poly_spec(c, t).l.b.y - normal_y(c),
{
    lemma_core_off_bounds(c, t);
    lemma_unit_bounds(c);
}

/// Winding classification is antisymmetric: walking a genuine corner in the
/// opposite overall order flips the clockwise verdict.
pub proof fn lemma_winding_antisymmetric(a: Vec2, b: Vec2, c: Vec2, t: int)
    requires
        crate::cross_spec(
            unit_x(LineSegment { a, b }),
            unit_y(LineSegment { a, b }),
            unit_x(LineSegment { a: b, b: c }),
            unit_y(LineSegment { a: b, b: c }),
        ) != 0,
    ensures
        is_clockwise_s(vsegs_spec(c, b, a, t)) == !is_clockwise_s(vsegs_spec(a, b, c, t)),
{
    let s1 = LineSegment { a, b };
    let s2 = LineSegment { a: b, b: c };
    lemma_unit_reverse(s1);
    lemma_unit_reverse(s2);
    assert(LineSegment { a: c, b } == rev_seg(s2));
    assert(LineSegment { a: b, b: a } == rev_seg(s1));
    let u1x = unit_x(s1);
    let u1y = unit_y(s1);
    let u2x = unit_x(s2);
    let u2y = unit_y(s2);
    let w = crate::cross_spec(-u1x, -u1y, u2x, u2y);
    let w_rev = crate::cross_spec(u2x, u2y, -u1x, -u1y);
    assert(w == -(u1x * u2y - u1y * u2x) && w_rev == (u1x * u2y - u1y * u2x)) by (nonlinear_arith)
        requires
            w == (-u1x) * u2y - (-u1y) * u2x,
            w_rev == u2x * (-u1y) - u2y * (-u1x),
    ;
    assert(is_clockwise_s(vsegs_spec(a, b, c, t)) == (w > 0));
    assert(is_clockwise_s(vsegs_spec(c, b, a, t)) == (w_rev > 0));
}

/// A two-point strip is rendered by the double-cap path alone: which joint
/// style or strip style was requested makes no difference to the outcome.
pub proof fn lemma_two_point_strip_ignores_joint_style(
    subs_old: Seq<Submission>,
    subs_new: Seq<Submission>,
    ps: Seq<Vec2>,
    js1: JointStyle,
    js2: JointStyle,
    ls1: LineStripStyle,
    ls2: LineStripStyle,
    cs: EndCapStyle,
    color: Rgba,
    t: int,
)
    requires
        ps.len() == 2,
        draw_lines_post(subs_old, subs_new, ps, js1, cs, ls1, color, t),
    ensures
        draw_lines_post(subs_old, subs_new, ps, js2, cs, ls2, color, t),
{
}

/// The Miter layout's shared corner vertices carry exactly the intersection
/// points that the primitive-layer intersection operation computes for the
/// four offset-edge pairs.
pub proof fn lemma_miter_corner_is_intersection(
    r: SegmentTriangulation,
    v: VSegments,
    base: int,
    color: Rgba,
)
    requires
        joint_has_intersection(v),
        tri_matches(r, v, base, color, JointStyle::Miter),
    ensures
        r is Miter,
        (match r {
            SegmentTriangulation::Miter { vertices, .. } => {
                &&& vertices@[4].pos_x == inter_x(v.lcs.u_aa, v.rcs.u_aa)
                &&& vertices@[4].pos_y == inter_y(v.lcs.u_aa, v.rcs.u_aa)
                &&& vertices@[5].pos_x == inter_x(v.lcs.u, v.rcs.u)
                &&& vertices@[5].pos_y == inter_y(v.lcs.u, v.rcs.u)
                &&& vertices@[6].pos_x == inter_x(v.lcs.l, v.rcs.l)
                &&& vertices@[6].pos_y == inter_y(v.lcs.l, v.rcs.l)
                &&& vertices@[7].pos_x == inter_x(v.lcs.l_aa, v.rcs.l_aa)
                &&& vertices@[7].pos_y == inter_y(v.lcs.l_aa, v.rcs.l_aa)
            },
            _ => false,
        }),
{
    match r {
        SegmentTriangulation::Straight { .. } => {
            assert(false);
        },
        SegmentTriangulation::Miter { .. } => {},
        SegmentTriangulation::Bevel { .. } => {
            assert(false);
        },
    }
}

/// Near-parallel adjacent half-segments route through the Straight fallback,
/// never Miter or Bevel: when the unit directions nearly coincide and the
/// determinant of the raw directions is below the parallel threshold, every
/// triangulation of the joint is the Straight layout, whatever the style.
pub proof fn lemma_near_parallel_joint_is_straight(
    a: Vec2,
    b: Vec2,
    c: Vec2,
    t: int,
    r: SegmentTriangulation,
    base: int,
    color: Rgba,
    style: JointStyle,
)
    requires
        vec_in_range(a, MAX_INPUT_COORD as int),
        vec_in_range(b, MAX_INPUT_COORD as int),
        vec_in_range(c, MAX_INPUT_COORD as int),
        0 < t <= MAX_THICKNESS,
        10_000 * unit_dot(LineSegment { a, b }, LineSegment { a: b, b: c }) > 9_999 * SCALE
            * SCALE,
        abs_s(det_s(LineSegment { a, b }, LineSegment { a: b, b: c })) < PARALLEL_EPS,
        tri_matches(r, vsegs_spec(a, b, c, t), base, color, style),
    ensures
        r is Straight,
{
    let s1 = LineSegment { a, b };
    let s2 = LineSegment { a: b, b: c };
    let v = vsegs_spec(a, b, c, t);
    lemma_core_off_bounds(s1, t);
    lemma_core_off_bounds(s2, t);
    lemma_unit_bounds(s1);
    lemma_unit_bounds(s2);
    assert(v.lcs.u.a.x - v.lcs.u.b.x == s1.a.x - s1.b.x);
    assert(v.lcs.u.a.y - v.lcs.u.b.y == s1.a.y - s1.b.y);
    assert(v.rcs.u.a.x - v.rcs.u.b.x == s2.a.x - s2.b.x);
    assert(v.rcs.u.a.y - v.rcs.u.b.y == s2.a.y - s2.b.y);
    assert(det_s(v.lcs.u, v.rcs.u) == det_s(s1, s2));
    assert(!joint_has_intersection(v));
    match r {
        SegmentTriangulation::Straight { .. } => {},
        SegmentTriangulation::Miter { .. } => {
            assert(false);
        },
        SegmentTriangulation::Bevel { .. } => {
            assert(false);
        },
    }
}

/// The descriptor table of each layout stays below its vertex count.
proof fn lemma_layout_tables_bounded()
    ensures
        forall|i: int|
            0 <= i < crate::parts::straight_parts().len() ==> #[trigger] part_bounded(
                crate::parts::straight_parts()[i],
                8,
            ),
        forall|i: int|
            0 <= i < crate::parts::miter_parts().len() ==> #[trigger] part_bounded(
                crate::parts::miter_parts()[i],
                12,
            ),
        forall|i: int|
            0 <= i < crate::parts::bevel_ccw_parts().len() ==> #[trigger] part_bounded(
                crate::parts::bevel_ccw_parts()[i],
                14,
            ),
        forall|i: int|
            0 <= i < crate::parts::bevel_cw_parts().len() ==> #[trigger] part_bounded(
                crate::parts::bevel_cw_parts()[i],
                14,
            ),
{
    assert forall|i: int| 0 <= i < crate::parts::straight_parts().len() implies #[trigger]
    part_bounded(crate::parts::straight_parts()[i], 8) by {
        let p = crate::parts::straight_parts();
        if i == 0 {
            assert(part_bounded(p[0], 8));
        } else if i == 1 {
            assert(part_bounded(p[1], 8));
        } else if i == 2 {
            assert(part_bounded(p[2], 8));
        } else if i == 3 {
            assert(part_bounded(p[3], 8));
        } else {
            assert(part_bounded(p[4], 8));
        }
    }
    assert forall|i: int| 0 <= i < crate::parts::miter_parts().len() implies #[trigger]
    part_bounded(crate::parts::miter_parts()[i], 12) by {
        let p = crate::parts::miter_parts();
        if i == 0 {
            assert(part_bounded(p[0], 12));
        } else if i == 1 {
            assert(part_bounded(p[1], 12));
        } else if i == 2 {
            assert(part_bounded(p[2], 12));
        } else if i == 3 {
            assert(part_bounded(p[3], 12));
        } else if i == 4 {
            assert(part_bounded(p[4], 12));
        } else {
            assert(part_bounded(p[5], 12));
        }
    }
    assert forall|i: int| 0 <= i < crate::parts::bevel_ccw_parts().len() implies #[trigger]
    part_bounded(crate::parts::bevel_ccw_parts()[i], 14) by {
        let p = crate::parts::bevel_ccw_parts();
        if i == 0 {
            assert(part_bounded(p[0], 14));
        } else if i == 1 {
            assert(part_bounded(p[1], 14));
        } else if i == 2 {
            assert(part_bounded(p[2], 14));
        } else if i == 3 {
            assert(part_bounded(p[3], 14));
        } else if i == 4 {
            assert(part_bounded(p[4], 14));
        } else if i == 5 {
            assert(part_bounded(p[5], 14));
        } else if i == 6 {
            assert(part_bounded(p[6], 14));
        } else {
            assert(part_bounded(p[7], 14));
        }
    }
    assert forall|i: int| 0 <= i < crate::parts::bevel_cw_parts().len() implies #[trigger]
    part_bounded(crate::parts::bevel_cw_parts()[i], 14) by {
        let p = crate::parts::bevel_cw_parts();
        if i == 0 {
            assert(part_bounded(p[0], 14));
        } else if i == 1 {
            assert(part_bounded(p[1], 14));
        } else if i == 2 {
            assert(part_bounded(p[2], 14));
        } else if i == 3 {
            assert(part_bounded(p[3], 14));
        } else if i == 4 {
            assert(part_bounded(p[4], 14));
        } else if i == 5 {
            assert(part_bounded(p[5], 14));
        } else if i == 6 {
            assert(part_bounded(p[6], 14));
        } else {
            assert(part_bounded(p[7], 14));
        }
    }
}

/// Every index a joint triangulation emits refers to one of its own
/// vertices: the mesh of each unit is self-contained above its base id.
pub proof fn lemma_joint_mesh_indices_valid(
    r: SegmentTriangulation,
    v: VSegments,
    base: int,
    color: Rgba,
    style: JointStyle,
)
    requires
        tri_matches(r, v, base, color, style),
    ensures
        forall|j: int|
            0 <= j < crate::parts::tri_indices(r).len() ==> base <= #[trigger] crate::parts::tri_indices(
                r,
            )[j] < base + crate::parts::tri_vertices(r).len(),
{
    lemma_layout_tables_bounded();
    match r {
        SegmentTriangulation::Straight { .. } => {
            lemma_expand_parts_bounded(crate::parts::straight_parts(), base, 8);
        },
        SegmentTriangulation::Miter { .. } => {
            lemma_expand_parts_bounded(crate::parts::miter_parts(), base, 12);
        },
        SegmentTriangulation::Bevel { .. } => {
            if is_clockwise_s(v) {
                lemma_expand_parts_bounded(crate::parts::bevel_cw_parts(), base, 14);
            } else {
                lemma_expand_parts_bounded(crate::parts::bevel_ccw_parts(), base, 14);
            }
        },
    }
}

} // verus!
