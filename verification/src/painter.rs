//! The orchestrator: walks an input point sequence, classifies the strip
//! topology, builds joint and cap units, triangulates each and drives the
//! batcher, submitting once per unit.

use vstd::prelude::*;
use crate::draw_batcher::{BufferedDrawBatcher, Submission};
use crate::fixed::{trunc_div_s, trunc_div};
use crate::line_segment::{
    LineSegment, poly_spec, lemma_poly_built_is_spec, half_thickness, MAX_THICKNESS,
};
use crate::parts::{
    VSegments, CapSegment, DoubleCapSegment, SegmentTriangulation, Rgba, VertexData, tri_matches,
    tri_vertices, tri_indices, joint_has_intersection, is_clockwise_s, too_sharp_s,
    straight_joint_content, miter_content, bevel_cw_content, bevel_ccw_content, cap_content,
    double_cap_content,
};
use crate::style::{JointStyle, EndCapStyle, LineStripStyle};
use crate::vec2::{Vec2, vec_in_range};

verus! {

/// Largest coordinate magnitude accepted for input points, in subunits.
pub const MAX_INPUT_COORD: i64 = 1_000_000_000;

/// Componentwise midpoint with truncated halving.
pub open spec fn mid_x(a: Vec2, b: Vec2) -> int {
    trunc_div_s(a.x + b.x, 2)
}

pub open spec fn mid_y(a: Vec2, b: Vec2) -> int {
    trunc_div_s(a.y + b.y, 2)
}

pub open spec fn mid_point(a: Vec2, b: Vec2) -> Vec2 {
    Vec2 { x: mid_x(a, b) as i64, y: mid_y(a, b) as i64 }
}

/// The midpoint coincides with neither endpoint: the resolution the engine
/// needs between two consecutive points, so that splitting a segment at its
/// midpoint leaves two nondegenerate halves.
pub open spec fn mid_distinct(a: Vec2, b: Vec2) -> bool {
    mid_point(a, b) != a && mid_point(a, b) != b
}

/// The joint unit over corner `b` with incoming half `a -> b` and outgoing
/// half `b -> c`.
pub open spec fn vsegs_spec(a: Vec2, b: Vec2, c: Vec2, t: int) -> VSegments {
    VSegments {
        lcs: poly_spec(LineSegment { a, b }, t),
        rcs: poly_spec(LineSegment { a: b, b: c }, t),
    }
}

/// Interior joint unit `i`: from the midpoint of points `i, i+1` through
/// point `i+1` to the midpoint of points `i+1, i+2`.
pub open spec fn joint_unit_at(ps: Seq<Vec2>, i: int, t: int) -> VSegments {
    vsegs_spec(mid_point(ps[i], ps[i + 1]), ps[i + 1], mid_point(ps[i + 1], ps[i + 2]), t)
}

/// The wrap-around unit a closed strip gets at its first point.
pub open spec fn closed_front_unit(ps: Seq<Vec2>, t: int) -> VSegments {
    vsegs_spec(mid_point(ps[0], ps[1]), ps[0], mid_point(ps[0], ps[ps.len() - 1]), t)
}

/// The wrap-around unit a closed strip gets at its last point.
pub open spec fn closed_back_unit(ps: Seq<Vec2>, t: int) -> VSegments {
    vsegs_spec(
        mid_point(ps[ps.len() - 2], ps[ps.len() - 1]),
        ps[ps.len() - 1],
        mid_point(ps[0], ps[ps.len() - 1]),
        t,
    )
}

/// A requested Miter joint is downgraded to Bevel on a too-sharp turn.
pub open spec fn effective_style(style: JointStyle, v: VSegments) -> JointStyle {
    if style is Miter && too_sharp_s(v) {
        JointStyle::Bevel
    } else {
        style
    }
}

/// What one joint submission holds, with indices based at zero: the Straight
/// fallback when the offset edges found no intersection, else the layout the
/// style and winding select.
pub open spec fn joint_sub_content(
    vs: Seq<VertexData>,
    idxs: Seq<u16>,
    v: VSegments,
    color: Rgba,
    style: JointStyle,
) -> bool {
    if !joint_has_intersection(v) {
        straight_joint_content(vs, idxs, v, 0, color)
    } else if style is Miter {
        miter_content(vs, idxs, v, 0, color)
    } else if is_clockwise_s(v) {
        bevel_cw_content(vs, idxs, v, 0, color)
    } else {
        bevel_ccw_content(vs, idxs, v, 0, color)
    }
}

/// The submission renders joint unit `v` with the requested style, after the
/// sharpness downgrade.
pub open spec fn sub_is_joint(sub: Submission, v: VSegments, color: Rgba, style: JointStyle) -> bool {
    joint_sub_content(sub.vertices@, sub.indices@, v, color, effective_style(style, v))
}

/// The submission renders a cap over the bundle of center segment `cseg`.
pub open spec fn sub_is_cap(
    sub: Submission,
    cseg: LineSegment,
    t: int,
    color: Rgba,
    style: EndCapStyle,
) -> bool {
    cap_content(
        sub.vertices@,
        sub.indices@,
        poly_spec(cseg, t),
        half_thickness(t),
        0,
        color,
        style,
    )
}

/// The submission renders the two-ended cap of a two-point strip.
pub open spec fn sub_is_double_cap(
    sub: Submission,
    cseg: LineSegment,
    t: int,
    color: Rgba,
    style: EndCapStyle,
) -> bool {
    double_cap_content(
        sub.vertices@,
        sub.indices@,
        poly_spec(cseg, t),
        half_thickness(t),
        0,
        color,
        style,
    )
}

/// Every point within the accepted input range.
pub open spec fn points_in_range(ps: Seq<Vec2>) -> bool {
    forall|i: int| #![trigger ps[i]] 0 <= i < ps.len() ==> vec_in_range(ps[i], MAX_INPUT_COORD as int)
}

/// What `draw_lines` asks of its caller: bounded coordinates, a positive
/// bounded thickness, and consecutive points far enough apart that every
/// half-segment the engine builds is nondegenerate.
pub open spec fn draw_lines_req(ps: Seq<Vec2>, strip: LineStripStyle, t: int) -> bool {
    &&& points_in_range(ps)
    &&& 0 < t <= MAX_THICKNESS
    &&& ps.len() == 2 ==> ps[0] != ps[1]
    &&& ps.len() > 2 ==> forall|i: int|
        #![trigger ps[i]]
        0 <= i < ps.len() - 1 ==> mid_distinct(ps[i], ps[i + 1])
    &&& ps.len() > 2 && strip is Closed ==> mid_distinct(ps[0], ps[ps.len() - 1])
}

/// Full account of what one `draw_lines` call appends to the submission
/// record: nothing for fewer than two points; the double cap for exactly two;
/// otherwise two caps (open) or two wrap-around joints (closed) followed by
/// one joint per interior corner, in order.
pub open spec fn draw_lines_post(
    subs_old: Seq<Submission>,
    subs_new: Seq<Submission>,
    ps: Seq<Vec2>,
    js: JointStyle,
    cs: EndCapStyle,
    ls: LineStripStyle,
    color: Rgba,
    t: int,
) -> bool {
    let n = ps.len() as int;
    let k = subs_old.len() as int;
    if n < 2 {
        subs_new == subs_old
    } else if n == 2 {
        &&& subs_new.len() == k + 1
        &&& subs_new.take(k) == subs_old
        &&& sub_is_double_cap(subs_new[k], LineSegment { a: ps[0], b: ps[1] }, t, color, cs)
    } else {
        &&& subs_new.len() == k + n
        &&& subs_new.take(k) == subs_old
        &&& match ls {
            LineStripStyle::Closed => {
                &&& sub_is_joint(subs_new[k], closed_front_unit(ps, t), color, js)
                &&& sub_is_joint(subs_new[k + 1], closed_back_unit(ps, t), color, js)
            },
            LineStripStyle::Open => {
                &&& sub_is_cap(
                    subs_new[k],
                    LineSegment { a: mid_point(ps[0], ps[1]), b: ps[0] },
                    t,
                    color,
                    cs,
                )
                &&& sub_is_cap(
                    subs_new[k + 1],
                    LineSegment { a: mid_point(ps[n - 1], ps[n - 2]), b: ps[n - 1] },
                    t,
                    color,
                    cs,
                )
            },
        }
        &&& forall|i: int|
            #![trigger joint_unit_at(ps, i, t)]
            0 <= i < n - 2 ==> sub_is_joint(subs_new[k + 2 + i], joint_unit_at(ps, i, t), color, js)
    }
}

/// Samples per quadratic segment: the blend is evaluated at
/// `BEZIER_SUBDIVS + 1` points.
pub const BEZIER_SUBDIVS: usize = 15;

/// One coordinate of the quadratic blend at parameter `ix / nsub`: the
/// de-Casteljau step done in integers, divided once at the end.
pub open spec fn bezier_coord(p0: int, p1: int, ctrl: int, ix: int, nsub: int) -> int {
    let u = nsub - ix;
    trunc_div_s((p0 * u + ctrl * ix) * u + (p1 * ix + ctrl * u) * ix, nsub * nsub)
}

/// The quadratic blend from `a` to `b` with control point `ctrl` at
/// parameter `ix / nsub`.
pub open spec fn bezier_point(a: Vec2, b: Vec2, ctrl: Vec2, ix: int, nsub: int) -> Vec2 {
    Vec2 {
        x: bezier_coord(a.x as int, b.x as int, ctrl.x as int, ix, nsub) as i64,
        y: bezier_coord(a.y as int, b.y as int, ctrl.y as int, ix, nsub) as i64,
    }
}

/// All `nsub + 1` samples of one quadratic segment, in order.
pub open spec fn bezier_points(a: Vec2, b: Vec2, ctrl: Vec2, nsub: int) -> Seq<Vec2> {
    Seq::new((nsub + 1) as nat, |ix: int| bezier_point(a, b, ctrl, ix, nsub))
}

/// How many (anchor, control, anchor) triples a strip of `len` points holds,
/// consecutive triples sharing their anchor.
pub open spec fn bezier_seg_count(len: int) -> int {
    if len < 3 {
        0
    } else {
        (len - 1) / 2
    }
}

/// The separation precondition of `draw_lines`, for the samples of strip
/// segment `s`.
pub open spec fn bezier_seg_ok(ps: Seq<Vec2>, s: int, t: int) -> bool {
    draw_lines_req(
        bezier_points(ps[2 * s], ps[2 * s + 2], ps[2 * s + 1], BEZIER_SUBDIVS as int),
        LineStripStyle::Open,
        t,
    )
}

/// Strip segment `s` appended exactly the submissions of one `draw_lines`
/// call over its samples, between prefix lengths `k + 16s` and `k + 16(s+1)`.
pub open spec fn bezier_seg_post(
    subs: Seq<Submission>,
    k: int,
    ps: Seq<Vec2>,
    s: int,
    color: Rgba,
    t: int,
) -> bool {
    draw_lines_post(
        subs.take(k + 16 * s),
        subs.take(k + 16 * (s + 1)),
        bezier_points(ps[2 * s], ps[2 * s + 2], ps[2 * s + 1], BEZIER_SUBDIVS as int),
        JointStyle::Bevel,
        EndCapStyle::Square,
        LineStripStyle::Open,
        color,
        t,
    )
}

/// One coordinate of the quadratic blend, executable.
fn bezier_component(p0: i64, p1: i64, ctrl: i64, ix: i64, nsub: i64) -> (r: i64)
    requires
        -MAX_INPUT_COORD <= p0 <= MAX_INPUT_COORD,
        -MAX_INPUT_COORD <= p1 <= MAX_INPUT_COORD,
        -MAX_INPUT_COORD <= ctrl <= MAX_INPUT_COORD,
        0 <= ix <= nsub,
        1 <= nsub <= 1000,
    ensures
        r == bezier_coord(p0 as int, p1 as int, ctrl as int, ix as int, nsub as int),
        -MAX_INPUT_COORD <= r <= MAX_INPUT_COORD,
{
    let u: i128 = (nsub as i128) - (ix as i128);
    proof {
        assert(-1_000_000_000_000 <= (p0 as int) * (u as int) <= 1_000_000_000_000
            && -1_000_000_000_000 <= (ctrl as int) * (ix as int) <= 1_000_000_000_000
            && -1_000_000_000_000 <= (p1 as int) * (ix as int) <= 1_000_000_000_000
            && -1_000_000_000_000 <= (ctrl as int) * (u as int) <= 1_000_000_000_000) by (
        nonlinear_arith)
            requires
                -1_000_000_000 <= p0 <= 1_000_000_000,
                -1_000_000_000 <= p1 <= 1_000_000_000,
                -1_000_000_000 <= ctrl <= 1_000_000_000,
                0 <= ix <= 1000,
                0 <= u <= 1000,
        ;
    }
    let xx1: i128 = (p0 as i128) * u + (ctrl as i128) * (ix as i128);
    let xx2: i128 = (p1 as i128) * (ix as i128) + (ctrl as i128) * u;
    proof {
        assert(-2_000_000_000_000_000 <= (xx1 as int) * (u as int) <= 2_000_000_000_000_000
            && -2_000_000_000_000_000 <= (xx2 as int) * (ix as int)
            <= 2_000_000_000_000_000) by (nonlinear_arith)
            requires
                -2_000_000_000_000 <= xx1 <= 2_000_000_000_000,
                -2_000_000_000_000 <= xx2 <= 2_000_000_000_000,
                0 <= ix <= 1000,
                0 <= u <= 1000,
        ;
        assert(0 < (nsub as int) * (nsub as int) <= 1_000_000) by (nonlinear_arith)
            requires
                1 <= nsub <= 1000,
        ;
    }
    let num: i128 = xx1 * u + xx2 * (ix as i128);
    let den: i128 = (nsub as i128) * (nsub as i128);
    proof {
        let m = MAX_INPUT_COORD as int;
        let ui = u as int;
        let xi = ix as int;
        let ni = nsub as int;
        assert(-(ni * ni * m) <= num && num <= ni * ni * m) by (nonlinear_arith)
            requires
                num == ((p0 as int) * ui + (ctrl as int) * xi) * ui + ((p1 as int) * xi + (
                ctrl as int) * ui) * xi,
                -m <= p0 <= m,
                -m <= p1 <= m,
                -m <= ctrl <= m,
                0 <= xi,
                0 <= ui,
                xi + ui == ni,
                1 <= ni <= 1000,
                m == 1_000_000_000,
        ;
        assert(crate::fixed::abs_s(num as int) <= crate::fixed::abs_s(den as int) * m) by {
            assert((den as int) * m == ni * ni * m) by (nonlinear_arith)
                requires
                    den == ni * ni,
            ;
        }
        crate::fixed::lemma_trunc_div_bound(num as int, den as int, m);
    }
    trunc_div(num, den) as i64
}

/// The quadratic blend sample, executable.
fn bezier_at(a: Vec2, b: Vec2, ctrl: Vec2, ix: i64, nsub: i64) -> (r: Vec2)
    requires
        vec_in_range(a, MAX_INPUT_COORD as int),
        vec_in_range(b, MAX_INPUT_COORD as int),
        vec_in_range(ctrl, MAX_INPUT_COORD as int),
        0 <= ix <= nsub,
        1 <= nsub <= 1000,
    ensures
        r == bezier_point(a, b, ctrl, ix as int, nsub as int),
        vec_in_range(r, MAX_INPUT_COORD as int),
{
    Vec2 {
        x: bezier_component(a.x, b.x, ctrl.x, ix, nsub),
        y: bezier_component(a.y, b.y, ctrl.y, ix, nsub),
    }
}

/// Angle of circle subdivision `i` of `n`, in millidegrees.
pub open spec fn circle_angle(i: int, n: int) -> int {
    trunc_div_s(i * crate::fixed::FULL_TURN_MDEG, n)
}

/// Point on the circle of `radius` around `center` at subdivision `i` of `n`.
pub open spec fn circle_point(center: Vec2, radius: int, i: int, n: int) -> Vec2 {
    Vec2 {
        x: (center.x + trunc_div_s(
            crate::fixed::cos_mdeg_s(circle_angle(i, n)) * radius,
            crate::fixed::SCALE as int,
        )) as i64,
        y: (center.y + trunc_div_s(
            crate::fixed::sin_mdeg_s(circle_angle(i, n)) * radius,
            crate::fixed::SCALE as int,
        )) as i64,
    }
}

/// Vertices one circle subdivision contributes: the shared center vertex
/// first (subdivision 0 only), then the full-alpha rim vertex at `radius` and
/// the transparent fringe vertex one unit further out.
pub open spec fn circle_step_verts(
    center: Vec2,
    radius: int,
    color: Rgba,
    n: int,
    i: int,
) -> Seq<VertexData> {
    let rim = circle_point(center, radius, i, n);
    let fringe = circle_point(center, radius + crate::fixed::SCALE, i, n);
    let rim_v = VertexData { pos_x: rim.x, pos_y: rim.y, color };
    let fringe_v = VertexData {
        pos_x: fringe.x,
        pos_y: fringe.y,
        color: crate::parts::transparent_s(color),
    };
    if i == 0 {
        seq![VertexData { pos_x: center.x, pos_y: center.y, color }, rim_v, fringe_v]
    } else {
        seq![rim_v, fringe_v]
    }
}

/// The first `steps` subdivisions' vertices, concatenated.
pub open spec fn circle_verts(
    center: Vec2,
    radius: int,
    color: Rgba,
    n: int,
    steps: int,
) -> Seq<VertexData>
    decreases steps,
{
    if steps <= 0 {
        Seq::empty()
    } else {
        circle_verts(center, radius, color, n, steps - 1) + circle_step_verts(
            center,
            radius,
            color,
            n,
            steps - 1,
        )
    }
}

/// Indices one circle subdivision contributes: one inward triangle to the
/// center and one fringe quad to the next subdivision (wrapping at the end).
pub open spec fn circle_step_idxs(n: int, i: int) -> Seq<u16> {
    let left_1 = 2 * i + 1;
    let left_2 = 2 * i + 2;
    let right_2: int = if i < n - 1 {
        2 * i + 4
    } else {
        2
    };
    let right_1 = right_2 - 1;
    seq![
        0u16,
        left_1 as u16,
        right_1 as u16,
        left_1 as u16,
        left_2 as u16,
        right_2 as u16,
        left_1 as u16,
        right_2 as u16,
        right_1 as u16,
    ]
}

/// The first `steps` subdivisions' indices, concatenated.
pub open spec fn circle_idxs(n: int, steps: int) -> Seq<u16>
    decreases steps,
{
    if steps <= 0 {
        Seq::empty()
    } else {
        circle_idxs(n, steps - 1) + circle_step_idxs(n, steps - 1)
    }
}

/// A circle mesh over `steps >= 1` subdivisions has `2 * steps + 1` vertices
/// and `9 * steps` indices.
pub proof fn lemma_circle_mesh_len(center: Vec2, radius: int, color: Rgba, n: int, steps: int)
    requires
        steps >= 0,
    ensures
        circle_verts(center, radius, color, n, steps).len() == if steps == 0 {
            0int
        } else {
            2 * steps + 1
        },
        circle_idxs(n, steps).len() == 9 * steps,
    decreases steps,
{
    if steps > 0 {
        lemma_circle_mesh_len(center, radius, color, n, steps - 1);
    }
}

/// Offset of a circle point from the center: a cosine or sine scaled by the
/// radius.
fn radial_offset(c: i64, radius: i64) -> (r: i64)
    requires
        -crate::fixed::SCALE <= c <= crate::fixed::SCALE,
        0 <= radius <= 2_000_000_000,
    ensures
        r == trunc_div_s(c as int * radius, crate::fixed::SCALE as int),
        crate::fixed::abs_s(r as int) <= radius,
{
    proof {
        crate::fixed::lemma_abs_mul(c as int, radius as int);
        let ac = crate::fixed::abs_s(c as int);
        assert(ac * radius <= (crate::fixed::SCALE as int) * radius && (crate::fixed::SCALE as int)
            * radius == radius * (crate::fixed::SCALE as int)) by (nonlinear_arith)
            requires
                0 <= ac <= crate::fixed::SCALE as int,
                0 <= radius,
        ;
        crate::fixed::lemma_trunc_div_bound(
            c as int * radius,
            crate::fixed::SCALE as int,
            radius as int,
        );
    }
    trunc_div((c as i128) * (radius as i128), crate::fixed::SCALE as i128) as i64
}

/// Componentwise midpoint with truncated halving.
fn mid_of(a: Vec2, b: Vec2) -> (r: Vec2)
    requires
        vec_in_range(a, MAX_INPUT_COORD as int),
        vec_in_range(b, MAX_INPUT_COORD as int),
    ensures
        r == mid_point(a, b),
        vec_in_range(r, MAX_INPUT_COORD as int),
{
    proof {
        crate::fixed::lemma_trunc_div_bound(a.x + b.x, 2, MAX_INPUT_COORD as int);
        crate::fixed::lemma_trunc_div_bound(a.y + b.y, 2, MAX_INPUT_COORD as int);
    }
    let x: i64 = trunc_div((a.x as i128) + (b.x as i128), 2) as i64;
    let y: i64 = trunc_div((a.y as i128) + (b.y as i128), 2) as i64;
    Vec2 { x, y }
}

/// A sequence extended on the right keeps all its prefixes.
proof fn lemma_take_prefix_eq(s_new: Seq<Submission>, s_old: Seq<Submission>)
    requires
        s_old.len() <= s_new.len(),
        s_new.take(s_old.len() as int) == s_old,
    ensures
        forall|j: int| #![trigger s_new.take(j)] 0 <= j <= s_old.len() ==> s_new.take(j)
            == s_old.take(j),
{
    assert forall|j: int| 0 <= j <= s_old.len() implies #[trigger] s_new.take(j) == s_old.take(
        j,
    ) by {
        assert(forall|i: int|
            0 <= i < s_old.len() ==> #[trigger] s_old[i] == s_new.take(s_old.len() as int)[i]);
        assert(s_new.take(j) =~= s_old.take(j));
    }
}

/// Carries `tri_matches` over to the painter-level content predicate.
proof fn lemma_tri_to_content(
    r: SegmentTriangulation,
    v: VSegments,
    color: Rgba,
    style: JointStyle,
)
    requires
        tri_matches(r, v, 0, color, style),
    ensures
        joint_sub_content(tri_vertices(r), tri_indices(r), v, color, style),
{
    match r {
        SegmentTriangulation::Straight { .. } => {},
        SegmentTriangulation::Miter { .. } => {},
        SegmentTriangulation::Bevel { .. } => {},
    }
}

/// The stroke engine: owns the batcher and two reusable scratch point
/// buffers, cleared and refilled on every call to avoid reallocation.
pub struct Painter {
    pub bezier_strip_buffer: Vec<Vec2>,
    pub line_strip_buffer: Vec<Vec2>,
    pub draw_batcher: BufferedDrawBatcher,
}

impl Painter {
    pub fn new() -> (r: Painter)
        ensures
            r.bezier_strip_buffer@.len() == 0,
            r.line_strip_buffer@.len() == 0,
            r.draw_batcher.vertex_buffer@.len() == 0,
            r.draw_batcher.index_buffer@.len() == 0,
            r.draw_batcher.submissions@.len() == 0,
    {
        Painter {
            bezier_strip_buffer: Vec::new(),
            line_strip_buffer: Vec::new(),
            draw_batcher: BufferedDrawBatcher::new(),
        }
    }

    /// Evaluates one quadratic segment and strokes the sampled polyline with
    /// Bevel joints, Square caps and an open strip.
    fn draw_square_bezier(
        &mut self,
        a: Vec2,
        b: Vec2,
        control: Vec2,
        color: Rgba,
        thickness: i64,
        num_subdivs: usize,
    )
        requires
            vec_in_range(a, MAX_INPUT_COORD as int),
            vec_in_range(b, MAX_INPUT_COORD as int),
            vec_in_range(control, MAX_INPUT_COORD as int),
            1 <= num_subdivs <= 1000,
            draw_lines_req(
                bezier_points(a, b, control, num_subdivs as int),
                LineStripStyle::Open,
                thickness as int,
            ),
        ensures
            final(self).bezier_strip_buffer == old(self).bezier_strip_buffer,
            final(self).draw_batcher.vertex_buffer@.len() == 0,
            final(self).draw_batcher.index_buffer@.len() == 0,
            draw_lines_post(
                old(self).draw_batcher.submissions@,
                final(self).draw_batcher.submissions@,
                bezier_points(a, b, control, num_subdivs as int),
                JointStyle::Bevel,
                EndCapStyle::Square,
                LineStripStyle::Open,
                color,
                thickness as int,
            ),
    {
        let mut pts: Vec<Vec2> = Vec::new();
        let mut ix: usize = 0;
        while ix < num_subdivs + 1
            invariant
                0 <= ix <= num_subdivs + 1,
                1 <= num_subdivs <= 1000,
                vec_in_range(a, MAX_INPUT_COORD as int),
                vec_in_range(b, MAX_INPUT_COORD as int),
                vec_in_range(control, MAX_INPUT_COORD as int),
                pts@.len() == ix,
                forall|q: int|
                    #![trigger pts@[q]]
                    0 <= q < ix ==> pts@[q] == bezier_point(
                        a,
                        b,
                        control,
                        q,
                        num_subdivs as int,
                    ),
            decreases num_subdivs + 1 - ix,
        {
            pts.push(bezier_at(a, b, control, ix as i64, num_subdivs as i64));
            ix = ix + 1;
        }
        assert(pts@ =~= bezier_points(a, b, control, num_subdivs as int));
        self.draw_lines_ex(
            JointStyle::Bevel,
            EndCapStyle::Square,
            LineStripStyle::Open,
            color,
            thickness,
            pts,
        );
    }

    /// Strokes a strip of quadratic segments given as consecutive
    /// (anchor, control, anchor) triples sharing their anchors, sampling each
    /// at 16 points.
    #[verifier::rlimit(100)]
    pub fn draw_square_bezier_strip_ex(&mut self, color: Rgba, thickness: i64, points: Vec<Vec2>)
        requires
            points_in_range(points@),
            0 < thickness <= MAX_THICKNESS,
            forall|s: int|
                0 <= s < bezier_seg_count(points@.len() as int) ==> #[trigger] bezier_seg_ok(
                    points@,
                    s,
                    thickness as int,
                ),
        ensures
            final(self).bezier_strip_buffer@ == points@,
            final(self).draw_batcher.submissions@.len() == old(
                self,
            ).draw_batcher.submissions@.len() + 16 * bezier_seg_count(points@.len() as int),
            final(self).draw_batcher.submissions@.take(
                old(self).draw_batcher.submissions@.len() as int,
            ) == old(self).draw_batcher.submissions@,
            forall|s: int|
                0 <= s < bezier_seg_count(points@.len() as int) ==> #[trigger] bezier_seg_post(
                    final(self).draw_batcher.submissions@,
                    old(self).draw_batcher.submissions@.len() as int,
                    points@,
                    s,
                    color,
                    thickness as int,
                ),
    {
        let ghost subs0 = self.draw_batcher.submissions@;
        let ghost ps = points@;
        let ghost t = thickness as int;
        let ghost k = subs0.len() as int;
        let ghost count = bezier_seg_count(ps.len() as int);
        self.bezier_strip_buffer.clear();
        let mut i: usize = 0;
        while i < points.len()
            invariant
                self.bezier_strip_buffer@ == points@.take(i as int),
                0 <= i <= points@.len(),
                self.draw_batcher == old(self).draw_batcher,
            decreases points@.len() - i,
        {
            self.bezier_strip_buffer.push(points[i]);
            i = i + 1;
            assert(points@.take(i as int) =~= points@.take(i as int - 1).push(
                points@[i as int - 1],
            ));
        }
        assert(points@.take(points@.len() as int) =~= points@);

        let mut offset: usize = 0;
        let ghost mut done: int = 0;
        proof {
            assert(self.draw_batcher.submissions@.take(k) =~= subs0);
        }
        while self.bezier_strip_buffer.len() > 2 && offset < self.bezier_strip_buffer.len() - 2
            invariant
                ps == points@,
                t == thickness as int,
                k == subs0.len() as int,
                count == bezier_seg_count(ps.len() as int),
                points_in_range(ps),
                0 < thickness <= MAX_THICKNESS,
                forall|s: int| 0 <= s < count ==> #[trigger] bezier_seg_ok(ps, s, t),
                self.bezier_strip_buffer@ == ps,
                0 <= done,
                offset == 2 * done,
                done <= count,
                offset <= ps.len(),
                offset + 2 < ps.len() ==> done < count,
                self.draw_batcher.submissions@.len() == k + 16 * done,
                self.draw_batcher.submissions@.take(k) == subs0,
                forall|q: int|
                    0 <= q < done ==> #[trigger] bezier_seg_post(
                        self.draw_batcher.submissions@,
                        k,
                        ps,
                        q,
                        color,
                        t,
                    ),
            decreases ps.len() - offset,
        {
            let ghost subs_before = self.draw_batcher.submissions@;
            proof {
                assert(bezier_seg_ok(ps, done, t));
                assert(vec_in_range(ps[2 * done], MAX_INPUT_COORD as int));
                assert(vec_in_range(ps[2 * done + 1], MAX_INPUT_COORD as int));
                assert(vec_in_range(ps[2 * done + 2], MAX_INPUT_COORD as int));
            }
            let a = self.bezier_strip_buffer[offset];
            let control = self.bezier_strip_buffer[offset + 1];
            let b = self.bezier_strip_buffer[offset + 2];

            self.draw_square_bezier(a, b, control, color, thickness, BEZIER_SUBDIVS);

            offset = offset + 2;
            proof {
                done = done + 1;
                let subs_now = self.draw_batcher.submissions@;
                assert(subs_now.take(subs_before.len() as int) == subs_before);
                assert(subs_now.len() == subs_before.len() + 16);
                lemma_take_prefix_eq(subs_now, subs_before);
                assert(subs_now.take(k) == subs_before.take(k));
                assert(subs_before.take(k) =~= subs0);
                assert(subs_now.take(k + 16 * (done - 1)) =~= subs_before);
                assert(subs_now.take(k + 16 * done) =~= subs_now);
                assert(bezier_seg_post(subs_now, k, ps, done - 1, color, t));
                assert forall|q: int| 0 <= q < done implies #[trigger] bezier_seg_post(
                    subs_now,
                    k,
                    ps,
                    q,
                    color,
                    t,
                ) by {
                    if q < done - 1 {
                        assert(bezier_seg_post(subs_before, k, ps, q, color, t));
                        assert(subs_now.take(k + 16 * q) == subs_before.take(k + 16 * q));
                        assert(subs_now.take(k + 16 * (q + 1)) == subs_before.take(
                            k + 16 * (q + 1),
                        ));
                    }
                }
            }
        }
        proof {
            assert(done == count) by {
                if ps.len() < 3 {
                    assert(count == 0);
                } else {
                    assert(offset + 2 >= ps.len());
                    assert(2 * done + 2 >= ps.len() as int);
                    assert(2 * done <= ps.len() as int - 1);
                    vstd::arithmetic::div_mod::lemma_div_by_multiple(done, 2);
                    vstd::arithmetic::div_mod::lemma_div_is_ordered(
                        2 * done,
                        ps.len() as int - 1,
                        2,
                    );
                    vstd::arithmetic::div_mod::lemma_div_is_ordered(
                        ps.len() as int - 2,
                        2 * done,
                        2,
                    );
                }
            }
        }
    }

    /// As `draw_square_bezier_strip_ex`, borrowing the points.
    pub fn draw_square_bezier_strip(&mut self, color: Rgba, thickness: i64, points: &Vec<Vec2>)
        requires
            points_in_range(points@),
            0 < thickness <= MAX_THICKNESS,
            forall|s: int|
                0 <= s < bezier_seg_count(points@.len() as int) ==> #[trigger] bezier_seg_ok(
                    points@,
                    s,
                    thickness as int,
                ),
        ensures
            final(self).bezier_strip_buffer@ == points@,
            final(self).draw_batcher.submissions@.len() == old(
                self,
            ).draw_batcher.submissions@.len() + 16 * bezier_seg_count(points@.len() as int),
            final(self).draw_batcher.submissions@.take(
                old(self).draw_batcher.submissions@.len() as int,
            ) == old(self).draw_batcher.submissions@,
            forall|s: int|
                0 <= s < bezier_seg_count(points@.len() as int) ==> #[trigger] bezier_seg_post(
                    final(self).draw_batcher.submissions@,
                    old(self).draw_batcher.submissions@.len() as int,
                    points@,
                    s,
                    color,
                    thickness as int,
                ),
    {
        let mut copy: Vec<Vec2> = Vec::new();
        let mut i: usize = 0;
        while i < points.len()
            invariant
                copy@ == points@.take(i as int),
                0 <= i <= points@.len(),
            decreases points@.len() - i,
        {
            copy.push(points[i]);
            i = i + 1;
            assert(points@.take(i as int) =~= points@.take(i as int - 1).push(
                points@[i as int - 1],
            ));
        }
        assert(points@.take(points@.len() as int) =~= points@);
        self.draw_square_bezier_strip_ex(color, thickness, copy);
    }

    /// Draws a filled antialiased circle as one submission: a triangle fan of
    /// full-alpha triangles to the rim plus a ring of fringe quads fading to
    /// zero alpha at one unit beyond the radius. Fewer than three
    /// subdivisions is a no-op.
    #[verifier::rlimit(60)]
    pub fn draw_circle(&mut self, center: Vec2, radius: i64, color: Rgba, num_subdivs: usize)
        requires
            vec_in_range(center, MAX_INPUT_COORD as int),
            0 < radius <= MAX_INPUT_COORD,
            num_subdivs <= 30000,
        ensures
            num_subdivs < 3 ==> *final(self) == *old(self),
            final(self).line_strip_buffer == old(self).line_strip_buffer,
            final(self).bezier_strip_buffer == old(self).bezier_strip_buffer,
            num_subdivs >= 3 ==> {
                &&& final(self).draw_batcher.vertex_buffer@.len() == 0
                &&& final(self).draw_batcher.index_buffer@.len() == 0
                &&& final(self).draw_batcher.submissions@.len() == old(
                    self,
                ).draw_batcher.submissions@.len() + 1
                &&& final(self).draw_batcher.submissions@.take(
                    old(self).draw_batcher.submissions@.len() as int,
                ) == old(self).draw_batcher.submissions@
                &&& final(self).draw_batcher.submissions@.last().vertices@ == circle_verts(
                    center,
                    radius as int,
                    color,
                    num_subdivs as int,
                    num_subdivs as int,
                )
                &&& final(self).draw_batcher.submissions@.last().indices@ == circle_idxs(
                    num_subdivs as int,
                    num_subdivs as int,
                )
            },
    {
        if num_subdivs < 3 {
            return ;
        }
        let ghost subs0 = self.draw_batcher.submissions@;
        self.draw_batcher.clear_buffers();
        let transparent_color = Rgba { r: color.r, g: color.g, b: color.b, a: 0 };
        let mut id: usize = 0;
        while id < num_subdivs
            invariant
                3 <= num_subdivs <= 30000,
                0 <= id <= num_subdivs,
                vec_in_range(center, MAX_INPUT_COORD as int),
                0 < radius <= MAX_INPUT_COORD,
                transparent_color == crate::parts::transparent_s(color),
                self.draw_batcher.vertex_buffer@ == circle_verts(
                    center,
                    radius as int,
                    color,
                    num_subdivs as int,
                    id as int,
                ),
                self.draw_batcher.index_buffer@ == circle_idxs(num_subdivs as int, id as int),
                self.draw_batcher.submissions@ == subs0,
                self.line_strip_buffer == old(self).line_strip_buffer,
                self.bezier_strip_buffer == old(self).bezier_strip_buffer,
            decreases num_subdivs - id,
        {
            proof {
                assert((id as int) * (crate::fixed::FULL_TURN_MDEG as int) >= 0 && (id as int) * (
                crate::fixed::FULL_TURN_MDEG as int) <= (num_subdivs as int) * (
                crate::fixed::FULL_TURN_MDEG as int - 1)) by (nonlinear_arith)
                    requires
                        0 <= id < num_subdivs <= 30000,
                        crate::fixed::FULL_TURN_MDEG == 360_000,
                ;
                crate::fixed::lemma_trunc_div_bound(
                    id as int * crate::fixed::FULL_TURN_MDEG,
                    num_subdivs as int,
                    crate::fixed::FULL_TURN_MDEG as int - 1,
                );
                vstd::arithmetic::div_mod::lemma_div_pos_is_pos(
                    id as int * crate::fixed::FULL_TURN_MDEG,
                    num_subdivs as int,
                );
            }
            let deg: i64 = trunc_div(
                (id as i128) * (crate::fixed::FULL_TURN_MDEG as i128),
                num_subdivs as i128,
            ) as i64;
            let cs = crate::fixed::cos_mdeg(deg);
            let sn = crate::fixed::sin_mdeg(deg);
            let rim = Vec2 {
                x: center.x + radial_offset(cs, radius),
                y: center.y + radial_offset(sn, radius),
            };
            let fringe = Vec2 {
                x: center.x + radial_offset(cs, radius + crate::fixed::SCALE),
                y: center.y + radial_offset(sn, radius + crate::fixed::SCALE),
            };
            let rim_v = VertexData { pos_x: rim.x, pos_y: rim.y, color };
            let fringe_v = VertexData { pos_x: fringe.x, pos_y: fringe.y, color: transparent_color };

            let left_2: u16 = ((id + 1) * 2) as u16;
            let left_1: u16 = left_2 - 1;
            let right_2: u16 = if id < num_subdivs - 1 {
                left_2 + 2
            } else {
                2
            };
            let right_1: u16 = right_2 - 1;

            let mut step_vs: Vec<VertexData> = Vec::new();
            if id == 0 {
                step_vs.push(VertexData { pos_x: center.x, pos_y: center.y, color });
            }
            step_vs.push(rim_v);
            step_vs.push(fringe_v);
            let step_is: Vec<u16> = vec![
                0,
                left_1,
                right_1,
                left_1,
                left_2,
                right_2,
                left_1,
                right_2,
                right_1,
            ];
            proof {
                assert(step_vs@ =~= circle_step_verts(
                    center,
                    radius as int,
                    color,
                    num_subdivs as int,
                    id as int,
                ));
                assert(step_is@ =~= circle_step_idxs(num_subdivs as int, id as int));
            }
            self.draw_batcher.extend(&step_vs, &step_is);
            id = id + 1;
            proof {
                assert(self.draw_batcher.vertex_buffer@ == circle_verts(
                    center,
                    radius as int,
                    color,
                    num_subdivs as int,
                    id as int,
                ));
                assert(self.draw_batcher.index_buffer@ == circle_idxs(
                    num_subdivs as int,
                    id as int,
                ));
            }
        }
        proof {
            lemma_circle_mesh_len(
                center,
                radius as int,
                color,
                num_subdivs as int,
                num_subdivs as int,
            );
        }
        self.draw_batcher.renderize();
        proof {
            assert(self.draw_batcher.submissions@.take(subs0.len() as int) =~= subs0);
        }
    }

    /// Triangulates the stroke over `points` and records one submission per
    /// unit. Fewer than two points is a no-op.
    pub fn draw_lines(
        &mut self,
        joint_style: JointStyle,
        end_cap_style: EndCapStyle,
        line_strip_style: LineStripStyle,
        color: Rgba,
        thickness: i64,
        points: &Vec<Vec2>,
    )
        requires
            draw_lines_req(points@, line_strip_style, thickness as int),
        ensures
            final(self).line_strip_buffer@ == points@,
            final(self).bezier_strip_buffer == old(self).bezier_strip_buffer,
            points@.len() < 2 ==> final(self).draw_batcher == old(self).draw_batcher,
            points@.len() >= 2 ==> final(self).draw_batcher.vertex_buffer@.len() == 0
                && final(self).draw_batcher.index_buffer@.len() == 0,
            draw_lines_post(
                old(self).draw_batcher.submissions@,
                final(self).draw_batcher.submissions@,
                points@,
                joint_style,
                end_cap_style,
                line_strip_style,
                color,
                thickness as int,
            ),
    {
        let mut copy: Vec<Vec2> = Vec::new();
        let mut i: usize = 0;
        while i < points.len()
            invariant
                copy@ == points@.take(i as int),
                0 <= i <= points@.len(),
            decreases points@.len() - i,
        {
            copy.push(points[i]);
            i = i + 1;
            assert(points@.take(i as int) =~= points@.take(i as int - 1).push(
                points@[i as int - 1],
            ));
        }
        assert(points@.take(points@.len() as int) =~= points@);
        let ghost subs_before = self.draw_batcher.submissions@;
        let ghost copied = copy@;
        self.draw_lines_ex(
            joint_style,
            end_cap_style,
            line_strip_style,
            color,
            thickness,
            copy,
        );
        proof {
            assert(copied == points@);
            assert(draw_lines_post(
                subs_before,
                self.draw_batcher.submissions@,
                copied,
                joint_style,
                end_cap_style,
                line_strip_style,
                color,
                thickness as int,
            ));
        }
    }

    /// As `draw_lines`, consuming the point vector.
    #[verifier::rlimit(100)]
    pub fn draw_lines_ex(
        &mut self,
        joint_style: JointStyle,
        end_cap_style: EndCapStyle,
        line_strip_style: LineStripStyle,
        color: Rgba,
        thickness: i64,
        points: Vec<Vec2>,
    )
        requires
            draw_lines_req(points@, line_strip_style, thickness as int),
        ensures
            final(self).line_strip_buffer@ == points@,
            final(self).bezier_strip_buffer == old(self).bezier_strip_buffer,
            points@.len() < 2 ==> final(self).draw_batcher == old(self).draw_batcher,
            points@.len() >= 2 ==> final(self).draw_batcher.vertex_buffer@.len() == 0
                && final(self).draw_batcher.index_buffer@.len() == 0,
            draw_lines_post(
                old(self).draw_batcher.submissions@,
                final(self).draw_batcher.submissions@,
                points@,
                joint_style,
                end_cap_style,
                line_strip_style,
                color,
                thickness as int,
            ),
    {
        let ghost subs0 = self.draw_batcher.submissions@;
        let ghost ps = points@;
        let ghost t = thickness as int;
        self.line_strip_buffer.clear();
        let mut i: usize = 0;
        while i < points.len()
            invariant
                self.line_strip_buffer@ == points@.take(i as int),
                0 <= i <= points@.len(),
                self.bezier_strip_buffer == old(self).bezier_strip_buffer,
                self.draw_batcher == old(self).draw_batcher,
            decreases points@.len() - i,
        {
            self.line_strip_buffer.push(points[i]);
            i = i + 1;
            assert(points@.take(i as int) =~= points@.take(i as int - 1).push(
                points@[i as int - 1],
            ));
        }
        assert(points@.take(points@.len() as int) =~= points@);

        let length = self.line_strip_buffer.len();
        if length <= 1 {
            assert(self.draw_batcher.submissions@ =~= subs0);
            return ;
        }
        self.draw_batcher.clear_buffers();

        if length == 2 {
            proof {
                assert(vec_in_range(ps[0], MAX_INPUT_COORD as int));
                assert(vec_in_range(ps[1], MAX_INPUT_COORD as int));
            }
            let seg = DoubleCapSegment::new(
                self.line_strip_buffer[0],
                self.line_strip_buffer[1],
                thickness,
            );
            proof {
                lemma_poly_built_is_spec(seg.0, LineSegment { a: ps[0], b: ps[1] }, t);
            }
            let tri = seg.triangulate(0, color, end_cap_style);
            tri.extend_draw_batcher(&mut self.draw_batcher);
            self.draw_batcher.renderize();
            proof {
                assert(self.draw_batcher.submissions@.take(subs0.len() as int) =~= subs0);
                let sub = self.draw_batcher.submissions@.last();
                assert(sub.vertices@ =~= tri_vertices(tri));
                assert(sub.indices@ =~= tri_indices(tri));
                assert(sub_is_double_cap(
                    sub,
                    LineSegment { a: ps[0], b: ps[1] },
                    t,
                    color,
                    end_cap_style,
                ));
            }
            return ;
        }

        match line_strip_style {
            LineStripStyle::Closed => {
                let last_id = length - 1;
                proof {
                    assert(vec_in_range(ps[0], MAX_INPUT_COORD as int));
                    assert(vec_in_range(ps[1], MAX_INPUT_COORD as int));
                    assert(vec_in_range(ps[ps.len() - 1], MAX_INPUT_COORD as int));
                    assert(mid_distinct(ps[0], ps[1]));
                }
                let a = mid_of(self.line_strip_buffer[0], self.line_strip_buffer[1]);
                let b = self.line_strip_buffer[0];
                let c = mid_of(self.line_strip_buffer[0], self.line_strip_buffer[last_id]);
                let v_segments = VSegments::new(a, b, c, thickness);
                proof {
                    lemma_poly_built_is_spec(v_segments.lcs, LineSegment { a, b }, t);
                    lemma_poly_built_is_spec(v_segments.rcs, LineSegment { a: b, b: c }, t);
                    assert(v_segments == closed_front_unit(ps, t));
                }
                let joint_style_front = match joint_style {
                    JointStyle::Miter => if v_segments.angle_is_too_sharp() {
                        JointStyle::Bevel
                    } else {
                        joint_style
                    },
                    _ => joint_style,
                };
                let tri = v_segments.triangulate(0, color, joint_style_front);
                proof {
                    lemma_tri_to_content(tri, v_segments, color, joint_style_front);
                }
                tri.extend_draw_batcher(&mut self.draw_batcher);
                self.draw_batcher.renderize();
                proof {
                    let sub = self.draw_batcher.submissions@.last();
                    assert(sub.vertices@ =~= tri_vertices(tri));
                    assert(sub.indices@ =~= tri_indices(tri));
                    assert(joint_style_front == effective_style(joint_style, v_segments));
                    assert(sub_is_joint(sub, closed_front_unit(ps, t), color, joint_style));
                }

                proof {
                    assert(vec_in_range(ps[ps.len() - 2], MAX_INPUT_COORD as int));
                    assert(mid_distinct(ps[ps.len() - 2], ps[ps.len() - 1]));
                }
                let a = mid_of(self.line_strip_buffer[last_id - 1], self.line_strip_buffer[last_id]);
                let b = self.line_strip_buffer[last_id];
                let c = mid_of(self.line_strip_buffer[0], self.line_strip_buffer[last_id]);
                let v_segments = VSegments::new(a, b, c, thickness);
                proof {
                    lemma_poly_built_is_spec(v_segments.lcs, LineSegment { a, b }, t);
                    lemma_poly_built_is_spec(v_segments.rcs, LineSegment { a: b, b: c }, t);
                    assert(v_segments == closed_back_unit(ps, t));
                }
                let joint_style_back = match joint_style {
                    JointStyle::Miter => if v_segments.angle_is_too_sharp() {
                        JointStyle::Bevel
                    } else {
                        joint_style
                    },
                    _ => joint_style,
                };
                let tri = v_segments.triangulate(0, color, joint_style_back);
                proof {
                    lemma_tri_to_content(tri, v_segments, color, joint_style_back);
                }
                tri.extend_draw_batcher(&mut self.draw_batcher);
                self.draw_batcher.renderize();
                proof {
                    let sub = self.draw_batcher.submissions@.last();
                    assert(sub.vertices@ =~= tri_vertices(tri));
                    assert(sub.indices@ =~= tri_indices(tri));
                    assert(joint_style_back == effective_style(joint_style, v_segments));
                    assert(sub_is_joint(sub, closed_back_unit(ps, t), color, joint_style));
                    assert(sub_is_joint(
                        self.draw_batcher.submissions@[subs0.len() as int],
                        closed_front_unit(ps, t),
                        color,
                        joint_style,
                    ));
                    assert(sub_is_joint(
                        self.draw_batcher.submissions@[subs0.len() as int + 1],
                        closed_back_unit(ps, t),
                        color,
                        joint_style,
                    ));
                }
            }
            LineStripStyle::Open => {
                proof {
                    assert(vec_in_range(ps[0], MAX_INPUT_COORD as int));
                    assert(vec_in_range(ps[1], MAX_INPUT_COORD as int));
                    assert(vec_in_range(ps[ps.len() - 1], MAX_INPUT_COORD as int));
                    assert(vec_in_range(ps[ps.len() - 2], MAX_INPUT_COORD as int));
                    assert(mid_distinct(ps[0], ps[1]));
                    assert(mid_distinct(ps[ps.len() - 2], ps[ps.len() - 1]));
                    assert(mid_point(ps[ps.len() - 1], ps[ps.len() - 2]) == mid_point(
                        ps[ps.len() - 2],
                        ps[ps.len() - 1],
                    ));
                }
                let cap_a_start = mid_of(self.line_strip_buffer[0], self.line_strip_buffer[1]);
                let cap_segment_start = CapSegment::new(
                    cap_a_start,
                    self.line_strip_buffer[0],
                    thickness,
                );
                let cap_a_end = mid_of(
                    self.line_strip_buffer[length - 1],
                    self.line_strip_buffer[length - 2],
                );
                let cap_segment_end = CapSegment::new(
                    cap_a_end,
                    self.line_strip_buffer[length - 1],
                    thickness,
                );
                proof {
                    lemma_poly_built_is_spec(
                        cap_segment_start.0,
                        LineSegment { a: mid_point(ps[0], ps[1]), b: ps[0] },
                        t,
                    );
                    lemma_poly_built_is_spec(
                        cap_segment_end.0,
                        LineSegment {
                            a: mid_point(ps[ps.len() - 1], ps[ps.len() - 2]),
                            b: ps[ps.len() - 1],
                        },
                        t,
                    );
                }
                let tri = cap_segment_start.triangulate(0, color, end_cap_style);
                tri.extend_draw_batcher(&mut self.draw_batcher);
                self.draw_batcher.renderize();
                proof {
                    let sub = self.draw_batcher.submissions@.last();
                    assert(sub.vertices@ =~= tri_vertices(tri));
                    assert(sub.indices@ =~= tri_indices(tri));
                    assert(sub_is_cap(
                        sub,
                        LineSegment { a: mid_point(ps[0], ps[1]), b: ps[0] },
                        t,
                        color,
                        end_cap_style,
                    ));
                }

                let tri = cap_segment_end.triangulate(0, color, end_cap_style);
                tri.extend_draw_batcher(&mut self.draw_batcher);
                self.draw_batcher.renderize();
                proof {
                    let sub = self.draw_batcher.submissions@.last();
                    assert(sub.vertices@ =~= tri_vertices(tri));
                    assert(sub.indices@ =~= tri_indices(tri));
                    assert(sub_is_cap(
                        sub,
                        LineSegment {
                            a: mid_point(ps[ps.len() - 1], ps[ps.len() - 2]),
                            b: ps[ps.len() - 1],
                        },
                        t,
                        color,
                        end_cap_style,
                    ));
                    assert(sub_is_cap(
                        self.draw_batcher.submissions@[subs0.len() as int],
                        LineSegment { a: mid_point(ps[0], ps[1]), b: ps[0] },
                        t,
                        color,
                        end_cap_style,
                    ));
                    assert(sub_is_cap(
                        self.draw_batcher.submissions@[subs0.len() as int + 1],
                        LineSegment {
                            a: mid_point(ps[ps.len() - 1], ps[ps.len() - 2]),
                            b: ps[ps.len() - 1],
                        },
                        t,
                        color,
                        end_cap_style,
                    ));
                }
            }
        }

        let ghost prefix = self.draw_batcher.submissions@;
        assert(prefix.len() == subs0.len() + 2);
        proof {
            assert(prefix[subs0.len() as int] == self.draw_batcher.submissions@[subs0.len() as int]);
            assert(prefix[subs0.len() as int + 1] == self.draw_batcher.submissions@[subs0.len() as int
                + 1]);
        }
        let mut j: usize = 0;
        while j < length - 2
            invariant
                3 <= length == points@.len(),
                0 <= j <= length - 2,
                draw_lines_req(points@, line_strip_style, t),
                t == thickness as int,
                ps == points@,
                self.line_strip_buffer@ == points@,
                self.bezier_strip_buffer == old(self).bezier_strip_buffer,
                self.draw_batcher.vertex_buffer@.len() == 0,
                self.draw_batcher.index_buffer@.len() == 0,
                self.draw_batcher.submissions@.len() == prefix.len() + j,
                self.draw_batcher.submissions@.take(prefix.len() as int) == prefix,
                forall|q: int|
                    #![trigger joint_unit_at(points@, q, t)]
                    0 <= q < j ==> sub_is_joint(
                        self.draw_batcher.submissions@[prefix.len() + q],
                        joint_unit_at(points@, q, t),
                        color,
                        joint_style,
                    ),
            decreases length - 2 - j,
        {
            proof {
                assert(vec_in_range(ps[j as int], MAX_INPUT_COORD as int));
                assert(vec_in_range(ps[j as int + 1], MAX_INPUT_COORD as int));
                assert(vec_in_range(ps[j as int + 2], MAX_INPUT_COORD as int));
                assert(mid_distinct(ps[j as int], ps[j as int + 1]));
                assert(mid_distinct(ps[j as int + 1], ps[j as int + 2]));
            }
            let a = mid_of(self.line_strip_buffer[j], self.line_strip_buffer[j + 1]);
            let b = self.line_strip_buffer[j + 1];
            let c = mid_of(self.line_strip_buffer[j + 1], self.line_strip_buffer[j + 2]);
            let v_segments = VSegments::new(a, b, c, thickness);
            proof {
                lemma_poly_built_is_spec(v_segments.lcs, LineSegment { a, b }, t);
                lemma_poly_built_is_spec(v_segments.rcs, LineSegment { a: b, b: c }, t);
                assert(v_segments == joint_unit_at(ps, j as int, t));
            }
            let joint_style_here = match joint_style {
                JointStyle::Miter => if v_segments.angle_is_too_sharp() {
                    JointStyle::Bevel
                } else {
                    joint_style
                },
                _ => joint_style,
            };
            let tri = v_segments.triangulate(0, color, joint_style_here);
            proof {
                lemma_tri_to_content(tri, v_segments, color, joint_style_here);
            }
            tri.extend_draw_batcher(&mut self.draw_batcher);
            self.draw_batcher.renderize();
            j = j + 1;
            proof {
                assert(self.draw_batcher.submissions@.take(prefix.len() as int) =~= prefix);
                let sub = self.draw_batcher.submissions@.last();
                assert(sub.vertices@ =~= tri_vertices(tri));
                assert(sub.indices@ =~= tri_indices(tri));
                assert(joint_style_here == effective_style(joint_style, v_segments));
                assert(sub_is_joint(sub, joint_unit_at(points@, j as int - 1, t), color, joint_style));
            }
        }
        self.draw_batcher.renderize();
        proof {
            let k0 = subs0.len() as int;
            let lp = prefix.len() as int;
            let subs_f = self.draw_batcher.submissions@;
            assert(subs_f.take(k0) =~= subs0);
            assert(subs_f.take(lp)[k0] == subs_f[k0]);
            assert(subs_f.take(lp)[k0 + 1] == subs_f[k0 + 1]);
            assert(subs_f[k0] == prefix[k0]);
            assert(subs_f[k0 + 1] == prefix[k0 + 1]);
        }
    }
}

} // verus!
