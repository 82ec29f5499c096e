use poly_line_2d::draw_batcher::{BufferedDrawBatcher, Submission};
use poly_line_2d::painter::Painter;
use poly_line_2d::parts::{Rgba, VertexData};
use poly_line_2d::style::{JointStyle, EndCapStyle, LineStripStyle};
use poly_line_2d::vec2::Vec2;

// Coordinates are in subunits: 1000 subunits make one world unit.

fn blue() -> Rgba {
    Rgba { r: 0, g: 0, b: 255, a: 255 }
}

fn draw(
    painter: &mut Painter,
    js: JointStyle,
    cs: EndCapStyle,
    ls: LineStripStyle,
    thickness: i64,
    pts: &[(i64, i64)],
) -> Vec<Submission> {
    let points: Vec<Vec2> = pts.iter().map(|&(x, y)| Vec2::new(x, y)).collect();
    painter.draw_lines(js, cs, ls, blue(), thickness, &points);
    painter.draw_batcher.take_submissions()
}

#[test]
fn no_points_submits_nothing() {
    let mut painter = Painter::new();
    let subs = draw(
        &mut painter,
        JointStyle::Miter,
        EndCapStyle::Butt,
        LineStripStyle::Open,
        2_000,
        &[],
    );
    assert!(subs.is_empty());
}

#[test]
fn one_point_submits_nothing() {
    let mut painter = Painter::new();
    let subs = draw(
        &mut painter,
        JointStyle::Miter,
        EndCapStyle::Butt,
        LineStripStyle::Open,
        2_000,
        &[(5_000, 5_000)],
    );
    assert!(subs.is_empty());
}

#[test]
fn two_points_use_the_double_cap_path() {
    let mut painter = Painter::new();
    let pts = [(0, 0), (10_000, 0)];
    let with_miter = draw(
        &mut painter,
        JointStyle::Miter,
        EndCapStyle::Square,
        LineStripStyle::Open,
        2_000,
        &pts,
    );
    let with_bevel = draw(
        &mut painter,
        JointStyle::Bevel,
        EndCapStyle::Square,
        LineStripStyle::Closed,
        2_000,
        &pts,
    );
    assert_eq!(with_miter.len(), 1);
    assert_eq!(with_bevel.len(), 1);
    assert_eq!(with_miter[0].vertices, with_bevel[0].vertices);
    assert_eq!(with_miter[0].indices, with_bevel[0].indices);
    // Square cap on a horizontal segment of thickness 2: core extended by the
    // half-thickness, fringe by the half-thickness plus one unit, both ends.
    let vs: &Vec<VertexData> = &with_miter[0].vertices;
    assert_eq!(vs.len(), 8);
    assert_eq!((vs[0].pos_x, vs[0].pos_y, vs[0].color.a), (-2_000, 2_000, 0));
    assert_eq!((vs[1].pos_x, vs[1].pos_y, vs[1].color.a), (-1_000, 1_000, 255));
    assert_eq!((vs[2].pos_x, vs[2].pos_y, vs[2].color.a), (-1_000, -1_000, 255));
    assert_eq!((vs[3].pos_x, vs[3].pos_y, vs[3].color.a), (-2_000, -2_000, 0));
    assert_eq!((vs[4].pos_x, vs[4].pos_y, vs[4].color.a), (12_000, 2_000, 0));
    assert_eq!((vs[5].pos_x, vs[5].pos_y, vs[5].color.a), (11_000, 1_000, 255));
    assert_eq!((vs[6].pos_x, vs[6].pos_y, vs[6].color.a), (11_000, -1_000, 255));
    assert_eq!((vs[7].pos_x, vs[7].pos_y, vs[7].color.a), (12_000, -2_000, 0));
}

#[test]
fn butt_caps_stay_flush_at_the_core() {
    let mut painter = Painter::new();
    let subs = draw(
        &mut painter,
        JointStyle::Miter,
        EndCapStyle::Butt,
        LineStripStyle::Open,
        2_000,
        &[(0, 0), (10_000, 0)],
    );
    let vs = &subs[0].vertices;
    // Core corners are not extended; only the fringe corners move one unit.
    assert_eq!((vs[1].pos_x, vs[1].pos_y), (0, 1_000));
    assert_eq!((vs[5].pos_x, vs[5].pos_y), (10_000, 1_000));
    assert_eq!((vs[0].pos_x, vs[0].pos_y), (-1_000, 2_000));
    assert_eq!((vs[4].pos_x, vs[4].pos_y), (11_000, 2_000));
}

#[test]
fn closed_triangle_gets_three_miter_joints() {
    let mut painter = Painter::new();
    let subs = draw(
        &mut painter,
        JointStyle::Miter,
        EndCapStyle::Butt,
        LineStripStyle::Closed,
        4_000,
        &[(0, 0), (100_000, 0), (0, 100_000)],
    );
    // Two wrap-around joints plus one interior joint, no caps.
    assert_eq!(subs.len(), 3);
    for sub in &subs {
        // Right-angle and 45-degree corners stay below the sharpness cutoff,
        // so every joint keeps the requested Miter layout.
        assert_eq!(sub.vertices.len(), 12);
        assert_eq!(sub.indices.len(), 36);
    }
}

#[test]
fn collinear_open_strip_degenerates_to_straight_joints() {
    let mut painter = Painter::new();
    let subs = draw(
        &mut painter,
        JointStyle::Miter,
        EndCapStyle::Butt,
        LineStripStyle::Open,
        4_000,
        &[(0, 0), (10_000, 0), (20_000, 0), (30_000, 0)],
    );
    // Two caps first, then the two interior joints.
    assert_eq!(subs.len(), 4);
    for sub in &subs {
        assert_eq!(sub.vertices.len(), 8);
        assert_eq!(sub.indices.len(), 30);
    }
}

#[test]
fn near_parallel_joint_routes_straight() {
    let mut painter = Painter::new();
    // Adjacent half-segments whose directions agree to better than 0.9999
    // and whose offset lines are within the parallel threshold: the joint
    // must fall back to the Straight layout, never Miter or Bevel.
    let subs = draw(
        &mut painter,
        JointStyle::Miter,
        EndCapStyle::Butt,
        LineStripStyle::Open,
        2_000,
        &[(0, 0), (100, 0), (200, 2)],
    );
    assert_eq!(subs.len(), 3);
    // The interior joint is the last submission.
    assert_eq!(subs[2].vertices.len(), 8);
    assert_eq!(subs[2].indices.len(), 30);
}

#[test]
fn sharp_turn_downgrades_miter_to_bevel() {
    let mut painter = Painter::new();
    // A hairpin: the middle joint turns by nearly 180 degrees.
    let subs = draw(
        &mut painter,
        JointStyle::Miter,
        EndCapStyle::Butt,
        LineStripStyle::Open,
        2_000,
        &[(0, 0), (100_000, 0), (0, 9_000)],
    );
    assert_eq!(subs.len(), 3);
    // The interior joint is the last submission: downgraded to Bevel.
    assert_eq!(subs[2].vertices.len(), 14);
    assert_eq!(subs[2].indices.len(), 45);
}

#[test]
fn circle_with_two_subdivisions_submits_nothing() {
    let mut painter = Painter::new();
    painter.draw_circle(Vec2::new(0, 0), 10_000, blue(), 2);
    assert!(painter.draw_batcher.take_submissions().is_empty());
}

#[test]
fn circle_mesh_counts_follow_the_subdivisions() {
    let mut painter = Painter::new();
    painter.draw_circle(Vec2::new(0, 0), 10_000, blue(), 7);
    let subs = painter.draw_batcher.take_submissions();
    assert_eq!(subs.len(), 1);
    // One shared center vertex plus a rim and a fringe vertex per
    // subdivision; one inward triangle and one fringe quad per subdivision.
    assert_eq!(subs[0].vertices.len(), 2 * 7 + 1);
    assert_eq!(subs[0].indices.len(), 9 * 7);
}

#[test]
fn circle_of_four_subdivisions_hits_the_axes() {
    let mut painter = Painter::new();
    painter.draw_circle(Vec2::new(0, 0), 10_000, blue(), 4);
    let subs = painter.draw_batcher.take_submissions();
    let vs = &subs[0].vertices;
    assert_eq!(vs.len(), 9);
    assert_eq!((vs[0].pos_x, vs[0].pos_y, vs[0].color.a), (0, 0, 255));
    assert_eq!((vs[1].pos_x, vs[1].pos_y, vs[1].color.a), (10_000, 0, 255));
    assert_eq!((vs[2].pos_x, vs[2].pos_y, vs[2].color.a), (11_000, 0, 0));
    assert_eq!((vs[3].pos_x, vs[3].pos_y), (0, 10_000));
    assert_eq!((vs[4].pos_x, vs[4].pos_y), (0, 11_000));
    assert_eq!((vs[5].pos_x, vs[5].pos_y), (-10_000, 0));
    assert_eq!((vs[7].pos_x, vs[7].pos_y), (0, -10_000));
    let expected: Vec<u16> = vec![
        0, 1, 3, 1, 2, 4, 1, 4, 3,
        0, 3, 5, 3, 4, 6, 3, 6, 5,
        0, 5, 7, 5, 6, 8, 5, 8, 7,
        0, 7, 1, 7, 8, 2, 7, 2, 1,
    ];
    assert_eq!(subs[0].indices, expected);
}

#[test]
fn bezier_strip_samples_sixteen_points_per_segment() {
    let mut painter = Painter::new();
    let pts = vec![Vec2::new(0, 0), Vec2::new(7_500, 15_000), Vec2::new(15_000, 0)];
    painter.draw_square_bezier_strip(blue(), 2_000, &pts);
    let subs = painter.draw_batcher.take_submissions();
    // One segment: an open strip of 16 points gives 2 caps + 14 joints.
    assert_eq!(subs.len(), 16);
    // The sampled strip is left in the painter's scratch buffer: it starts
    // at the first anchor, ends at the second, and follows the exact
    // integer blend in between.
    assert_eq!(painter.line_strip_buffer.len(), 16);
    assert_eq!(painter.line_strip_buffer[0], Vec2::new(0, 0));
    assert_eq!(painter.line_strip_buffer[15], Vec2::new(15_000, 0));
    assert_eq!(painter.line_strip_buffer[5], Vec2::new(5_000, 6_666));
}

#[test]
fn owned_point_variants_match_the_borrowing_ones() {
    let mut painter = Painter::new();
    let pts = vec![Vec2::new(0, 0), Vec2::new(10_000, 0), Vec2::new(10_000, 10_000)];
    painter.draw_lines(
        JointStyle::Miter,
        EndCapStyle::Butt,
        LineStripStyle::Open,
        blue(),
        2_000,
        &pts,
    );
    let borrowed = painter.draw_batcher.take_submissions();
    painter.draw_lines_ex(
        JointStyle::Miter,
        EndCapStyle::Butt,
        LineStripStyle::Open,
        blue(),
        2_000,
        pts,
    );
    let owned = painter.draw_batcher.take_submissions();
    assert_eq!(borrowed.len(), owned.len());
    for (b, o) in borrowed.iter().zip(owned.iter()) {
        assert_eq!(b.vertices, o.vertices);
        assert_eq!(b.indices, o.indices);
    }

    let strip = vec![Vec2::new(0, 0), Vec2::new(7_500, 15_000), Vec2::new(15_000, 0)];
    painter.draw_square_bezier_strip(blue(), 2_000, &strip);
    let borrowed = painter.draw_batcher.take_submissions();
    painter.draw_square_bezier_strip_ex(blue(), 2_000, strip);
    let owned = painter.draw_batcher.take_submissions();
    assert_eq!(borrowed.len(), owned.len());
    for (b, o) in borrowed.iter().zip(owned.iter()) {
        assert_eq!(b.vertices, o.vertices);
        assert_eq!(b.indices, o.indices);
    }
}

#[test]
fn batcher_threshold_and_renderize() {
    let mut batcher = BufferedDrawBatcher::new();
    assert!(!batcher.too_many_vertices_in_buffer());
    // An empty buffer submits nothing.
    batcher.renderize();
    assert!(batcher.take_submissions().is_empty());
    let vertex = VertexData::new(1, 2, blue());
    let vertices: Vec<VertexData> = vec![vertex; 500];
    let indices: Vec<u16> = vec![0; 3];
    batcher.extend(&vertices, &indices);
    assert!(batcher.too_many_vertices_in_buffer());
    batcher.renderize();
    let subs = batcher.take_submissions();
    assert_eq!(subs.len(), 1);
    assert_eq!(subs[0].vertices.len(), 500);
    assert_eq!(subs[0].indices.len(), 3);
}
