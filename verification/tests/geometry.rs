use poly_line_2d::fixed::{trunc_div, isqrt, sin_mdeg, cos_mdeg};
use poly_line_2d::indices::{IndexPart, expand_indices};
use poly_line_2d::line_segment::{LineSegment, PolySegment, Direction};
use poly_line_2d::parts::VSegments;
use poly_line_2d::style::JointStyle;
use poly_line_2d::parts::{Rgba, SegmentTriangulation};
use poly_line_2d::vec2::Vec2;

// Coordinates are in subunits: 1000 subunits make one world unit.

fn seg(ax: i64, ay: i64, bx: i64, by: i64) -> LineSegment {
    LineSegment { a: Vec2::new(ax, ay), b: Vec2::new(bx, by) }
}

const RED: Rgba = Rgba { r: 255, g: 0, b: 0, a: 255 };

#[test]
fn truncated_division_rounds_toward_zero() {
    assert_eq!(trunc_div(7, 2), 3);
    assert_eq!(trunc_div(-7, 2), -3);
    assert_eq!(trunc_div(7, -2), -3);
    assert_eq!(trunc_div(-7, -2), 3);
}

#[test]
fn integer_square_root_floors() {
    assert_eq!(isqrt(0), 0);
    assert_eq!(isqrt(24), 4);
    assert_eq!(isqrt(25), 5);
    assert_eq!(isqrt(26), 5);
}

#[test]
fn sine_exact_at_reference_angles() {
    assert_eq!(sin_mdeg(0), 0);
    assert_eq!(sin_mdeg(30_000), 500);
    assert_eq!(sin_mdeg(90_000), 1000);
    assert_eq!(sin_mdeg(180_000), 0);
    assert_eq!(sin_mdeg(270_000), -1000);
    assert_eq!(cos_mdeg(0), 1000);
    assert_eq!(cos_mdeg(90_000), 0);
    assert_eq!(cos_mdeg(180_000), -1000);
}

#[test]
fn normalized_direction_of_3_4_5_triangle() {
    let s = seg(0, 0, 3000, 4000);
    let d = s.direction(Direction::Normalized);
    assert_eq!(d, Vec2::new(600, 800));
    let n = s.normal();
    assert_eq!(n, Vec2::new(-800, 600));
}

#[test]
fn intersection_of_perpendicular_lines() {
    let horizontal = seg(0, 0, 10_000, 0);
    let vertical = seg(5_000, -5_000, 5_000, 5_000);
    let p = horizontal.intersection(vertical).unwrap();
    assert_eq!(p, Vec2::new(5_000, 0));
}

#[test]
fn intersection_of_parallel_lines_is_none() {
    let one = seg(0, 0, 10_000, 0);
    let other = seg(0, 2_000, 10_000, 2_000);
    assert!(one.intersection(other).is_none());
}

#[test]
fn bundle_fringe_sits_one_unit_beyond_core() {
    // Horizontal center segment: unit direction (1000, 0), normal (0, 1000).
    let bundle = PolySegment::new(&seg(0, 0, 10_000, 0), 4_000);
    assert_eq!(bundle.u.a, Vec2::new(0, 2_000));
    assert_eq!(bundle.u.b, Vec2::new(10_000, 2_000));
    assert_eq!(bundle.u_aa.a, Vec2::new(0, 3_000));
    assert_eq!(bundle.u_aa.b, Vec2::new(10_000, 3_000));
    assert_eq!(bundle.l.a, Vec2::new(0, -2_000));
    assert_eq!(bundle.l_aa.a, Vec2::new(0, -3_000));
    // The fringe offset stays exactly one unit whatever the thickness.
    let thick = PolySegment::new(&seg(0, 0, 10_000, 0), 700_000);
    assert_eq!(thick.u_aa.a.y - thick.u.a.y, 1_000);
    assert_eq!(thick.l.a.y - thick.l_aa.a.y, 1_000);
}

#[test]
fn sharpness_cutoff_at_boundary_turns() {
    // A 180-degree turn: unit-direction dot product is -1, below -0.8.
    let back = VSegments::new(
        Vec2::new(0, 0),
        Vec2::new(10_000, 0),
        Vec2::new(0, 0),
        2_000,
    );
    assert!(back.angle_is_too_sharp());
    // A 90-degree turn: dot product 0, not below -0.8.
    let square = VSegments::new(
        Vec2::new(0, 0),
        Vec2::new(10_000, 0),
        Vec2::new(10_000, 10_000),
        2_000,
    );
    assert!(!square.angle_is_too_sharp());
}

#[test]
fn winding_flips_with_point_order() {
    let forward = VSegments::new(
        Vec2::new(0, 0),
        Vec2::new(0, 100_000),
        Vec2::new(100_000, 85_000),
        8_000,
    );
    let backward = VSegments::new(
        Vec2::new(100_000, 85_000),
        Vec2::new(0, 100_000),
        Vec2::new(0, 0),
        8_000,
    );
    assert_eq!(forward.is_clockwise(), !backward.is_clockwise());
}

#[test]
fn collinear_joint_falls_back_to_straight() {
    let v = VSegments::new(
        Vec2::new(0, 0),
        Vec2::new(10_000, 0),
        Vec2::new(20_000, 0),
        4_000,
    );
    assert!(v.get_intersection().is_none());
    match v.triangulate(0, RED, JointStyle::Miter) {
        SegmentTriangulation::Straight { vertices, indices } => {
            assert_eq!(vertices.len(), 8);
            assert_eq!(indices.len(), 30);
        }
        _ => panic!("expected the Straight fallback"),
    }
}

#[test]
fn miter_corner_reproduces_the_intersection_point() {
    let v = VSegments::new(
        Vec2::new(0, 0),
        Vec2::new(10_000, 0),
        Vec2::new(10_000, 10_000),
        2_000,
    );
    let upper = v.lcs.u.intersection(v.rcs.u).unwrap();
    let lower = v.lcs.l.intersection(v.rcs.l).unwrap();
    assert_eq!(upper, Vec2::new(9_000, 1_000));
    match v.triangulate(0, RED, JointStyle::Miter) {
        SegmentTriangulation::Miter { vertices, indices } => {
            assert_eq!(vertices.len(), 12);
            assert_eq!(indices.len(), 36);
            assert_eq!(vertices[5].pos_x, upper.x);
            assert_eq!(vertices[5].pos_y, upper.y);
            assert_eq!(vertices[6].pos_x, lower.x);
            assert_eq!(vertices[6].pos_y, lower.y);
        }
        _ => panic!("expected the Miter layout"),
    }
}

#[test]
fn bevel_layout_has_the_cut_triangle() {
    let v = VSegments::new(
        Vec2::new(0, 0),
        Vec2::new(10_000, 0),
        Vec2::new(10_000, 10_000),
        2_000,
    );
    match v.triangulate(0, RED, JointStyle::Bevel) {
        SegmentTriangulation::Bevel { vertices, indices } => {
            assert_eq!(vertices.len(), 14);
            assert_eq!(indices.len(), 45);
        }
        _ => panic!("expected the Bevel layout"),
    }
}

#[test]
fn fringe_vertices_carry_zero_alpha() {
    let v = VSegments::new(
        Vec2::new(0, 0),
        Vec2::new(10_000, 0),
        Vec2::new(10_000, 10_000),
        2_000,
    );
    match v.triangulate(0, RED, JointStyle::Miter) {
        SegmentTriangulation::Miter { vertices, .. } => {
            // Layout order alternates fringe/core: 0 and 3 are fringe, 1 and
            // 2 are core, on the left cross-section.
            assert_eq!(vertices[0].color.a, 0);
            assert_eq!(vertices[1].color.a, 255);
            assert_eq!(vertices[2].color.a, 255);
            assert_eq!(vertices[3].color.a, 0);
            assert_eq!(vertices[0].color.r, 255);
        }
        _ => panic!("expected the Miter layout"),
    }
}

#[test]
fn index_descriptors_expand_to_triangles() {
    let parts = vec![IndexPart::Quad(0, 4, 1, 5), IndexPart::Triangle(6, 5, 8)];
    let expanded = expand_indices(&parts, 2);
    assert_eq!(expanded, vec![2u16, 6, 3, 3, 6, 7, 8, 7, 10]);
}

#[test]
fn triangulation_honours_the_start_id() {
    let v = VSegments::new(
        Vec2::new(0, 0),
        Vec2::new(10_000, 0),
        Vec2::new(20_000, 0),
        4_000,
    );
    match v.triangulate(100, RED, JointStyle::Miter) {
        SegmentTriangulation::Straight { indices, .. } => {
            assert_eq!(indices[0], 100);
            assert_eq!(indices[1], 104);
        }
        _ => panic!("expected the Straight fallback"),
    }
}
