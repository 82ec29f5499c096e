use poly_line_2d::parts::VSegments;
use poly_line_2d::vec2::Vec2;

// Coordinates are in subunits: 1000 subunits make one world unit.

#[test]
pub fn test_clockwise_checker() {
    let v_segments = VSegments::new(
        Vec2::new(0, 0),
        Vec2::new(0, 100_000),
        Vec2::new(100_000, 85_000),
        8_000,
    );
    assert_eq!(true, v_segments.is_clockwise());

    let v_segments = VSegments::new(
        Vec2::new(0, 0),
        Vec2::new(0, 100_000),
        Vec2::new(-100_000, 85_000),
        8_000,
    );
    assert_eq!(false, v_segments.is_clockwise());
}
