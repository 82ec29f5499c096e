//! Antialiased variable-thickness polyline triangulation.
//!
//! Given an ordered sequence of 2D points, a thickness, and style options for
//! joints and end caps, the engine produces vertex/index meshes approximating a
//! constant-width stroke with a one-unit antialiasing fringe. Coordinates are
//! fixed-point integers: `fixed::SCALE` subunits make one world unit.

pub mod draw_batcher;
pub mod fixed;
pub mod indices;
pub mod laws;
pub mod line_segment;
pub mod painter;
pub mod parts;
pub mod style;
pub mod vec2;

pub use painter::Painter;

use vstd::prelude::*;
use crate::vec2::{Vec2, vec_in_range};

verus! {

/// The z component of the 3D cross product of two 2D vectors, as a spec value.
pub open spec fn cross_spec(ax: int, ay: int, bx: int, by: int) -> int {
    ax * by - ay * bx
}

/// The z component of the 3D cross product of two 2D vectors (their plane
/// embedded at z = 0): positive when `rhs` lies counter-clockwise of `lhs`.
pub fn cross(lhs: Vec2, rhs: Vec2) -> (r: i64)
    requires
        vec_in_range(lhs, 2_000_000_000),
        vec_in_range(rhs, 2_000_000_000),
    ensures
        r == cross_spec(lhs.x as int, lhs.y as int, rhs.x as int, rhs.y as int),
{
    proof {
        assert(-4_000_000_000_000_000_000 <= (lhs.x as int) * (rhs.y as int)
            <= 4_000_000_000_000_000_000 && -4_000_000_000_000_000_000 <= (lhs.y as int) * (
        rhs.x as int) <= 4_000_000_000_000_000_000) by (nonlinear_arith)
            requires
                -2_000_000_000 <= lhs.x <= 2_000_000_000,
                -2_000_000_000 <= lhs.y <= 2_000_000_000,
                -2_000_000_000 <= rhs.x <= 2_000_000_000,
                -2_000_000_000 <= rhs.y <= 2_000_000_000,
        ;
    }
    lhs.x * rhs.y - lhs.y * rhs.x
}

} // verus!
