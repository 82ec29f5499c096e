//! Plain 2D vector in fixed-point subunits.

use vstd::prelude::*;

verus! {

/// A 2D point or vector; each component counts `fixed::SCALE` subunits per
/// world unit.
#[derive(Clone, Copy, Debug, PartialEq, Eq, Structural)]
pub struct Vec2 {
    pub x: i64,
    pub y: i64,
}

impl Vec2 {
    pub fn new(x: i64, y: i64) -> (r: Vec2)
        ensures
            r == (Vec2 { x, y }),
    {
        Vec2 { x, y }
    }
}

/// True when both components lie within `bound` in magnitude.
pub open spec fn vec_in_range(v: Vec2, bound: int) -> bool {
    -bound <= v.x <= bound && -bound <= v.y <= bound
}

} // verus!
