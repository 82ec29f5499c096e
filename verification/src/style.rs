//! Stroke style options.

use vstd::prelude::*;

verus! {

/// How the corner where two consecutive segments meet is triangulated.
#[derive(Clone, Copy, Debug, PartialEq, Eq, Structural)]
pub enum JointStyle {
    /// Extend both edges to their geometric intersection: sharp corners, but
    /// spikes can grow without bound on sharp turns.
    Miter,
    /// Flatten the convex side of the corner into a cut, bounding spike length.
    Bevel,
}

/// How the ends of an open strip are closed off.
#[derive(Clone, Copy, Debug, PartialEq, Eq, Structural)]
pub enum EndCapStyle {
    /// A flush quad strip at the endpoint, no extension along the direction.
    Butt,
    /// Core and fringe edges extended by half the thickness along the
    /// direction, squaring the cap off.
    Square,
}

/// Whether a point sequence is an open strip with caps or wraps into a loop.
#[derive(Clone, Copy, Debug, PartialEq, Eq, Structural)]
pub enum LineStripStyle {
    Open,
    Closed,
}

} // verus!
