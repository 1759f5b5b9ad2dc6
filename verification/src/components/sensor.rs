//! What the navigation sensors report.

use vstd::prelude::*;

verus! {

/// The attitude of the vehicle, as the caller's rotation type.
#[derive(Clone, Copy, Debug, PartialEq, Default)]
pub struct Orientation<Q>(pub Q);

/// A reading of the depth sensor: `M` measures length, `P` pressure.
#[derive(Clone, Copy, Debug, PartialEq, Default)]
pub struct DepthMeasurement<M, P> {
    pub depth: M,
    pub altitude: M,
    pub pressure: P,
}

/// Whether water has been detected inside the hull.
#[derive(Clone, Copy, Debug, PartialEq, Eq, Structural, Default)]
pub struct Leak(pub bool);

} // verus!
