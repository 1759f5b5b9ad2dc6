//! What the pilot asks the stabilisation to hold.

use vstd::prelude::*;

verus! {

/// The depth to hold, in the caller's measure of length.
#[derive(Clone, Copy, Debug, PartialEq)]
pub struct DepthTarget<M>(pub M);

/// The attitude to hold, as the caller's rotation type.
#[derive(Clone, Copy, Debug, PartialEq)]
pub struct OrientationTarget<Q>(pub Q);

} // verus!
