//! What the power sensors report.

use vstd::prelude::*;

verus! {

/// The supply voltage as measured.
#[derive(Clone, Copy, Debug, PartialEq)]
pub struct MeasuredVoltage<V>(pub V);

/// The current drawn by the vehicle or by one actuator.
#[derive(Clone, Copy, Debug, PartialEq)]
pub struct CurrentDraw<A>(pub A);

} // verus!
