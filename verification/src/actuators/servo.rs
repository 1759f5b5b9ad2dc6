//! How a servo's position follows from what was asked of it in a tick.

use vstd::prelude::*;
use crate::components::motor::{MotorContributionMode, MotorRawSignalRange};

verus! {

/// What becomes of a servo's position in a tick.  Positions run from minus
/// one to one; the arithmetic is the caller's.
#[derive(Clone, Copy, Debug, PartialEq)]
pub enum ServoUpdate<S> {
    /// Back to rest: the position is zero.
    Rest,
    /// Nothing was asked: the position stays.
    Unchanged,
    /// The position is `input`, held to the range of positions.
    Direct { input: S },
    /// The position moves from `base` (from rest where there is none) at the
    /// rate `input` for the length of the tick, held to the range of
    /// positions.
    Integrate { base: Option<S>, input: S },
}

/// What becomes of a servo's position, as `plan` decides it.
pub open spec fn spec_plan<S>(
    mode: MotorContributionMode,
    input: Option<S>,
    last: Option<S>,
    reset: bool,
) -> ServoUpdate<S> {
    if reset {
        ServoUpdate::Rest
    } else {
        match input {
            None => ServoUpdate::Unchanged,
            Some(input) => match mode {
                MotorContributionMode::ZerothOrder => ServoUpdate::Direct { input },
                MotorContributionMode::FirstOrder => ServoUpdate::Integrate { base: last, input },
            },
        }
    }
}

/// Decides what becomes of a servo's position in a tick.
///
/// `input` is the sum of what was asked of the servo in the tick, `last` its
/// position after the tick before, and `reset` says that the servo, or every
/// servo, was told to go back to rest.  A reset wins over the input.
pub fn plan<S: Copy>(
    mode: MotorContributionMode,
    input: Option<S>,
    last: Option<S>,
    reset: bool,
) -> (r: ServoUpdate<S>)
    ensures
        r == spec_plan(mode, input, last, reset),
{
    if reset {
        return ServoUpdate::Rest;
    }
    match input {
        None => ServoUpdate::Unchanged,
        Some(input) => match mode {
            MotorContributionMode::ZerothOrder => ServoUpdate::Direct { input },
            MotorContributionMode::FirstOrder => ServoUpdate::Integrate { base: last, input },
        },
    }
}

/// The range of a servo whose travel is limited to the raw signals from
/// `min_raw` to `max_raw`: the channel's own range, cut to the limits, with
/// neutral where it was.
pub fn constrain(range: &MotorRawSignalRange, min_raw: i32, max_raw: i32) -> (r:
    MotorRawSignalRange)
    ensures
        r.center == range.center,
        r.min == (if range.min >= min_raw {
            range.min
        } else {
            min_raw
        }),
        r.max == (if range.max <= max_raw {
            range.max
        } else {
            max_raw
        }),
        range.wf() && min_raw <= range.center <= max_raw ==> r.wf(),
{
    MotorRawSignalRange {
        min: if range.min >= min_raw {
            range.min
        } else {
            min_raw
        },
        center: range.center,
        max: if range.max <= max_raw {
            range.max
        } else {
            max_raw
        },
    }
}

} // verus!
