//! Which stabilisation controllers run in a tick, and on what.
//!
//! A controller runs only while the vehicle is armed and the readings it
//! needs are there.  A controller that does not run gives no movement, and
//! its owner clears what it has integrated.

use vstd::prelude::*;
use crate::components::control::{DepthTarget, OrientationTarget};
use crate::components::identity::Armed;
use crate::components::sensor::{DepthMeasurement, Orientation};
use crate::motor_math::motor_config::Axis;

verus! {

/// The quantity that a stabilisation controller holds.
#[derive(Clone, Copy, Debug, PartialEq, Eq, Structural, Hash)]
pub enum PidAxis {
    Depth,
    Yaw,
    Pitch,
    Roll,
}

impl PidAxis {
    /// The axis along which the controller acts: depth along the vertical,
    /// yaw about the vertical, pitch about the X axis, roll about the Y axis.
    pub open spec fn spec_axis(&self) -> Axis {
        match self {
            PidAxis::Depth => Axis::Z,
            PidAxis::Yaw => Axis::ZRot,
            PidAxis::Pitch => Axis::XRot,
            PidAxis::Roll => Axis::YRot,
        }
    }

    /// The axis along which the controller acts.
    #[verifier::when_used_as_spec(spec_axis)]
    pub fn axis(&self) -> (r: Axis)
        ensures
            r == self.spec_axis(),
    {
        match self {
            PidAxis::Depth => Axis::Z,
            PidAxis::Yaw => Axis::ZRot,
            PidAxis::Pitch => Axis::XRot,
            PidAxis::Roll => Axis::YRot,
        }
    }

    /// A positive correction pushes against the axis: so for depth, which
    /// grows downwards while Z points up.
    pub fn is_negative(&self) -> (r: bool)
        ensures
            r == (*self == PidAxis::Depth),
    {
        match self {
            PidAxis::Depth => true,
            _ => false,
        }
    }

    /// The axis is fixed in the world, not in the vehicle: the vertical of
    /// the depth controller.  The three rotations are about the vehicle's
    /// own axes.
    pub fn is_world_fixed(&self) -> (r: bool)
        ensures
            r == (*self == PidAxis::Depth),
    {
        match self {
            PidAxis::Depth => true,
            _ => false,
        }
    }
}

/// What a controller works on in a tick.
#[derive(Clone, Copy, Debug, PartialEq)]
pub enum PidFeedback<Q, M> {
    /// Hold depth: the error is `target` less `measured`; `orientation`
    /// turns the vertical into the vehicle's frame.
    Depth { target: M, measured: M, orientation: Q },
    /// Hold attitude: the error is the twist from `current` to `target`
    /// about the controller's axis.
    Rotation { target: Q, current: Q },
}

/// What the controller of `axis` works on, given the state of the vehicle.
pub open spec fn spec_select_feedback<Q, M, P>(
    axis: PidAxis,
    armed: Armed,
    orientation: Option<Orientation<Q>>,
    orientation_target: Option<OrientationTarget<Q>>,
    depth: Option<DepthMeasurement<M, P>>,
    depth_target: Option<DepthTarget<M>>,
) -> Option<PidFeedback<Q, M>> {
    if armed != Armed::Armed || orientation is None {
        None
    } else if axis == PidAxis::Depth {
        if depth is Some && depth_target is Some {
            Some(
                PidFeedback::Depth {
                    target: depth_target->Some_0.0,
                    measured: depth->Some_0.depth,
                    orientation: orientation->Some_0.0,
                },
            )
        } else {
            None
        }
    } else {
        if orientation_target is Some {
            Some(
                PidFeedback::Rotation {
                    target: orientation_target->Some_0.0,
                    current: orientation->Some_0.0,
                },
            )
        } else {
            None
        }
    }
}

/// Decides whether the controller of `axis` runs in this tick, and on what.
///
/// It runs exactly when the vehicle is armed, its attitude is known, and the
/// controller's own target and reading are there: depth and depth target for
/// the depth controller, the attitude target for the three others.
pub fn select_feedback<Q: Copy, M: Copy, P: Copy>(
    axis: PidAxis,
    armed: Armed,
    orientation: Option<Orientation<Q>>,
    orientation_target: Option<OrientationTarget<Q>>,
    depth: Option<DepthMeasurement<M, P>>,
    depth_target: Option<DepthTarget<M>>,
) -> (r: Option<PidFeedback<Q, M>>)
    ensures
        r == spec_select_feedback(axis, armed, orientation, orientation_target, depth, depth_target),
        r is Some ==> armed == Armed::Armed && orientation is Some,
        r matches Some(feedback) ==> (feedback is Depth <==> axis == PidAxis::Depth),
{
    if !armed.is_armed() {
        return None;
    }
    let current: Q = match orientation {
        Some(orientation) => orientation.0,
        None => {
            return None;
        },
    };
    match axis {
        PidAxis::Depth => match (depth, depth_target) {
            (Some(depth), Some(depth_target)) => Some(
                PidFeedback::Depth {
                    target: depth_target.0,
                    measured: depth.depth,
                    orientation: current,
                },
            ),
            _ => None,
        },
        PidAxis::Yaw | PidAxis::Pitch | PidAxis::Roll => match orientation_target {
            Some(orientation_target) => Some(
                PidFeedback::Rotation { target: orientation_target.0, current },
            ),
            None => None,
        },
    }
}

/// A disarmed vehicle runs no controller, whatever its sensors say.
pub proof fn lemma_disarmed_runs_nothing<Q, M, P>(
    axis: PidAxis,
    orientation: Option<Orientation<Q>>,
    orientation_target: Option<OrientationTarget<Q>>,
    depth: Option<DepthMeasurement<M, P>>,
    depth_target: Option<DepthTarget<M>>,
)
    ensures
        spec_select_feedback(
            axis,
            Armed::Disarmed,
            orientation,
            orientation_target,
            depth,
            depth_target,
        ) is None,
{
}

} // verus!
