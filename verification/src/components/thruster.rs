//! The vehicle's net movement and the state of its thrusters.

use vstd::prelude::*;
use crate::motor_math::motor_config::{Axis, ErasedMotorId, Motor, Movement};

verus! {

/// The movement that the thrust asked of the thrusters would give.
#[derive(Clone, Copy, Debug, PartialEq)]
pub struct TargetMovement<D>(pub Movement<D>);

/// The movement that the thrust commanded after all limits gives.
#[derive(Clone, Copy, Debug, PartialEq)]
pub struct ActualMovement<D>(pub Movement<D>);

/// One source's share of the movement wanted in a tick.
#[derive(Clone, Copy, Debug, PartialEq)]
pub struct MovementContribution<D>(pub Movement<D>);

/// The largest force or torque that the thrusters can give along each axis
/// within the current budget.
#[derive(Clone, Debug)]
pub struct MovementAxisMaximums<N>(pub Vec<(Axis, N)>);

/// The current that all thrusters together may draw.
#[derive(Clone, Copy, Debug, PartialEq)]
pub struct MovementCurrentCap<A>(pub A);

/// The fastest that the thrust of one thruster may change, per second.
#[derive(Clone, Copy, Debug, PartialEq)]
pub struct JerkLimit<S>(pub S);

/// Marks a vehicle whose actuators are driven one by one, past the movement
/// accumulator.
#[derive(Clone, Copy, Debug, PartialEq, Eq, Structural)]
pub struct DisableMovementApi;

/// The centre of mass, about which torques are taken.
#[derive(Clone, Copy, Debug, PartialEq)]
pub struct CenterOfMass<D>(pub [D; 3]);

/// The thrust asked of one thruster.
#[derive(Clone, Copy, Debug, PartialEq)]
pub struct TargetForce<N>(pub N);

/// The thrust commanded of one thruster after all limits.
#[derive(Clone, Copy, Debug, PartialEq)]
pub struct ActualForce<N>(pub N);

/// Which thruster an actuator is.
#[derive(Clone, Copy, Debug, PartialEq)]
pub struct ThrusterDefinition<D>(pub ErasedMotorId, pub Motor<D>);

/// One source's share of the thrust wanted of each thruster in a tick.
#[derive(Clone, Debug)]
pub struct ThrustContribution<N>(pub Vec<(ErasedMotorId, N)>);

} // verus!
