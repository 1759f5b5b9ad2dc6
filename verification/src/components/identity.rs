//! Identity and arming state of a vehicle.

use vstd::prelude::*;

verus! {

/// Marks a record of which exactly one exists.
#[derive(Clone, Copy, Debug, PartialEq, Eq, Structural, Default)]
pub struct Singleton;

/// Marks the vehicle itself.
#[derive(Clone, Copy, Debug, PartialEq, Eq, Structural, Default)]
pub struct Robot;

/// Marks the surface station.
#[derive(Clone, Copy, Debug, PartialEq, Eq, Structural, Default)]
pub struct Surface;

/// Whether the actuators may be driven.  A vehicle starts disarmed.
#[derive(Clone, Copy, Debug, PartialEq, Eq, Structural)]
pub enum Armed {
    Armed,
    Disarmed,
}

impl Armed {
    /// True exactly for `Armed::Armed`.
    pub open spec fn spec_is_armed(&self) -> bool {
        *self == Armed::Armed
    }

    /// True exactly for `Armed::Armed`.
    #[verifier::when_used_as_spec(spec_is_armed)]
    pub fn is_armed(&self) -> (r: bool)
        ensures
            r == self.spec_is_armed(),
    {
        match self {
            Armed::Armed => true,
            Armed::Disarmed => false,
        }
    }
}

impl Default for Armed {
    fn default() -> (r: Self)
        ensures
            r == Armed::Disarmed,
    {
        Armed::Disarmed
    }
}

/// The name under which this process runs.
#[derive(Clone, Debug)]
pub struct InstanceName(pub String);

/// Network-wide identifier of a record.
#[derive(Clone, Copy, Debug, PartialEq, Eq, Structural, Hash)]
pub struct NetId(pub u64);

/// The vehicle that an actuator or a contribution belongs to.
#[derive(Clone, Copy, Debug, PartialEq, Eq, Structural)]
pub struct RobotId(pub NetId);

impl RobotId {
    /// Whether this record is addressed to the vehicle `robot`.
    pub fn belongs_to(&self, robot: NetId) -> (r: bool)
        ensures
            r == (self.0 == robot),
    {
        self.0.0 == robot.0
    }
}

} // verus!
