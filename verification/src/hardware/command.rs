//! What the control loop wants of one actuator in one tick.

use vstd::prelude::*;
use crate::components::identity::{NetId, RobotId};
use crate::components::motor::{GenericMotorId, MotorRawSignalRange};
use crate::hardware::motor_id_map::LocalMotorId;

verus! {

/// One actuator's signal for the coming tick, in raw units.
#[derive(Clone, Copy, Debug)]
pub struct ActuatorCommand {
    /// The vehicle the actuator belongs to.
    pub robot: RobotId,
    /// The channel that drives it.
    pub channel: GenericMotorId,
    /// The signal wanted, in the raw units of the channel.
    pub raw: i32,
    /// The raw signals the actuator accepts.
    pub range: MotorRawSignalRange,
}

/// The two kinds of channel.
#[derive(Clone, Copy, Debug, PartialEq, Eq, Structural)]
pub enum ChannelKind {
    Pwm,
    Dc,
}

impl ChannelKind {
    /// The kind of channel that the byte `channel` stands for, where it
    /// stands for one: the top bit tells.
    pub open spec fn of(channel: GenericMotorId) -> ChannelKind {
        if channel.0 < 128 {
            ChannelKind::Pwm
        } else {
            ChannelKind::Dc
        }
    }
}

impl ActuatorCommand {
    /// The command is for the vehicle `robot`.
    pub open spec fn addressed_to(&self, robot: NetId) -> bool {
        self.robot.0 == robot
    }

    /// The signal held to the actuator's range.
    pub open spec fn clamped(&self) -> i32 {
        self.range.spec_clamp_raw(self.raw)
    }

    /// The command can be sorted into a batch for the channels of kind
    /// `kind`: its channel byte stands for a channel, and if that channel is
    /// of the kind, the range to which its signal is held is not empty.
    pub open spec fn routable(&self, kind: ChannelKind) -> bool {
        &&& LocalMotorId::decodable(self.channel)
        &&& ChannelKind::of(self.channel) == kind ==> self.range.min <= self.range.max
    }

    /// Runtime test of `routable`.
    pub fn is_routable(&self, kind: ChannelKind) -> (r: bool)
        ensures
            r == self.routable(kind),
    {
        match LocalMotorId::try_from_generic(self.channel) {
            None => false,
            Some(LocalMotorId::PwmChannel(_)) => match kind {
                ChannelKind::Pwm => self.range.min <= self.range.max,
                ChannelKind::Dc => true,
            },
            Some(LocalMotorId::DcChannel(_)) => match kind {
                ChannelKind::Pwm => true,
                ChannelKind::Dc => self.range.min <= self.range.max,
            },
        }
    }
}

/// Every command for `robot` can be sorted into a batch for the channels of
/// kind `kind`.
pub open spec fn all_routable(
    robot: NetId,
    commands: Seq<ActuatorCommand>,
    kind: ChannelKind,
) -> bool {
    forall|i: int|
        0 <= i < commands.len() && (#[trigger] commands[i]).addressed_to(robot)
            ==> commands[i].routable(kind)
}

/// Runtime test of `all_routable`.
pub fn check_routable(robot: NetId, commands: &Vec<ActuatorCommand>, kind: ChannelKind) -> (r:
    bool)
    ensures
        r == all_routable(robot, commands@, kind),
{
    let mut i: usize = 0;
    while i < commands.len()
        invariant
            i <= commands.len(),
            forall|j: int|
                0 <= j < i && (#[trigger] commands[j]).addressed_to(robot)
                    ==> commands[j].routable(kind),
        decreases commands.len() - i,
    {
        if commands[i].robot.belongs_to(robot) && !commands[i].is_routable(kind) {
            return false;
        }
        i = i + 1;
    }
    true
}

} // verus!
