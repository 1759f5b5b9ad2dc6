//! The bookkeeping of the movement accumulator: whose contributions count,
//! which channel drives which thruster, and what is written back for each.

use vstd::prelude::*;
use crate::components::identity::{NetId, RobotId};
use crate::components::power::CurrentDraw;
use crate::components::thruster::{ActualForce, MovementContribution, TargetForce};
use crate::hardware::motor_id_map::LocalMotorId;
use crate::motor_math::keyed::key_present;
use crate::motor_math::motor_config::{ErasedMotorId, Motor, MotorConfig, Movement};

verus! {

/// The contributions among the first `upto` of `all` that are addressed to
/// `robot`, in their order.
pub open spec fn spec_contributions_for<D>(
    robot: NetId,
    all: Seq<(RobotId, MovementContribution<D>)>,
    upto: int,
) -> Seq<Movement<D>>
    decreases upto,
{
    if upto <= 0 {
        Seq::empty()
    } else if all[upto - 1].0.0 == robot {
        spec_contributions_for(robot, all, upto - 1).push(all[upto - 1].1.0)
    } else {
        spec_contributions_for(robot, all, upto - 1)
    }
}

/// The movements to sum for the vehicle `robot` in this tick: every
/// contribution addressed to it, none addressed to another.
pub fn contributions_for<D: Copy>(
    robot: NetId,
    all: &Vec<(RobotId, MovementContribution<D>)>,
) -> (r: Vec<Movement<D>>)
    ensures
        r@ == spec_contributions_for(robot, all@, all@.len() as int),
{
    let mut out: Vec<Movement<D>> = Vec::new();
    let mut i: usize = 0;
    while i < all.len()
        invariant
            i <= all.len(),
            out@ == spec_contributions_for(robot, all@, i as int),
        decreases all.len() - i,
    {
        if all[i].0.belongs_to(robot) {
            out.push(all[i].1.0);
        }
        i = i + 1;
    }
    out
}

/// With nothing addressed to the vehicle there is nothing to sum.
pub proof fn lemma_no_contribution_is_empty<D>(
    robot: NetId,
    all: Seq<(RobotId, MovementContribution<D>)>,
    upto: int,
)
    requires
        upto <= all.len(),
        forall|i: int| 0 <= i < upto ==> (#[trigger] all[i]).0.0 != robot,
    ensures
        spec_contributions_for(robot, all, upto).len() == 0,
    decreases upto,
{
    if upto > 0 {
        lemma_no_contribution_is_empty(robot, all, upto - 1);
    }
}

/// The channel that `channels` gives the thruster `id`: that of the first
/// element for `id`.
pub open spec fn channel_of(
    channels: Seq<(ErasedMotorId, LocalMotorId)>,
    id: ErasedMotorId,
) -> Option<LocalMotorId>
    decreases channels.len(),
{
    if channels.len() == 0 {
        None
    } else if channels[0].0 == id {
        Some(channels[0].1)
    } else {
        channel_of(channels.drop_first(), id)
    }
}

/// Looks up the channel of the thruster `id`.
pub fn find_channel(channels: &Vec<(ErasedMotorId, LocalMotorId)>, id: ErasedMotorId) -> (r:
    Option<LocalMotorId>)
    ensures
        r == channel_of(channels@, id),
{
    let mut j: usize = 0;
    assert(channels@.skip(0) =~= channels@);
    while j < channels.len()
        invariant
            j <= channels.len(),
            channel_of(channels@, id) == channel_of(channels@.skip(j as int), id),
        decreases channels.len() - j,
    {
        assert(channels@.skip(j as int).drop_first() =~= channels@.skip(j + 1));
        if channels[j].0 == id {
            return Some(channels[j].1);
        }
        j = j + 1;
    }
    None
}

/// A thruster with the channel that drives it.
#[derive(Clone, Copy, Debug)]
pub struct WiredThruster<D> {
    pub id: ErasedMotorId,
    pub motor: Motor<D>,
    pub channel: LocalMotorId,
}

/// Joins the thrusters of a configuration with the channels that drive
/// them, in the order of the columns.
///
/// Fails with the identifier of the first thruster, in that order, that
/// `channels` gives no channel.
pub fn flatten<D: Copy>(
    config: &MotorConfig<D>,
    channels: &Vec<(ErasedMotorId, LocalMotorId)>,
) -> (r: Result<Vec<WiredThruster<D>>, ErasedMotorId>)
    ensures
        match r {
            Ok(wired) => {
                &&& wired@.len() == config@.len()
                &&& forall|i: int|
                    0 <= i < wired@.len() ==> {
                        &&& (#[trigger] wired@[i]).id == config@[i].0
                        &&& wired@[i].motor == config@[i].1
                        &&& channel_of(channels@, wired@[i].id) == Some(wired@[i].channel)
                    }
            },
            Err(id) => {
                &&& key_present(config@, id as i64)
                &&& channel_of(channels@, id) is None
                &&& forall|i: int|
                    0 <= i < config@.len() && (#[trigger] config@[i]).0 < id ==> channel_of(
                        channels@,
                        config@[i].0 as ErasedMotorId,
                    ) is Some
            },
        },
{
    let n: usize = config.len();
    let mut out: Vec<WiredThruster<D>> = Vec::new();
    let mut i: usize = 0;
    while i < n
        invariant
            i <= n,
            n == config@.len(),
            config.wf(),
            out@.len() == i,
            forall|k: int|
                0 <= k < i ==> {
                    &&& (#[trigger] out@[k]).id == config@[k].0
                    &&& out@[k].motor == config@[k].1
                    &&& channel_of(channels@, out@[k].id) == Some(out@[k].channel)
                },
        decreases n - i,
    {
        let id: ErasedMotorId = config.id_at(i);
        match find_channel(channels, id) {
            Some(channel) => {
                out.push(WiredThruster { id, motor: *config.motor_at(i), channel });
            },
            None => {
                proof {
                    assert(config@[i as int].0 == id as i64);
                    assert forall|k: int| 0 <= k < config@.len() && (#[trigger] config@[k]).0
                        < id implies channel_of(channels@, config@[k].0 as ErasedMotorId)
                        is Some by {
                        if k >= i {
                            if k > i {
                                assert(config@[i as int].0 < config@[k].0);
                            }
                        } else {
                            assert(out@[k].id == config@[k].0);
                        }
                    }
                }
                return Err(id);
            },
        }
        i = i + 1;
    }
    Ok(out)
}

/// What is written back for one thruster after a tick.
#[derive(Clone, Copy, Debug, PartialEq)]
pub enum ThrusterReport<N, A> {
    /// The thruster is driven with the raw signal `raw`.
    Driven { target: TargetForce<N>, actual: ActualForce<N>, current: CurrentDraw<A>, raw: i32 },
    /// The thruster took no part in the tick: it rests, and every quantity
    /// reported for it is zero.
    Idle,
}

/// What is written back for a thruster: it is driven where the tick holds
/// both a target for it and a command, and rests otherwise.
pub fn report<N: Copy, A: Copy>(target: Option<N>, command: Option<(N, A, i32)>) -> (r:
    ThrusterReport<N, A>)
    ensures
        r == (match (target, command) {
            (Some(target), Some(command)) => ThrusterReport::Driven {
                target: TargetForce(target),
                actual: ActualForce(command.0),
                current: CurrentDraw(command.1),
                raw: command.2,
            },
            _ => ThrusterReport::Idle,
        }),
{
    match (target, command) {
        (Some(target), Some(command)) => ThrusterReport::Driven {
            target: TargetForce(target),
            actual: ActualForce(command.0),
            current: CurrentDraw(command.1),
            raw: command.2,
        },
        _ => ThrusterReport::Idle,
    }
}

} // verus!
