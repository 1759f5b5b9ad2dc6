//! The arm / disarm rules of the sixteen-channel PWM bridge.
//!
//! The bridge is a state machine.  Its owner feeds it the messages of the
//! control loop as they arrive and asks it once per cycle what to write to
//! the chip.  Times are microseconds on a clock that never runs backwards.

use vstd::prelude::*;
use crate::components::identity::{Armed, NetId};
use crate::hardware::clock::{elapsed, micros_since};
use crate::hardware::command::{all_routable, ActuatorCommand, ChannelKind};
use crate::hardware::motor_id_map::LocalMotorId;

verus! {

/// Number of channels of the chip.
pub const NUM_CHANNELS: usize = 16;

/// The pulse width, in microseconds, at which a speed controller rests.
pub const NEUTRAL_PULSE: u16 = 1500;

/// A pulse width in microseconds for each channel.
pub type ChannelBatch = [u16; 16];

/// What the control loop sends to the bridge.
#[derive(Clone, Copy, Debug)]
pub enum PwmEvent {
    /// The vehicle's arming state, repeated every tick while it holds.
    Arm(Armed),
    /// The pulse widths wanted from now on.
    Batch(ChannelBatch),
    /// Stop driving and leave.
    Shutdown,
}

/// The two intervals that govern the bridge, in microseconds.
#[derive(Clone, Copy, Debug)]
pub struct PwmTiming {
    /// Longest silence after an arm message before the bridge disarms itself.
    pub max_inactive: u64,
    /// Time after arming during which the outputs stay neutral.
    pub arming_duration: u64,
}

/// What the bridge writes to the chip in one cycle.
#[derive(Clone, Copy, Debug)]
pub struct PwmOutput {
    /// Whether the chip's outputs are switched on.
    pub output_enabled: bool,
    /// The pulse width of each channel.
    pub pulses: ChannelBatch,
    /// The bridge disarmed itself in this cycle for want of an arm message.
    pub inactivity: bool,
    /// The arming state, where it differs from the one last reported.
    pub changed_to: Option<Armed>,
}

/// Every channel at rest.
pub open spec fn neutral_pulses() -> Seq<u16> {
    Seq::new(16, |i: int| NEUTRAL_PULSE)
}

/// The ways a bridge can stand at a given time.
#[derive(Clone, Copy, Debug, PartialEq, Eq, Structural)]
pub enum PwmPhase {
    Disarmed,
    /// Armed, outputs still held neutral.
    SoftStart,
    /// Armed and driving.
    Active,
    Shutdown,
}

/// The state of a bridge as contracts see it.
pub struct PwmModel {
    pub armed: Armed,
    /// The arming state last reported to the log.
    pub reported: Armed,
    pub pulses: Seq<u16>,
    /// When the last arm message came.
    pub last_arm: u64,
    /// When the bridge last went from disarmed to armed.
    pub last_rearm: u64,
    pub shutdown: bool,
}

impl PwmModel {
    /// A disarmed bridge drives nothing.
    pub open spec fn wf(self) -> bool {
        &&& self.pulses.len() == 16
        &&& self.armed == Armed::Disarmed ==> self.pulses == neutral_pulses()
    }

    /// The state in which a bridge starts at time `now`.
    pub open spec fn initial(now: u64) -> PwmModel {
        PwmModel {
            armed: Armed::Disarmed,
            reported: Armed::Disarmed,
            pulses: neutral_pulses(),
            last_arm: now,
            last_rearm: now,
            shutdown: false,
        }
    }

    /// The state after the message `event`, taken at time `now`.
    pub open spec fn after_event(self, event: PwmEvent, now: u64) -> PwmModel {
        match event {
            PwmEvent::Arm(Armed::Armed) => PwmModel {
                armed: Armed::Armed,
                last_arm: now,
                last_rearm: if self.armed == Armed::Armed {
                    self.last_rearm
                } else {
                    now
                },
                ..self
            },
            PwmEvent::Arm(Armed::Disarmed) => PwmModel {
                armed: Armed::Disarmed,
                pulses: neutral_pulses(),
                ..self
            },
            PwmEvent::Batch(batch) => PwmModel {
                pulses: if self.armed == Armed::Armed {
                    batch@
                } else {
                    neutral_pulses()
                },
                ..self
            },
            PwmEvent::Shutdown => PwmModel {
                armed: Armed::Disarmed,
                pulses: neutral_pulses(),
                shutdown: true,
                ..self
            },
        }
    }

    /// The state after the messages `events`, all taken at time `now`, up to
    /// and including the first `Shutdown`.
    pub open spec fn after_events(self, events: Seq<PwmEvent>, now: u64) -> PwmModel
        decreases events.len(),
    {
        if events.len() == 0 {
            self
        } else if events[0] is Shutdown {
            self.after_event(events[0], now)
        } else {
            self.after_event(events[0], now).after_events(events.drop_first(), now)
        }
    }

    /// The dead-man rule applies: armed, and the last arm message is older
    /// than `max_inactive`.
    pub open spec fn timed_out(self, now: u64, timing: PwmTiming) -> bool {
        self.armed == Armed::Armed && elapsed(self.last_arm, now) > timing.max_inactive
    }

    /// The arming state after the dead-man rule.
    pub open spec fn armed_at(self, now: u64, timing: PwmTiming) -> Armed {
        if self.timed_out(now, timing) {
            Armed::Disarmed
        } else {
            self.armed
        }
    }

    /// The bridge is armed at `now` but armed too recently to drive.
    pub open spec fn soft_starting(self, now: u64, timing: PwmTiming) -> bool {
        self.armed_at(now, timing) == Armed::Armed && elapsed(self.last_rearm, now)
            < timing.arming_duration
    }

    /// How the bridge stands at `now`.
    pub open spec fn phase(self, now: u64, timing: PwmTiming) -> PwmPhase {
        if self.shutdown {
            PwmPhase::Shutdown
        } else if self.armed_at(now, timing) == Armed::Disarmed {
            PwmPhase::Disarmed
        } else if self.soft_starting(now, timing) {
            PwmPhase::SoftStart
        } else {
            PwmPhase::Active
        }
    }

    /// The pulse widths held after the cycle at `now`.
    pub open spec fn pulses_at(self, now: u64, timing: PwmTiming) -> Seq<u16> {
        if self.armed_at(now, timing) == Armed::Disarmed || self.soft_starting(now, timing) {
            neutral_pulses()
        } else {
            self.pulses
        }
    }

    /// The state after the cycle at `now`.
    pub open spec fn after_tick(self, now: u64, timing: PwmTiming) -> PwmModel {
        PwmModel {
            armed: self.armed_at(now, timing),
            reported: self.armed_at(now, timing),
            pulses: self.pulses_at(now, timing),
            ..self
        }
    }
}

/// The bridge between the control loop and the PWM chip.
#[derive(Clone, Copy, Debug)]
pub struct PwmBridge {
    armed: Armed,
    last_armed: Armed,
    channel_pwms: ChannelBatch,
    last_arm_timestamp: u64,
    last_rearm_timestamp: u64,
    do_shutdown: bool,
}

impl View for PwmBridge {
    type V = PwmModel;

    closed spec fn view(&self) -> PwmModel {
        PwmModel {
            armed: self.armed,
            reported: self.last_armed,
            pulses: self.channel_pwms@,
            last_arm: self.last_arm_timestamp,
            last_rearm: self.last_rearm_timestamp,
            shutdown: self.do_shutdown,
        }
    }
}

impl PwmBridge {
    #[verifier::type_invariant]
    spec fn inv(self) -> bool {
        self@.wf()
    }

    /// The timing of the deployed vehicle: disarm after 100 ms of silence,
    /// hold neutral for 1.5 s after arming.
    pub fn default_timing() -> (r: PwmTiming)
        ensures
            r.max_inactive == 100_000,
            r.arming_duration == 1_500_000,
    {
        PwmTiming { max_inactive: 100_000, arming_duration: 1_500_000 }
    }

    /// A disarmed bridge with every channel at rest.
    pub fn new(now: u64) -> (r: Self)
        ensures
            r@ == PwmModel::initial(now),
            r@.wf(),
    {
        let neutral: ChannelBatch = [1500u16;16];
        assert(neutral@ =~= neutral_pulses());
        PwmBridge {
            armed: Armed::Disarmed,
            last_armed: Armed::Disarmed,
            channel_pwms: neutral,
            last_arm_timestamp: now,
            last_rearm_timestamp: now,
            do_shutdown: false,
        }
    }

    /// The arming state.
    pub fn armed(&self) -> (r: Armed)
        ensures
            r == self@.armed,
    {
        self.armed
    }

    /// The pulse widths currently held.
    pub fn channel_pwms(&self) -> (r: ChannelBatch)
        ensures
            r@ == self@.pulses,
            self@.wf(),
    {
        proof {
            use_type_invariant(self);
        }
        self.channel_pwms
    }

    /// Whether a `Shutdown` message has been taken; the owner then stops.
    pub fn is_shut_down(&self) -> (r: bool)
        ensures
            r == self@.shutdown,
    {
        self.do_shutdown
    }

    /// How the bridge stands at time `now`: shut down, disarmed (also where
    /// the dead man is about to disarm it), armed and still held neutral, or
    /// armed and driving.
    pub fn phase(&self, now: u64, timing: &PwmTiming) -> (r: PwmPhase)
        ensures
            r == self@.phase(now, *timing),
    {
        if self.do_shutdown {
            PwmPhase::Shutdown
        } else if !self.armed.is_armed() || micros_since(self.last_arm_timestamp, now)
            > timing.max_inactive {
            PwmPhase::Disarmed
        } else if micros_since(self.last_rearm_timestamp, now) < timing.arming_duration {
            PwmPhase::SoftStart
        } else {
            PwmPhase::Active
        }
    }

    /// Takes one message of the control loop at time `now`.
    pub fn handle_event(&mut self, event: PwmEvent, now: u64)
        ensures
            final(self)@ == old(self)@.after_event(event, now),
            final(self)@.wf(),
    {
        proof {
            use_type_invariant(&*self);
        }
        let neutral: ChannelBatch = [1500u16;16];
        assert(neutral@ =~= neutral_pulses());
        match event {
            PwmEvent::Arm(Armed::Armed) => {
                let rearm: u64 = if self.armed.is_armed() {
                    self.last_rearm_timestamp
                } else {
                    now
                };
                *self = PwmBridge {
                    armed: Armed::Armed,
                    last_armed: self.last_armed,
                    channel_pwms: self.channel_pwms,
                    last_arm_timestamp: now,
                    last_rearm_timestamp: rearm,
                    do_shutdown: self.do_shutdown,
                };
            },
            PwmEvent::Arm(Armed::Disarmed) => {
                *self = PwmBridge {
                    armed: Armed::Disarmed,
                    last_armed: self.last_armed,
                    channel_pwms: neutral,
                    last_arm_timestamp: self.last_arm_timestamp,
                    last_rearm_timestamp: self.last_rearm_timestamp,
                    do_shutdown: self.do_shutdown,
                };
            },
            PwmEvent::Batch(new_channel_signals) => {
                if self.armed.is_armed() {
                    self.channel_pwms = new_channel_signals;
                } else {
                    self.channel_pwms = neutral;
                }
            },
            PwmEvent::Shutdown => {
                *self = PwmBridge {
                    armed: Armed::Disarmed,
                    last_armed: self.last_armed,
                    channel_pwms: neutral,
                    last_arm_timestamp: self.last_arm_timestamp,
                    last_rearm_timestamp: self.last_rearm_timestamp,
                    do_shutdown: true,
                };
            },
        }
    }
}

impl PwmOutput {
    /// What a bridge in state `before` writes in the cycle at `now`.
    pub open spec fn of(before: PwmModel, now: u64, timing: PwmTiming) -> PwmOutputModel {
        PwmOutputModel {
            output_enabled: before.armed_at(now, timing) == Armed::Armed,
            pulses: before.pulses_at(now, timing),
            inactivity: before.timed_out(now, timing),
            changed_to: if before.armed_at(now, timing) != before.reported {
                Some(before.armed_at(now, timing))
            } else {
                None
            },
        }
    }
}

/// An output as contracts see it.
pub struct PwmOutputModel {
    pub output_enabled: bool,
    pub pulses: Seq<u16>,
    pub inactivity: bool,
    pub changed_to: Option<Armed>,
}

impl View for PwmOutput {
    type V = PwmOutputModel;

    open spec fn view(&self) -> PwmOutputModel {
        PwmOutputModel {
            output_enabled: self.output_enabled,
            pulses: self.pulses@,
            inactivity: self.inactivity,
            changed_to: self.changed_to,
        }
    }
}

impl PwmBridge {
    /// Ends a cycle at time `now`: applies the dead-man rule and the soft
    /// start, and says what to write to the chip.
    pub fn tick(&mut self, now: u64, timing: &PwmTiming) -> (out: PwmOutput)
        ensures
            final(self)@ == old(self)@.after_tick(now, *timing),
            final(self)@.wf(),
            out@ == PwmOutput::of(old(self)@, now, *timing),
            out.pulses@ == final(self)@.pulses,
            !out.output_enabled ==> out.pulses@ == neutral_pulses(),
    {
        proof {
            use_type_invariant(&*self);
        }
        let neutral: ChannelBatch = [1500u16;16];
        assert(neutral@ =~= neutral_pulses());
        let mut armed: Armed = self.armed;
        let mut channel_pwms: ChannelBatch = self.channel_pwms;
        let mut inactivity: bool = false;

        if armed.is_armed() && micros_since(self.last_arm_timestamp, now) > timing.max_inactive {
            inactivity = true;
            armed = Armed::Disarmed;
            channel_pwms = neutral;
        }
        // Speed controllers want the neutral pulse for a while before real speeds.
        if armed.is_armed() && micros_since(self.last_rearm_timestamp, now)
            < timing.arming_duration {
            channel_pwms = neutral;
        }
        let output_enabled: bool = armed.is_armed();
        if !output_enabled {
            channel_pwms = neutral;
        }
        let changed_to: Option<Armed> = if self.last_armed.is_armed() != armed.is_armed() {
            Some(armed)
        } else {
            None
        };
        *self = PwmBridge {
            armed,
            last_armed: armed,
            channel_pwms,
            last_arm_timestamp: self.last_arm_timestamp,
            last_rearm_timestamp: self.last_rearm_timestamp,
            do_shutdown: self.do_shutdown,
        };
        PwmOutput { output_enabled, pulses: channel_pwms, inactivity, changed_to }
    }

    /// One whole cycle at time `now`: takes the waiting messages in order, up
    /// to the first `Shutdown`, then ends the cycle as `tick` does.
    pub fn run_cycle(&mut self, events: &Vec<PwmEvent>, now: u64, timing: &PwmTiming) -> (out:
        PwmOutput)
        ensures
            final(self)@ == old(self)@.after_events(events@, now).after_tick(now, *timing),
            final(self)@.wf(),
            out@ == PwmOutput::of(old(self)@.after_events(events@, now), now, *timing),
            out.pulses@ == final(self)@.pulses,
            !out.output_enabled ==> out.pulses@ == neutral_pulses(),
    {
        let mut i: usize = 0;
        assert(events@.skip(0) =~= events@);
        while i < events.len()
            invariant
                i <= events.len(),
                old(self)@.after_events(events@, now) == self@.after_events(
                    events@.skip(i as int),
                    now,
                ),
            decreases events.len() - i,
        {
            let event: PwmEvent = events[i];
            let ghost before = self@;
            let ghost rest = events@.skip(i as int);
            assert(rest[0] == event);
            assert(rest.drop_first() =~= events@.skip(i + 1));
            self.handle_event(event, now);
            if let PwmEvent::Shutdown = event {
                i = events.len();
                assert(events@.skip(i as int).len() == 0);
            } else {
                i = i + 1;
            }
        }
        assert(events@.skip(i as int).len() == 0);
        self.tick(now, timing)
    }
}

impl PwmModel {
    /// Messages and cycles keep a well-formed bridge well formed.
    pub proof fn lemma_wf_preserved(self, event: PwmEvent, now: u64, timing: PwmTiming)
        requires
            self.wf(),
        ensures
            self.after_event(event, now).wf(),
            self.after_tick(now, timing).wf(),
    {
    }

    /// A disarmed bridge ignores batches: the message changes nothing, and
    /// the next cycle writes the neutral pulse to every channel with the
    /// chip's outputs off.
    pub proof fn lemma_disarmed_ignores_batches(
        self,
        batch: ChannelBatch,
        now: u64,
        timing: PwmTiming,
    )
        requires
            self.wf(),
            self.armed == Armed::Disarmed,
        ensures
            self.after_event(PwmEvent::Batch(batch), now) == self,
            self.after_tick(now, timing).armed == Armed::Disarmed,
            PwmOutput::of(self, now, timing).pulses == neutral_pulses(),
            !PwmOutput::of(self, now, timing).output_enabled,
    {
    }

    /// Dead man: an armed bridge whose last arm message is older than
    /// `max_inactive` disarms in the next cycle, reports it, and writes the
    /// neutral pulse to every channel.
    pub proof fn lemma_dead_man(self, now: u64, timing: PwmTiming)
        requires
            self.armed == Armed::Armed,
            now - self.last_arm > timing.max_inactive,
        ensures
            self.after_tick(now, timing).armed == Armed::Disarmed,
            self.after_tick(now, timing).pulses == neutral_pulses(),
            PwmOutput::of(self, now, timing).inactivity,
            !PwmOutput::of(self, now, timing).output_enabled,
            PwmOutput::of(self, now, timing).pulses == neutral_pulses(),
    {
    }

    /// The inactivity report comes only with a disarm, and a bridge that
    /// heard an arm message within `max_inactive` stays armed.
    pub proof fn lemma_fresh_arm_holds(self, now: u64, timing: PwmTiming)
        requires
            self.armed == Armed::Armed,
            elapsed(self.last_arm, now) <= timing.max_inactive,
        ensures
            self.after_tick(now, timing).armed == Armed::Armed,
            !PwmOutput::of(self, now, timing).inactivity,
            PwmOutput::of(self, now, timing).output_enabled,
    {
    }

    /// Soft start: for `arming_duration` after the bridge went from disarmed
    /// to armed, every cycle writes the neutral pulse whatever was asked.
    pub proof fn lemma_soft_start(self, now: u64, timing: PwmTiming)
        requires
            elapsed(self.last_rearm, now) < timing.arming_duration,
        ensures
            PwmOutput::of(self, now, timing).pulses == neutral_pulses(),
    {
    }

    /// Past the soft start an armed bridge with a fresh arm message writes
    /// what the last batch asked.
    pub proof fn lemma_active_drives(self, now: u64, timing: PwmTiming)
        requires
            self.phase(now, timing) == PwmPhase::Active,
        ensures
            PwmOutput::of(self, now, timing).pulses == self.pulses,
            PwmOutput::of(self, now, timing).output_enabled,
    {
    }

    /// Only an arm message arms: any other message leaves a disarmed bridge
    /// disarmed.
    pub proof fn lemma_only_arm_arms(self, event: PwmEvent, now: u64)
        requires
            self.armed == Armed::Disarmed,
            self.after_event(event, now).armed == Armed::Armed,
        ensures
            event == PwmEvent::Arm(Armed::Armed),
            self.after_event(event, now).last_rearm == now,
    {
    }

    /// Batches are taken in the order in which they come, and the later
    /// replaces the earlier: of two batches in a row only the second counts.
    pub proof fn lemma_later_batch_replaces_earlier(
        self,
        first: ChannelBatch,
        second: ChannelBatch,
        now: u64,
        later: u64,
    )
        ensures
            self.after_event(PwmEvent::Batch(first), now).after_event(
                PwmEvent::Batch(second),
                later,
            ) == self.after_event(PwmEvent::Batch(second), later),
    {
    }

    /// Shutdown disarms and is final: no later message or cycle clears it.
    pub proof fn lemma_shutdown_is_final(self, event: PwmEvent, now: u64, timing: PwmTiming)
        ensures
            self.after_event(PwmEvent::Shutdown, now).shutdown,
            self.after_event(PwmEvent::Shutdown, now).armed == Armed::Disarmed,
            self.after_event(PwmEvent::Shutdown, now).pulses == neutral_pulses(),
            self.shutdown ==> self.after_event(event, now).shutdown,
            self.shutdown ==> self.after_tick(now, timing).shutdown,
    {
    }
}

impl ActuatorCommand {
    /// The command sets PWM channel `channel` of the vehicle `robot`.
    pub open spec fn drives_pwm(&self, robot: NetId, channel: int) -> bool {
        self.addressed_to(robot) && self.channel.0 == channel && 0 <= channel < 16
    }

    /// The pulse width the command asks for: its signal held to its range,
    /// cut to sixteen bits.
    pub open spec fn pwm_pulse(&self) -> u16 {
        self.clamped() as u16
    }
}

/// The pulse width that `commands` ask for on PWM channel `channel` of
/// `robot`: that of the last command for the channel, neutral where there
/// is none.
pub open spec fn wanted_pulse(robot: NetId, commands: Seq<ActuatorCommand>, channel: int) -> u16
    decreases commands.len(),
{
    if commands.len() == 0 {
        NEUTRAL_PULSE
    } else if commands.last().drives_pwm(robot, channel) {
        commands.last().pwm_pulse()
    } else {
        wanted_pulse(robot, commands.drop_last(), channel)
    }
}

/// With no command for the channel the wanted pulse is neutral.
pub proof fn lemma_unaddressed_channel_is_neutral(
    robot: NetId,
    commands: Seq<ActuatorCommand>,
    channel: int,
)
    requires
        forall|i: int| 0 <= i < commands.len() ==> !(#[trigger] commands[i]).drives_pwm(robot, channel),
    ensures
        wanted_pulse(robot, commands, channel) == NEUTRAL_PULSE,
    decreases commands.len(),
{
    if commands.len() > 0 {
        lemma_unaddressed_channel_is_neutral(robot, commands.drop_last(), channel);
    }
}

/// A wanted pulse that is not neutral by default lies in the range of the
/// command that set it.
pub proof fn lemma_wanted_pulse_comes_from_a_command(
    robot: NetId,
    commands: Seq<ActuatorCommand>,
    channel: int,
)
    ensures
        wanted_pulse(robot, commands, channel) == NEUTRAL_PULSE || exists|i: int|
            0 <= i < commands.len() && (#[trigger] commands[i]).drives_pwm(robot, channel)
                && wanted_pulse(robot, commands, channel) == commands[i].pwm_pulse(),
    decreases commands.len(),
{
    if commands.len() > 0 {
        if commands.last().drives_pwm(robot, channel) {
            assert(commands[commands.len() - 1].drives_pwm(robot, channel));
        } else {
            lemma_wanted_pulse_comes_from_a_command(robot, commands.drop_last(), channel);
            if wanted_pulse(robot, commands, channel) != NEUTRAL_PULSE {
                let i = choose|i: int|
                    0 <= i < commands.drop_last().len() && (#[trigger] commands.drop_last()[i]).drives_pwm(
                        robot,
                        channel,
                    ) && wanted_pulse(robot, commands.drop_last(), channel)
                        == commands.drop_last()[i].pwm_pulse();
                assert(commands[i] == commands.drop_last()[i]);
            }
        }
    }
}

/// The batch for the PWM bridge: for each channel the pulse that the
/// commands of `robot` ask for, neutral where none does.  Commands for
/// other vehicles and for DC channels are passed over.
pub fn pwm_batch(robot: NetId, commands: &Vec<ActuatorCommand>) -> (batch: ChannelBatch)
    requires
        all_routable(robot, commands@, ChannelKind::Pwm),
    ensures
        forall|channel: int|
            0 <= channel < 16 ==> batch@[channel] == wanted_pulse(robot, commands@, channel),
{
    let mut batch: ChannelBatch = [1500u16;16];
    let mut i: usize = 0;
    assert(commands@.take(0) =~= Seq::<ActuatorCommand>::empty());
    while i < commands.len()
        invariant
            i <= commands.len(),
            all_routable(robot, commands@, ChannelKind::Pwm),
            forall|channel: int|
                0 <= channel < 16 ==> batch@[channel] == wanted_pulse(
                    robot,
                    commands@.take(i as int),
                    channel,
                ),
        decreases commands.len() - i,
    {
        let command: ActuatorCommand = commands[i];
        let ghost prev = commands@.take(i as int);
        let ghost next = commands@.take(i + 1);
        assert(next.drop_last() =~= prev);
        assert(next.last() == command);
        if command.robot.belongs_to(robot) {
            assert(commands@[i as int].routable(ChannelKind::Pwm));
            if let LocalMotorId::PwmChannel(channel) = LocalMotorId::from_generic(command.channel) {
                let pwm: u16 = #[verifier::truncate]
                (command.range.clamp_raw(command.raw) as u16);
                let id: usize = channel.id() as usize;
                batch[id] = pwm;
            }
        }
        i = i + 1;
    }
    assert(commands@.take(i as int) =~= commands@);
    batch
}

} // verus!
