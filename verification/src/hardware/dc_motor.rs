//! The rules of the four-channel DC motor bridge: the start-up exchange with
//! the controller, the arm / disarm / dead-man state machine of the steady
//! state, the ping bookkeeping and the routing of telemetry.
//!
//! Packets are modelled here as plain values; what puts them on the wire is
//! the owner's business.  Times are microseconds on a clock that never runs
//! backwards.

use vstd::prelude::*;
use crate::components::identity::{Armed, NetId, RobotId};
use crate::components::motor::GenericMotorId;
use crate::hardware::clock::{elapsed, micros_since};
use crate::hardware::command::{all_routable, ActuatorCommand, ChannelKind};
use crate::hardware::motor_id_map::LocalMotorId;

verus! {

/// Number of channels of the controller.
pub const NUM_CHANNELS: usize = 4;

/// The mask that names every channel.
pub const ALL_MOTORS: u8 = 0x0F;

/// A signed speed for each channel, zero at rest.
pub type ChannelBatch = [i16; 4];

/// What the control loop sends to the bridge.
#[derive(Clone, Copy, Debug)]
pub enum DcMotorEvent {
    /// The vehicle's arming state, repeated every tick while it holds.
    Arm(Armed),
    /// The speeds wanted from now on.
    Batch(ChannelBatch),
    /// Stop driving and leave.
    Shutdown,
}

/// The arming command of the wire protocol.
#[derive(Clone, Copy, Debug, PartialEq, Eq, Structural)]
pub enum SetArmed {
    Disarmed,
    /// Armed for `duration` microseconds unless renewed.
    Armed { duration: u64 },
}

/// A packet from the host to the controller.
#[derive(Clone, Copy, Debug, PartialEq, Eq, Structural)]
pub enum PacketH2C {
    ReadProtocolVersion,
    SetArmed(SetArmed),
    /// Ask for telemetry of the channels in `motors` every `interval` microseconds.
    StartStream { motors: u8, interval: u64 },
    /// Set the speed of the channels in `motors`.
    SetSpeed { motors: u8, speed: i16 },
    Ping { id: u32 },
}

/// The state of one channel as the controller reports it.  `C` is the
/// controller's measure of current.
#[derive(Clone, Copy, Debug)]
pub struct MotorState<C> {
    pub motor_id: u8,
    pub current_draw: C,
}

/// A packet from the controller to the host.  `E` is what the controller
/// says of an error.
#[derive(Clone, Copy, Debug)]
pub enum PacketC2H<C, E> {
    ProtocolVersionResponse { version: u32 },
    Pong { id: u32 },
    MotorState(MotorState<C>),
    Error(E),
}

/// The mask that names channel `index` alone.
pub open spec fn channel_mask(index: int) -> u8 {
    if index == 0 {
        1
    } else if index == 1 {
        2
    } else if index == 2 {
        4
    } else {
        8
    }
}

/// Every channel at rest.
pub open spec fn stop_signals() -> Seq<i16> {
    Seq::new(4, |i: int| 0i16)
}

// ------------------------------------------------------------------ start-up

/// What to do with a packet that arrives during the start-up exchange.
#[derive(Clone, Copy, Debug, PartialEq, Eq, Structural)]
pub enum Handshake {
    /// Not the answer: ask for the protocol version again.
    Retry,
    /// The controller speaks the expected protocol: send the start-up packets.
    Connected,
    /// The controller speaks another protocol: the bridge cannot run.
    VersionMismatch,
}

/// The first packet of the exchange, sent again after every `Retry`.
pub fn handshake_request() -> (r: PacketH2C)
    ensures
        r == PacketH2C::ReadProtocolVersion,
{
    PacketH2C::ReadProtocolVersion
}

/// Judges the packet that came after a version request.
pub fn handshake_reply<C, E>(packet: &PacketC2H<C, E>, expected_version: u32) -> (r: Handshake)
    ensures
        r == (match *packet {
            PacketC2H::ProtocolVersionResponse { version } => if version == expected_version {
                Handshake::Connected
            } else {
                Handshake::VersionMismatch
            },
            _ => Handshake::Retry,
        }),
{
    match packet {
        PacketC2H::ProtocolVersionResponse { version } => {
            if *version == expected_version {
                Handshake::Connected
            } else {
                Handshake::VersionMismatch
            }
        },
        _ => Handshake::Retry,
    }
}

/// What the host sends once connected: disarm, stream telemetry of every
/// channel at the tick rate, stop every channel.
pub open spec fn spec_startup_packets(interval: u64) -> Seq<PacketH2C> {
    seq![
        PacketH2C::SetArmed(SetArmed::Disarmed),
        PacketH2C::StartStream { motors: ALL_MOTORS, interval },
        PacketH2C::SetSpeed { motors: ALL_MOTORS, speed: 0 },
    ]
}

/// The packets that follow a `Connected`, in the order in which they go out.
pub fn startup_packets(interval: u64) -> (r: Vec<PacketH2C>)
    ensures
        r@ == spec_startup_packets(interval),
{
    let mut packets: Vec<PacketH2C> = Vec::new();
    packets.push(PacketH2C::SetArmed(SetArmed::Disarmed));
    packets.push(PacketH2C::StartStream { motors: ALL_MOTORS, interval });
    packets.push(PacketH2C::SetSpeed { motors: ALL_MOTORS, speed: 0 });
    assert(packets@ =~= spec_startup_packets(interval));
    packets
}

// -------------------------------------------------------------- steady state

/// The state of a bridge as contracts see it.
pub struct DcModel {
    pub armed: Armed,
    /// The arming state last reported to the log.
    pub reported: Armed,
    pub signals: Seq<i16>,
    /// When the last arm message came.
    pub last_arm: u64,
    pub shutdown: bool,
}

/// What the bridge does in one cycle, as contracts see it.
pub struct DcOutputModel {
    pub packets: Seq<PacketH2C>,
    pub inactivity: bool,
    pub changed_to: Option<Armed>,
}

/// What the bridge does in one cycle.
#[derive(Debug)]
pub struct DcOutput {
    /// The packets to send, in order: the arming command, then one speed
    /// per channel.
    pub packets: Vec<PacketH2C>,
    /// The bridge disarmed itself in this cycle for want of an arm message.
    pub inactivity: bool,
    /// The arming state, where it differs from the one last reported.
    pub changed_to: Option<Armed>,
}

impl View for DcOutput {
    type V = DcOutputModel;

    open spec fn view(&self) -> DcOutputModel {
        DcOutputModel {
            packets: self.packets@,
            inactivity: self.inactivity,
            changed_to: self.changed_to,
        }
    }
}

impl DcModel {
    /// A disarmed bridge drives nothing.
    pub open spec fn wf(self) -> bool {
        &&& self.signals.len() == 4
        &&& self.armed == Armed::Disarmed ==> self.signals == stop_signals()
    }

    /// The state in which a bridge starts at time `now`.
    pub open spec fn initial(now: u64) -> DcModel {
        DcModel {
            armed: Armed::Disarmed,
            reported: Armed::Disarmed,
            signals: stop_signals(),
            last_arm: now,
            shutdown: false,
        }
    }

    /// The state after the message `event`, taken at time `now`.
    pub open spec fn after_event(self, event: DcMotorEvent, now: u64) -> DcModel {
        match event {
            DcMotorEvent::Arm(Armed::Armed) => DcModel {
                armed: Armed::Armed,
                last_arm: now,
                ..self
            },
            DcMotorEvent::Arm(Armed::Disarmed) => DcModel {
                armed: Armed::Disarmed,
                signals: stop_signals(),
                ..self
            },
            DcMotorEvent::Batch(batch) => DcModel {
                signals: if self.armed == Armed::Armed {
                    batch@
                } else {
                    stop_signals()
                },
                ..self
            },
            DcMotorEvent::Shutdown => DcModel {
                armed: Armed::Disarmed,
                signals: stop_signals(),
                shutdown: true,
                ..self
            },
        }
    }

    /// The state after the messages `events`, all taken at time `now`, up to
    /// and including the first `Shutdown`.
    pub open spec fn after_events(self, events: Seq<DcMotorEvent>, now: u64) -> DcModel
        decreases events.len(),
    {
        if events.len() == 0 {
            self
        } else if events[0] is Shutdown {
            self.after_event(events[0], now)
        } else {
            self.after_event(events[0], now).after_events(events.drop_first(), now)
        }
    }

    /// The state once the control loop has hung up: the bridge leaves after
    /// this cycle.
    pub open spec fn after_hangup(self) -> DcModel {
        DcModel { shutdown: true, ..self }
    }

    /// The dead-man rule applies: armed, and the last arm message is older
    /// than `max_inactive`.
    pub open spec fn timed_out(self, now: u64, max_inactive: u64) -> bool {
        self.armed == Armed::Armed && elapsed(self.last_arm, now) > max_inactive
    }

    /// The arming state after the dead-man rule.
    pub open spec fn armed_at(self, now: u64, max_inactive: u64) -> Armed {
        if self.timed_out(now, max_inactive) {
            Armed::Disarmed
        } else {
            self.armed
        }
    }

    /// The speeds held after the cycle at `now`.
    pub open spec fn signals_at(self, now: u64, max_inactive: u64) -> Seq<i16> {
        if self.armed_at(now, max_inactive) == Armed::Disarmed {
            stop_signals()
        } else {
            self.signals
        }
    }

    /// The state after the cycle at `now`.
    pub open spec fn after_tick(self, now: u64, max_inactive: u64) -> DcModel {
        DcModel {
            armed: self.armed_at(now, max_inactive),
            reported: self.armed_at(now, max_inactive),
            signals: self.signals_at(now, max_inactive),
            ..self
        }
    }

    /// The arming command of the cycle at `now`: an armed bridge renews the
    /// controller's own dead man for `max_inactive`.
    pub open spec fn arm_command(self, now: u64, max_inactive: u64) -> SetArmed {
        if self.armed_at(now, max_inactive) == Armed::Armed {
            SetArmed::Armed { duration: max_inactive }
        } else {
            SetArmed::Disarmed
        }
    }

    /// The packets of the cycle at `now`: the arming command, then the speed
    /// of each channel by itself, channel 0 first.
    pub open spec fn packets_at(self, now: u64, max_inactive: u64) -> Seq<PacketH2C> {
        let signals = self.signals_at(now, max_inactive);
        seq![
            PacketH2C::SetArmed(self.arm_command(now, max_inactive)),
            PacketH2C::SetSpeed { motors: 1, speed: signals[0] },
            PacketH2C::SetSpeed { motors: 2, speed: signals[1] },
            PacketH2C::SetSpeed { motors: 4, speed: signals[2] },
            PacketH2C::SetSpeed { motors: 8, speed: signals[3] },
        ]
    }

    /// What the bridge does in the cycle at `now`.
    pub open spec fn output_at(self, now: u64, max_inactive: u64) -> DcOutputModel {
        DcOutputModel {
            packets: self.packets_at(now, max_inactive),
            inactivity: self.timed_out(now, max_inactive),
            changed_to: if self.armed_at(now, max_inactive) != self.reported {
                Some(self.armed_at(now, max_inactive))
            } else {
                None
            },
        }
    }
}

/// The bridge between the control loop and the DC motor controller.
#[derive(Clone, Copy, Debug)]
pub struct DcBridge {
    armed: Armed,
    last_armed: Armed,
    channel_signals: ChannelBatch,
    last_arm_timestamp: u64,
    do_shutdown: bool,
}

impl View for DcBridge {
    type V = DcModel;

    closed spec fn view(&self) -> DcModel {
        DcModel {
            armed: self.armed,
            reported: self.last_armed,
            signals: self.channel_signals@,
            last_arm: self.last_arm_timestamp,
            shutdown: self.do_shutdown,
        }
    }
}

impl DcBridge {
    #[verifier::type_invariant]
    spec fn inv(self) -> bool {
        self@.wf()
    }

    /// A disarmed bridge with every channel at rest.
    pub fn new(now: u64) -> (r: Self)
        ensures
            r@ == DcModel::initial(now),
            r@.wf(),
    {
        let stop: ChannelBatch = [0i16;4];
        assert(stop@ =~= stop_signals());
        DcBridge {
            armed: Armed::Disarmed,
            last_armed: Armed::Disarmed,
            channel_signals: stop,
            last_arm_timestamp: now,
            do_shutdown: false,
        }
    }

    /// The arming state.
    pub fn armed(&self) -> (r: Armed)
        ensures
            r == self@.armed,
    {
        self.armed
    }

    /// The speeds currently held.
    pub fn channel_signals(&self) -> (r: ChannelBatch)
        ensures
            r@ == self@.signals,
            self@.wf(),
    {
        proof {
            use_type_invariant(self);
        }
        self.channel_signals
    }

    /// Whether the bridge is to leave after this cycle.
    pub fn is_shut_down(&self) -> (r: bool)
        ensures
            r == self@.shutdown,
    {
        self.do_shutdown
    }

    /// Takes one message of the control loop at time `now`.
    pub fn handle_event(&mut self, event: DcMotorEvent, now: u64)
        ensures
            final(self)@ == old(self)@.after_event(event, now),
            final(self)@.wf(),
    {
        proof {
            use_type_invariant(&*self);
        }
        let stop: ChannelBatch = [0i16;4];
        assert(stop@ =~= stop_signals());
        match event {
            DcMotorEvent::Arm(Armed::Armed) => {
                *self = DcBridge {
                    armed: Armed::Armed,
                    last_armed: self.last_armed,
                    channel_signals: self.channel_signals,
                    last_arm_timestamp: now,
                    do_shutdown: self.do_shutdown,
                };
            },
            DcMotorEvent::Arm(Armed::Disarmed) => {
                *self = DcBridge {
                    armed: Armed::Disarmed,
                    last_armed: self.last_armed,
                    channel_signals: stop,
                    last_arm_timestamp: self.last_arm_timestamp,
                    do_shutdown: self.do_shutdown,
                };
            },
            DcMotorEvent::Batch(new_channel_signals) => {
                if self.armed.is_armed() {
                    self.channel_signals = new_channel_signals;
                } else {
                    self.channel_signals = stop;
                }
            },
            DcMotorEvent::Shutdown => {
                *self = DcBridge {
                    armed: Armed::Disarmed,
                    last_armed: self.last_armed,
                    channel_signals: stop,
                    last_arm_timestamp: self.last_arm_timestamp,
                    do_shutdown: true,
                };
            },
        }
    }

    /// Notes that the control loop has hung up: the bridge leaves after this
    /// cycle, which still runs.
    pub fn handle_hangup(&mut self)
        ensures
            final(self)@ == old(self)@.after_hangup(),
            final(self)@.wf(),
    {
        proof {
            use_type_invariant(&*self);
        }
        self.do_shutdown = true;
    }

    /// Ends a cycle at time `now`: applies the dead-man rule and says what
    /// to send to the controller.
    pub fn tick(&mut self, now: u64, max_inactive: u64) -> (out: DcOutput)
        ensures
            final(self)@ == old(self)@.after_tick(now, max_inactive),
            final(self)@.wf(),
            out@ == old(self)@.output_at(now, max_inactive),
    {
        proof {
            use_type_invariant(&*self);
        }
        let stop: ChannelBatch = [0i16;4];
        assert(stop@ =~= stop_signals());
        let mut armed: Armed = self.armed;
        let mut channel_signals: ChannelBatch = self.channel_signals;
        let mut inactivity: bool = false;

        if armed.is_armed() && micros_since(self.last_arm_timestamp, now) > max_inactive {
            inactivity = true;
            armed = Armed::Disarmed;
            channel_signals = stop;
        }
        let command: SetArmed = if armed.is_armed() {
            SetArmed::Armed { duration: max_inactive }
        } else {
            channel_signals = stop;
            SetArmed::Disarmed
        };
        let mut packets: Vec<PacketH2C> = Vec::new();
        packets.push(PacketH2C::SetArmed(command));
        packets.push(PacketH2C::SetSpeed { motors: 1, speed: channel_signals[0] });
        packets.push(PacketH2C::SetSpeed { motors: 2, speed: channel_signals[1] });
        packets.push(PacketH2C::SetSpeed { motors: 4, speed: channel_signals[2] });
        packets.push(PacketH2C::SetSpeed { motors: 8, speed: channel_signals[3] });
        let changed_to: Option<Armed> = if self.last_armed.is_armed() != armed.is_armed() {
            Some(armed)
        } else {
            None
        };
        assert(packets@ =~= old(self)@.packets_at(now, max_inactive));
        *self = DcBridge {
            armed,
            last_armed: armed,
            channel_signals,
            last_arm_timestamp: self.last_arm_timestamp,
            do_shutdown: self.do_shutdown,
        };
        DcOutput { packets, inactivity, changed_to }
    }

    /// One whole cycle at time `now`: takes the waiting messages in order, up
    /// to the first `Shutdown`, notes a hang-up of the control loop, then ends
    /// the cycle as `tick` does.
    pub fn run_cycle(
        &mut self,
        events: &Vec<DcMotorEvent>,
        hung_up: bool,
        now: u64,
        max_inactive: u64,
    ) -> (out: DcOutput)
        ensures
            final(self)@ == Self::spec_drained(old(self)@, events@, hung_up, now).after_tick(
                now,
                max_inactive,
            ),
            final(self)@.wf(),
            out@ == Self::spec_drained(old(self)@, events@, hung_up, now).output_at(
                now,
                max_inactive,
            ),
    {
        let mut i: usize = 0;
        assert(events@.skip(0) =~= events@);
        while i < events.len()
            invariant
                i <= events.len(),
                old(self)@.after_events(events@, now) == self@.after_events(
                    events@.skip(i as int),
                    now,
                ),
            decreases events.len() - i,
        {
            let event: DcMotorEvent = events[i];
            let ghost rest = events@.skip(i as int);
            assert(rest[0] == event);
            assert(rest.drop_first() =~= events@.skip(i + 1));
            self.handle_event(event, now);
            if let DcMotorEvent::Shutdown = event {
                i = events.len();
                assert(events@.skip(i as int).len() == 0);
            } else {
                i = i + 1;
            }
        }
        assert(events@.skip(i as int).len() == 0);
        if hung_up {
            self.handle_hangup();
        }
        self.tick(now, max_inactive)
    }

    /// The state after the waiting messages and a possible hang-up.
    pub open spec fn spec_drained(
        before: DcModel,
        events: Seq<DcMotorEvent>,
        hung_up: bool,
        now: u64,
    ) -> DcModel {
        if hung_up {
            before.after_events(events, now).after_hangup()
        } else {
            before.after_events(events, now)
        }
    }
}

impl DcModel {
    /// Messages, a hang-up and cycles keep a well-formed bridge well formed.
    pub proof fn lemma_wf_preserved(self, event: DcMotorEvent, now: u64, max_inactive: u64)
        requires
            self.wf(),
        ensures
            self.after_event(event, now).wf(),
            self.after_hangup().wf(),
            self.after_tick(now, max_inactive).wf(),
    {
    }

    /// A disarmed bridge ignores batches: the message changes nothing, and
    /// the next cycle disarms the controller and sets every speed to zero.
    pub proof fn lemma_disarmed_ignores_batches(
        self,
        batch: ChannelBatch,
        now: u64,
        max_inactive: u64,
    )
        requires
            self.wf(),
            self.armed == Armed::Disarmed,
        ensures
            self.after_event(DcMotorEvent::Batch(batch), now) == self,
            self.after_tick(now, max_inactive).armed == Armed::Disarmed,
            self.packets_at(now, max_inactive)[0] == PacketH2C::SetArmed(SetArmed::Disarmed),
            forall|i: int|
                1 <= i < 5 ==> (#[trigger] self.packets_at(now, max_inactive)[i])
                    == (PacketH2C::SetSpeed { motors: channel_mask(i - 1), speed: 0 }),
    {
    }

    /// Dead man: an armed bridge whose last arm message is older than
    /// `max_inactive` disarms in the next cycle, reports it, disarms the
    /// controller and sets every speed to zero.
    pub proof fn lemma_dead_man(self, now: u64, max_inactive: u64)
        requires
            self.armed == Armed::Armed,
            now - self.last_arm > max_inactive,
        ensures
            self.after_tick(now, max_inactive).armed == Armed::Disarmed,
            self.after_tick(now, max_inactive).signals == stop_signals(),
            self.output_at(now, max_inactive).inactivity,
            self.packets_at(now, max_inactive)[0] == PacketH2C::SetArmed(SetArmed::Disarmed),
            forall|i: int|
                1 <= i < 5 ==> (#[trigger] self.packets_at(now, max_inactive)[i])
                    == (PacketH2C::SetSpeed { motors: channel_mask(i - 1), speed: 0 }),
    {
    }

    /// An armed bridge that heard an arm message within `max_inactive` stays
    /// armed, renews the controller's arming and sends each channel the
    /// speed that the last batch asked.
    pub proof fn lemma_fresh_arm_drives(self, now: u64, max_inactive: u64)
        requires
            self.armed == Armed::Armed,
            elapsed(self.last_arm, now) <= max_inactive,
        ensures
            self.after_tick(now, max_inactive).armed == Armed::Armed,
            !self.output_at(now, max_inactive).inactivity,
            self.packets_at(now, max_inactive)[0] == PacketH2C::SetArmed(
                SetArmed::Armed { duration: max_inactive },
            ),
            forall|i: int|
                1 <= i < 5 ==> (#[trigger] self.packets_at(now, max_inactive)[i])
                    == (PacketH2C::SetSpeed { motors: channel_mask(i - 1), speed: self.signals[i - 1] }),
    {
    }

    /// Batches are taken in the order in which they come, and the later
    /// replaces the earlier: of two batches in a row only the second counts.
    pub proof fn lemma_later_batch_replaces_earlier(
        self,
        first: ChannelBatch,
        second: ChannelBatch,
        now: u64,
        later: u64,
    )
        ensures
            self.after_event(DcMotorEvent::Batch(first), now).after_event(
                DcMotorEvent::Batch(second),
                later,
            ) == self.after_event(DcMotorEvent::Batch(second), later),
    {
    }

    /// Only an arm message arms: any other message leaves a disarmed bridge
    /// disarmed.
    pub proof fn lemma_only_arm_arms(self, event: DcMotorEvent, now: u64)
        requires
            self.armed == Armed::Disarmed,
            self.after_event(event, now).armed == Armed::Armed,
        ensures
            event == DcMotorEvent::Arm(Armed::Armed),
            self.after_event(event, now).last_arm == now,
    {
    }

    /// Shutdown disarms and is final: no later message or cycle clears it.
    pub proof fn lemma_shutdown_is_final(self, event: DcMotorEvent, now: u64, max_inactive: u64)
        ensures
            self.after_event(DcMotorEvent::Shutdown, now).shutdown,
            self.after_event(DcMotorEvent::Shutdown, now).armed == Armed::Disarmed,
            self.after_event(DcMotorEvent::Shutdown, now).signals == stop_signals(),
            self.shutdown ==> self.after_event(event, now).shutdown,
            self.shutdown ==> self.after_tick(now, max_inactive).shutdown,
    {
    }
}

// --------------------------------------------------------------------- batch

impl ActuatorCommand {
    /// The command sets DC channel `channel` of the vehicle `robot`.
    pub open spec fn drives_dc(&self, robot: NetId, channel: int) -> bool {
        self.addressed_to(robot) && self.channel.0 == channel + 128 && 0 <= channel < 4
    }

    /// The speed the command asks for: its signal held to its range, cut to
    /// sixteen bits.
    pub open spec fn dc_speed(&self) -> i16 {
        self.clamped() as i16
    }
}

/// The speed that `commands` ask for on DC channel `channel` of `robot`:
/// that of the last command for the channel, zero where there is none.
pub open spec fn wanted_speed(robot: NetId, commands: Seq<ActuatorCommand>, channel: int) -> i16
    decreases commands.len(),
{
    if commands.len() == 0 {
        0
    } else if commands.last().drives_dc(robot, channel) {
        commands.last().dc_speed()
    } else {
        wanted_speed(robot, commands.drop_last(), channel)
    }
}

/// With no command for the channel the wanted speed is zero.
pub proof fn lemma_unaddressed_channel_is_stopped(
    robot: NetId,
    commands: Seq<ActuatorCommand>,
    channel: int,
)
    requires
        forall|i: int| 0 <= i < commands.len() ==> !(#[trigger] commands[i]).drives_dc(robot, channel),
    ensures
        wanted_speed(robot, commands, channel) == 0,
    decreases commands.len(),
{
    if commands.len() > 0 {
        lemma_unaddressed_channel_is_stopped(robot, commands.drop_last(), channel);
    }
}

/// The batch for the DC bridge: for each channel the speed that the commands
/// of `robot` ask for, zero where none does.  Commands for other vehicles and
/// for PWM channels are passed over.
pub fn dc_batch(robot: NetId, commands: &Vec<ActuatorCommand>) -> (batch: ChannelBatch)
    requires
        all_routable(robot, commands@, ChannelKind::Dc),
    ensures
        forall|channel: int|
            0 <= channel < 4 ==> batch@[channel] == wanted_speed(robot, commands@, channel),
{
    let mut batch: ChannelBatch = [0i16;4];
    let mut i: usize = 0;
    assert(commands@.take(0) =~= Seq::<ActuatorCommand>::empty());
    while i < commands.len()
        invariant
            i <= commands.len(),
            all_routable(robot, commands@, ChannelKind::Dc),
            forall|channel: int|
                0 <= channel < 4 ==> batch@[channel] == wanted_speed(
                    robot,
                    commands@.take(i as int),
                    channel,
                ),
        decreases commands.len() - i,
    {
        let command: ActuatorCommand = commands[i];
        let ghost prev = commands@.take(i as int);
        let ghost next = commands@.take(i + 1);
        assert(next.drop_last() =~= prev);
        assert(next.last() == command);
        if command.robot.belongs_to(robot) {
            assert(commands@[i as int].routable(ChannelKind::Dc));
            if let LocalMotorId::DcChannel(channel) = LocalMotorId::from_generic(command.channel) {
                let output: i16 = #[verifier::truncate]
                (command.range.clamp_raw(command.raw) as i16);
                let id: usize = channel.id() as usize;
                batch[id] = output;
            }
        }
        i = i + 1;
    }
    assert(commands@.take(i as int) =~= commands@);
    batch
}

// ---------------------------------------------------------------------- ping

/// The identifier of the first ping.
pub const FIRST_PING_ID: u32 = 100;

/// What a packet means to a ping that waits for its answer.
#[derive(Clone, Copy, Debug, PartialEq, Eq, Structural)]
pub enum PingReply {
    /// Not a pong: keep waiting until the deadline.
    Waiting,
    /// The pong of this ping.
    Acked,
    /// The pong of another ping: this one counts as unanswered.
    Mismatched,
}

/// Bookkeeping of the pings that check the link to the controller.
#[derive(Clone, Copy, Debug)]
pub struct PingTracker {
    tx_id: u32,
    un_acked_pings: u32,
}

impl PingTracker {
    /// The identifier of the ping in flight, or of the next one.
    pub closed spec fn spec_tx_id(&self) -> u32 {
        self.tx_id
    }

    /// How many pings in a row went unanswered.
    pub closed spec fn spec_un_acked(&self) -> u32 {
        self.un_acked_pings
    }

    /// A tracker that has sent nothing yet.
    pub fn new() -> (r: Self)
        ensures
            r.spec_tx_id() == FIRST_PING_ID,
            r.spec_un_acked() == 0,
    {
        PingTracker { tx_id: FIRST_PING_ID, un_acked_pings: 0 }
    }

    /// The identifier of the ping in flight, or of the next one.
    #[verifier::when_used_as_spec(spec_tx_id)]
    pub fn tx_id(&self) -> (r: u32)
        ensures
            r == self.spec_tx_id(),
    {
        self.tx_id
    }

    /// How many pings in a row went unanswered.
    #[verifier::when_used_as_spec(spec_un_acked)]
    pub fn un_acked_pings(&self) -> (r: u32)
        ensures
            r == self.spec_un_acked(),
    {
        self.un_acked_pings
    }

    /// The ping to send now.
    pub fn ping(&self) -> (r: PacketH2C)
        ensures
            r == (PacketH2C::Ping { id: self.spec_tx_id() }),
    {
        PacketH2C::Ping { id: self.tx_id }
    }

    /// Judges a packet that arrived while the ping waits: the first pong
    /// decides, by its identifier; anything else leaves the ping waiting.
    pub fn classify<C, E>(&self, packet: &PacketC2H<C, E>) -> (r: PingReply)
        ensures
            r == (match *packet {
                PacketC2H::Pong { id } => if id == self.spec_tx_id() {
                    PingReply::Acked
                } else {
                    PingReply::Mismatched
                },
                _ => PingReply::Waiting,
            }),
    {
        match packet {
            PacketC2H::Pong { id } => {
                if *id == self.tx_id {
                    PingReply::Acked
                } else {
                    PingReply::Mismatched
                }
            },
            _ => PingReply::Waiting,
        }
    }

    /// Closes the ping in flight.  An answered ping clears the count of
    /// unanswered ones, an unanswered one adds to it (the count stops at its
    /// largest value); the identifier moves on by one, wrapping round.
    pub fn conclude(&mut self, acked: bool)
        ensures
            final(self).spec_tx_id() == (if old(self).spec_tx_id() == u32::MAX {
                0u32
            } else {
                (old(self).spec_tx_id() + 1) as u32
            }),
            final(self).spec_un_acked() == (if acked {
                0u32
            } else if old(self).spec_un_acked() == u32::MAX {
                u32::MAX
            } else {
                (old(self).spec_un_acked() + 1) as u32
            }),
    {
        if acked {
            self.un_acked_pings = 0;
        } else if self.un_acked_pings < u32::MAX {
            self.un_acked_pings = self.un_acked_pings + 1;
        }
        if self.tx_id == u32::MAX {
            self.tx_id = 0;
        } else {
            self.tx_id = self.tx_id + 1;
        }
    }
}

/// Whether a ping sent at `sent` has waited longer than `max_latency` at
/// `now`.
pub fn ping_expired(sent: u64, now: u64, max_latency: u64) -> (r: bool)
    ensures
        r == (now - sent > max_latency),
{
    now > sent && now - sent > max_latency
}

// ----------------------------------------------------------------- telemetry

/// What to do with a packet on the telemetry path.
#[derive(Clone, Copy, Debug, PartialEq, Eq, Structural)]
pub enum Telemetry {
    /// A channel's state: hand it to the control loop.
    Forward,
    /// The controller reports an error: raise it.
    Report,
    /// Not for this path.
    Ignore,
}

/// Sorts a packet on the telemetry path.
pub fn classify_telemetry<C, E>(packet: &PacketC2H<C, E>) -> (r: Telemetry)
    ensures
        r == (match *packet {
            PacketC2H::MotorState(_) => Telemetry::Forward,
            PacketC2H::Error(_) => Telemetry::Report,
            _ => Telemetry::Ignore,
        }),
{
    match packet {
        PacketC2H::MotorState(_) => Telemetry::Forward,
        PacketC2H::Error(_) => Telemetry::Report,
        _ => Telemetry::Ignore,
    }
}

/// The actuator `(robot, channel)` is DC channel `motor_id` of the vehicle
/// `local`.
pub open spec fn reports_on(actuator: (RobotId, GenericMotorId), local: NetId, motor_id: u8) -> bool {
    actuator.0.0 == local && actuator.1.0 == motor_id + 128 && motor_id < 4
}

/// Every actuator of the vehicle `local` that the search for DC channel
/// `motor_id` looks at names a channel: each up to the first that is that
/// channel.
pub open spec fn searchable(
    local: NetId,
    actuators: Seq<(RobotId, GenericMotorId)>,
    motor_id: u8,
) -> bool {
    forall|i: int|
        0 <= i < actuators.len() && (#[trigger] actuators[i]).0.0 == local && (forall|j: int|
            0 <= j < i ==> !reports_on(#[trigger] actuators[j], local, motor_id))
            ==> LocalMotorId::decodable(actuators[i].1)
}

/// Runtime test of `searchable`.
pub fn check_searchable(
    local: NetId,
    actuators: &Vec<(RobotId, GenericMotorId)>,
    motor_id: u8,
) -> (r: bool)
    ensures
        r == searchable(local, actuators@, motor_id),
{
    let mut i: usize = 0;
    while i < actuators.len()
        invariant
            i <= actuators.len(),
            forall|j: int| 0 <= j < i ==> !reports_on(#[trigger] actuators[j], local, motor_id),
            forall|j: int|
                0 <= j < i && (#[trigger] actuators[j]).0.0 == local ==> LocalMotorId::decodable(
                    actuators[j].1,
                ),
        decreases actuators.len() - i,
    {
        let robot: RobotId = actuators[i].0;
        let channel: GenericMotorId = actuators[i].1;
        if robot.belongs_to(local) {
            match LocalMotorId::try_from_generic(channel) {
                None => {
                    return false;
                },
                Some(LocalMotorId::DcChannel(ch)) => {
                    if ch.id() == motor_id {
                        assert(reports_on(actuators@[i as int], local, motor_id));
                        assert forall|k: int|
                            0 <= k < actuators.len() && (#[trigger] actuators[k]).0.0 == local && (
                            forall|j: int|
                                0 <= j < k ==> !reports_on(
                                    #[trigger] actuators[j],
                                    local,
                                    motor_id,
                                )) implies LocalMotorId::decodable(actuators[k].1) by {
                            if k > i {
                                assert(reports_on(actuators[i as int], local, motor_id));
                            }
                        }
                        return true;
                    }
                },
                Some(LocalMotorId::PwmChannel(_)) => {},
            }
        }
        i = i + 1;
    }
    true
}

/// The actuator that a channel's telemetry is about: the first in
/// `actuators` that is DC channel `motor_id` of the vehicle `local`, by its
/// index; `None` where there is none.
pub fn telemetry_target(
    local: NetId,
    actuators: &Vec<(RobotId, GenericMotorId)>,
    motor_id: u8,
) -> (r: Option<usize>)
    requires
        searchable(local, actuators@, motor_id),
    ensures
        r matches Some(i) ==> i < actuators.len() && reports_on(actuators[i as int], local, motor_id)
            && forall|j: int| 0 <= j < i ==> !reports_on(#[trigger] actuators[j], local, motor_id),
        r is None ==> forall|j: int|
            0 <= j < actuators.len() ==> !reports_on(#[trigger] actuators[j], local, motor_id),
{
    let mut i: usize = 0;
    while i < actuators.len()
        invariant
            i <= actuators.len(),
            searchable(local, actuators@, motor_id),
            forall|j: int| 0 <= j < i ==> !reports_on(#[trigger] actuators[j], local, motor_id),
        decreases actuators.len() - i,
    {
        let robot: RobotId = actuators[i].0;
        let channel: GenericMotorId = actuators[i].1;
        if robot.belongs_to(local) {
            assert(actuators@[i as int].0.0 == local);
            if let LocalMotorId::DcChannel(ch) = LocalMotorId::from_generic(channel) {
                if ch.id() == motor_id {
                    return Some(i);
                }
            }
        }
        i = i + 1;
    }
    None
}

} // verus!
