use rov_control::components::identity::{Armed, NetId, RobotId};
use rov_control::components::motor::{GenericMotorId, MotorRawSignalRange};
use rov_control::hardware::command::{check_routable, ActuatorCommand, ChannelKind};
use rov_control::hardware::clock::micros_since;
use rov_control::hardware::pwm::{pwm_batch, PwmBridge, PwmEvent, PwmPhase, PwmTiming};

const NEUTRAL: [u16; 16] = [1500; 16];
const MS: u64 = 1_000;

fn timing() -> PwmTiming {
    PwmBridge::default_timing()
}

fn ramp() -> [u16; 16] {
    let mut batch = [0u16; 16];
    for (i, pulse) in batch.iter_mut().enumerate() {
        *pulse = 1100 + 50 * i as u16;
    }
    batch
}

/// Arms at `start` and keeps arming every 10 ms until `until`, so that the
/// soft start is over and the dead man quiet.
fn armed_and_running(start: u64, until: u64) -> PwmBridge {
    let mut bridge = PwmBridge::new(start);
    let mut now = start;
    while now <= until {
        bridge.handle_event(PwmEvent::Arm(Armed::Armed), now);
        bridge.tick(now, &timing());
        now += 10 * MS;
    }
    bridge
}

#[test]
fn default_timing_is_100ms_and_1500ms() {
    let t = timing();
    assert_eq!(t.max_inactive, 100_000);
    assert_eq!(t.arming_duration, 1_500_000);
}

#[test]
fn new_bridge_is_disarmed_and_neutral() {
    let mut bridge = PwmBridge::new(0);
    assert_eq!(bridge.armed(), Armed::Disarmed);
    assert_eq!(bridge.channel_pwms(), NEUTRAL);
    assert!(!bridge.is_shut_down());
    let out = bridge.tick(0, &timing());
    assert!(!out.output_enabled);
    assert_eq!(out.pulses, NEUTRAL);
    assert!(!out.inactivity);
    assert_eq!(out.changed_to, None);
}

#[test]
fn disarmed_bridge_ignores_batches() {
    let mut bridge = PwmBridge::new(0);
    bridge.handle_event(PwmEvent::Batch(ramp()), 5 * MS);
    assert_eq!(bridge.channel_pwms(), NEUTRAL);
    let out = bridge.tick(10 * MS, &timing());
    assert!(!out.output_enabled);
    assert_eq!(out.pulses, NEUTRAL);
    assert_eq!(bridge.armed(), Armed::Disarmed);
}

#[test]
fn soft_start_holds_neutral_for_1500ms() {
    let mut bridge = PwmBridge::new(0);
    let mut now = 0;
    // 1.49 s of arming and batches: always neutral.
    while now < 1_500 * MS {
        bridge.handle_event(PwmEvent::Arm(Armed::Armed), now);
        bridge.handle_event(PwmEvent::Batch(ramp()), now);
        let out = bridge.tick(now, &timing());
        assert!(out.output_enabled);
        assert_eq!(out.pulses, NEUTRAL, "at {now} us");
        now += 10 * MS;
    }
    // At 1.5 s the soft start is over.
    bridge.handle_event(PwmEvent::Arm(Armed::Armed), now);
    bridge.handle_event(PwmEvent::Batch(ramp()), now);
    let out = bridge.tick(now, &timing());
    assert!(out.output_enabled);
    assert_eq!(out.pulses, ramp());
}

#[test]
fn soft_start_swallows_the_batch_it_covers() {
    let mut bridge = PwmBridge::new(0);
    bridge.handle_event(PwmEvent::Arm(Armed::Armed), 0);
    bridge.handle_event(PwmEvent::Batch(ramp()), 0);
    bridge.tick(0, &timing());
    // The batch was overwritten by the soft start; no new batch comes.
    assert_eq!(bridge.channel_pwms(), NEUTRAL);
}

#[test]
fn arming_is_reported_once() {
    let mut bridge = PwmBridge::new(0);
    bridge.handle_event(PwmEvent::Arm(Armed::Armed), 0);
    assert_eq!(bridge.tick(0, &timing()).changed_to, Some(Armed::Armed));
    bridge.handle_event(PwmEvent::Arm(Armed::Armed), 10 * MS);
    assert_eq!(bridge.tick(10 * MS, &timing()).changed_to, None);
    bridge.handle_event(PwmEvent::Arm(Armed::Disarmed), 20 * MS);
    assert_eq!(bridge.tick(20 * MS, &timing()).changed_to, Some(Armed::Disarmed));
}

#[test]
fn dead_man_disarms_after_120ms_of_silence() {
    let t0 = 2_000 * MS;
    let mut bridge = armed_and_running(0, t0);
    bridge.handle_event(PwmEvent::Batch(ramp()), t0);
    let out = bridge.tick(t0, &timing());
    assert!(out.output_enabled);
    assert_eq!(out.pulses, ramp());

    // 100 ms of silence is still within the limit.
    let out = bridge.tick(t0 + 100 * MS, &timing());
    assert!(!out.inactivity);
    assert!(out.output_enabled);
    assert_eq!(out.pulses, ramp());

    // 120 ms is not.
    let out = bridge.tick(t0 + 120 * MS, &timing());
    assert!(out.inactivity);
    assert!(!out.output_enabled);
    assert_eq!(out.pulses, NEUTRAL);
    assert_eq!(out.changed_to, Some(Armed::Disarmed));
    assert_eq!(bridge.armed(), Armed::Disarmed);

    // Later batches are ignored and the error is not repeated.
    bridge.handle_event(PwmEvent::Batch(ramp()), t0 + 130 * MS);
    let out = bridge.tick(t0 + 130 * MS, &timing());
    assert!(!out.inactivity);
    assert!(!out.output_enabled);
    assert_eq!(out.pulses, NEUTRAL);
}

#[test]
fn dead_man_limit_is_exclusive() {
    let t0 = 2_000 * MS;
    let mut bridge = armed_and_running(0, t0);
    let out = bridge.tick(t0 + 100_000, &timing());
    assert!(!out.inactivity);
    let out = bridge.tick(t0 + 100_001, &timing());
    assert!(out.inactivity);
}

#[test]
fn rearming_after_dead_man_soft_starts_again() {
    let t0 = 2_000 * MS;
    let mut bridge = armed_and_running(0, t0);
    bridge.tick(t0 + 200 * MS, &timing());
    assert_eq!(bridge.armed(), Armed::Disarmed);
    let t1 = t0 + 300 * MS;
    bridge.handle_event(PwmEvent::Arm(Armed::Armed), t1);
    bridge.handle_event(PwmEvent::Batch(ramp()), t1);
    let out = bridge.tick(t1, &timing());
    assert!(out.output_enabled);
    assert_eq!(out.pulses, NEUTRAL);
}

#[test]
fn disarm_message_stops_at_once() {
    let t0 = 2_000 * MS;
    let mut bridge = armed_and_running(0, t0);
    bridge.handle_event(PwmEvent::Batch(ramp()), t0);
    bridge.handle_event(PwmEvent::Arm(Armed::Disarmed), t0);
    assert_eq!(bridge.channel_pwms(), NEUTRAL);
    let out = bridge.tick(t0, &timing());
    assert!(!out.output_enabled);
    assert!(!out.inactivity);
    assert_eq!(out.pulses, NEUTRAL);
}

#[test]
fn shutdown_disarms_and_is_final() {
    let t0 = 2_000 * MS;
    let mut bridge = armed_and_running(0, t0);
    bridge.handle_event(PwmEvent::Shutdown, t0);
    assert!(bridge.is_shut_down());
    assert_eq!(bridge.armed(), Armed::Disarmed);
    let out = bridge.tick(t0, &timing());
    assert!(!out.output_enabled);
    assert_eq!(out.pulses, NEUTRAL);
    bridge.handle_event(PwmEvent::Arm(Armed::Armed), t0);
    assert!(bridge.is_shut_down());
}

#[test]
fn cycle_stops_reading_at_shutdown() {
    let t0 = 2_000 * MS;
    let mut bridge = armed_and_running(0, t0);
    let events = vec![
        PwmEvent::Arm(Armed::Armed),
        PwmEvent::Batch(ramp()),
        PwmEvent::Shutdown,
        PwmEvent::Arm(Armed::Armed),
        PwmEvent::Batch(ramp()),
    ];
    let out = bridge.run_cycle(&events, t0, &timing());
    assert!(bridge.is_shut_down());
    assert_eq!(bridge.armed(), Armed::Disarmed);
    assert!(!out.output_enabled);
    assert_eq!(out.pulses, NEUTRAL);
}

#[test]
fn cycle_is_events_then_tick() {
    let t0 = 2_000 * MS;
    let mut a = armed_and_running(0, t0);
    let mut b = a;
    let events = vec![PwmEvent::Arm(Armed::Armed), PwmEvent::Batch(ramp())];
    let out_a = a.run_cycle(&events, t0 + 10 * MS, &timing());
    for event in &events {
        b.handle_event(*event, t0 + 10 * MS);
    }
    let out_b = b.tick(t0 + 10 * MS, &timing());
    assert_eq!(out_a.pulses, out_b.pulses);
    assert_eq!(out_a.pulses, ramp());
    assert_eq!(out_a.output_enabled, out_b.output_enabled);
    assert_eq!(a.channel_pwms(), b.channel_pwms());
}

#[test]
fn clock_read_out_of_order_counts_as_no_time() {
    assert_eq!(micros_since(10, 25), 15);
    assert_eq!(micros_since(25, 10), 0);
    assert_eq!(micros_since(0, u64::MAX), u64::MAX);
}

fn command(robot: u64, channel: u8, raw: i32) -> ActuatorCommand {
    ActuatorCommand {
        robot: RobotId(NetId(robot)),
        channel: GenericMotorId(channel),
        raw,
        range: MotorRawSignalRange { min: 1100, center: 1500, max: 1900 },
    }
}

#[test]
fn empty_batch_is_neutral() {
    assert_eq!(pwm_batch(NetId(1), &vec![]), NEUTRAL);
}

#[test]
fn batch_places_each_command_on_its_channel() {
    let commands = vec![command(1, 0, 1600), command(1, 15, 1400), command(1, 7, 1500)];
    let batch = pwm_batch(NetId(1), &commands);
    let mut expected = NEUTRAL;
    expected[0] = 1600;
    expected[15] = 1400;
    expected[7] = 1500;
    assert_eq!(batch, expected);
}

#[test]
fn batch_clamps_to_the_range() {
    let commands = vec![command(1, 2, 5000), command(1, 3, -5000)];
    let batch = pwm_batch(NetId(1), &commands);
    assert_eq!(batch[2], 1900);
    assert_eq!(batch[3], 1100);
}

#[test]
fn batch_passes_over_other_vehicles_and_dc_channels() {
    let commands = vec![command(2, 4, 1900), command(1, 0x81, 1900), command(2, 0x7F, 1900)];
    assert!(check_routable(NetId(1), &commands, ChannelKind::Pwm));
    assert_eq!(pwm_batch(NetId(1), &commands), NEUTRAL);
}

#[test]
fn batch_last_command_for_a_channel_wins() {
    let commands = vec![command(1, 4, 1200), command(1, 4, 1800)];
    assert_eq!(pwm_batch(NetId(1), &commands)[4], 1800);
}

#[test]
fn routable_refuses_unknown_channels_and_reversed_ranges() {
    for kind in [ChannelKind::Pwm, ChannelKind::Dc] {
        assert!(command(1, 15, 0).is_routable(kind));
        assert!(command(1, 0x83, 0).is_routable(kind));
        assert!(!command(1, 16, 0).is_routable(kind));
        assert!(!command(1, 0x84, 0).is_routable(kind));
        assert!(!check_routable(NetId(1), &vec![command(1, 0, 0), command(1, 16, 0)], kind));
        assert!(check_routable(NetId(1), &vec![command(1, 0, 0), command(2, 16, 0)], kind));
    }
    // A reversed range matters only on the channels that the batch is for.
    let mut reversed = command(1, 0, 0);
    reversed.range = MotorRawSignalRange { min: 10, center: 0, max: -10 };
    assert!(!reversed.is_routable(ChannelKind::Pwm));
    assert!(reversed.is_routable(ChannelKind::Dc));
    reversed.channel = GenericMotorId(0x80);
    assert!(reversed.is_routable(ChannelKind::Pwm));
    assert!(!reversed.is_routable(ChannelKind::Dc));
    assert_eq!(pwm_batch(NetId(1), &vec![reversed, command(1, 2, 1700)])[2], 1700);
}

#[test]
fn bridge_passes_through_its_phases() {
    let t = timing();
    let mut bridge = PwmBridge::new(0);
    assert_eq!(bridge.phase(0, &t), PwmPhase::Disarmed);
    bridge.handle_event(PwmEvent::Arm(Armed::Armed), 0);
    assert_eq!(bridge.phase(0, &t), PwmPhase::SoftStart);
    assert_eq!(bridge.phase(50 * MS, &t), PwmPhase::SoftStart);
    // Without a fresh arm message the dead man is due.
    assert_eq!(bridge.phase(150 * MS, &t), PwmPhase::Disarmed);
    let bridge = armed_and_running(0, 1_600 * MS);
    assert_eq!(bridge.phase(1_600 * MS, &t), PwmPhase::Active);
    let mut bridge = bridge;
    bridge.handle_event(PwmEvent::Shutdown, 1_600 * MS);
    assert_eq!(bridge.phase(1_600 * MS, &t), PwmPhase::Shutdown);
}
