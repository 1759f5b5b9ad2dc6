use rov_control::actuators::servo::{constrain, plan, ServoUpdate};
use rov_control::actuators::stabilize::{select_feedback, PidAxis, PidFeedback};
use rov_control::components::control::{DepthTarget, OrientationTarget};
use rov_control::components::identity::{Armed, NetId, RobotId};
use rov_control::components::motor::{
    GenericMotorId, MotorContributionMode, MotorRawSignalRange, MotorTargets,
};
use rov_control::components::sensor::{DepthMeasurement, Orientation};
use rov_control::motor_math::motor_config::Axis;

type Quat = [f32; 4];

const IDENTITY: Quat = [0.0, 0.0, 0.0, 1.0];
const TILTED: Quat = [0.1, 0.0, 0.0, 0.995];

fn depth(depth: f32) -> Option<DepthMeasurement<f32, f32>> {
    Some(DepthMeasurement { depth, altitude: 0.0, pressure: 1013.0 })
}

#[test]
fn armed_is_armed() {
    assert!(Armed::Armed.is_armed());
    assert!(!Armed::Disarmed.is_armed());
    assert_eq!(Armed::default(), Armed::Disarmed);
}

#[test]
fn robot_id_matches_its_vehicle_only() {
    assert!(RobotId(NetId(4)).belongs_to(NetId(4)));
    assert!(!RobotId(NetId(4)).belongs_to(NetId(5)));
}

#[test]
fn pid_axes_act_along_their_body_axes() {
    assert_eq!(PidAxis::Depth.axis(), Axis::Z);
    assert_eq!(PidAxis::Yaw.axis(), Axis::ZRot);
    assert_eq!(PidAxis::Pitch.axis(), Axis::XRot);
    assert_eq!(PidAxis::Roll.axis(), Axis::YRot);
    assert!(PidAxis::Depth.is_negative());
    assert!(!PidAxis::Yaw.is_negative());
    assert!(PidAxis::Depth.is_world_fixed());
    assert!(!PidAxis::Roll.is_world_fixed());
}

#[test]
fn depth_controller_runs_on_depth_and_target() {
    let feedback = select_feedback(
        PidAxis::Depth,
        Armed::Armed,
        Some(Orientation(TILTED)),
        None,
        depth(2.5),
        Some(DepthTarget(3.0f32)),
    );
    assert_eq!(
        feedback,
        Some(PidFeedback::Depth { target: 3.0, measured: 2.5, orientation: TILTED })
    );
}

#[test]
fn rotation_controllers_run_on_attitude_and_target() {
    for axis in [PidAxis::Yaw, PidAxis::Pitch, PidAxis::Roll] {
        let feedback = select_feedback::<Quat, f32, f32>(
            axis,
            Armed::Armed,
            Some(Orientation(TILTED)),
            Some(OrientationTarget(IDENTITY)),
            None,
            None,
        );
        assert_eq!(feedback, Some(PidFeedback::Rotation { target: IDENTITY, current: TILTED }));
    }
}

#[test]
fn disarmed_vehicle_runs_no_controller() {
    for axis in [PidAxis::Depth, PidAxis::Yaw, PidAxis::Pitch, PidAxis::Roll] {
        let feedback = select_feedback(
            axis,
            Armed::Disarmed,
            Some(Orientation(TILTED)),
            Some(OrientationTarget(IDENTITY)),
            depth(2.5),
            Some(DepthTarget(3.0f32)),
        );
        assert_eq!(feedback, None);
    }
}

#[test]
fn missing_readings_stop_the_controller() {
    // No attitude: nothing runs, not even depth.
    for axis in [PidAxis::Depth, PidAxis::Yaw, PidAxis::Pitch, PidAxis::Roll] {
        let feedback = select_feedback(
            axis,
            Armed::Armed,
            None,
            Some(OrientationTarget(IDENTITY)),
            depth(2.5),
            Some(DepthTarget(3.0f32)),
        );
        assert_eq!(feedback, None);
    }
    // No depth reading or no depth target: depth does not run.
    let o = Some(Orientation(TILTED));
    let t = Some(OrientationTarget(IDENTITY));
    assert_eq!(
        select_feedback::<Quat, f32, f32>(
            PidAxis::Depth,
            Armed::Armed,
            o,
            t,
            None,
            Some(DepthTarget(3.0))
        ),
        None
    );
    assert_eq!(select_feedback(PidAxis::Depth, Armed::Armed, o, t, depth(1.0), None), None);
    // No attitude target: the rotations do not run, depth does.
    assert_eq!(
        select_feedback(PidAxis::Yaw, Armed::Armed, o, None, depth(1.0), Some(DepthTarget(3.0f32))),
        None
    );
    assert!(select_feedback(
        PidAxis::Depth,
        Armed::Armed,
        o,
        None,
        depth(1.0),
        Some(DepthTarget(3.0f32))
    )
    .is_some());
}

#[test]
fn servo_plan_follows_the_mode() {
    let zeroth = MotorContributionMode::ZerothOrder;
    let first = MotorContributionMode::FirstOrder;
    assert_eq!(plan(zeroth, Some(0.3f32), Some(0.9), false), ServoUpdate::Direct { input: 0.3 });
    assert_eq!(
        plan(first, Some(0.3f32), Some(0.9), false),
        ServoUpdate::Integrate { base: Some(0.9), input: 0.3 }
    );
    assert_eq!(
        plan(first, Some(0.3f32), None, false),
        ServoUpdate::Integrate { base: None, input: 0.3 }
    );
    assert_eq!(plan::<f32>(zeroth, None, Some(0.9), false), ServoUpdate::Unchanged);
    assert_eq!(plan::<f32>(first, None, Some(0.9), false), ServoUpdate::Unchanged);
}

#[test]
fn servo_reset_wins_over_input() {
    for mode in [MotorContributionMode::ZerothOrder, MotorContributionMode::FirstOrder] {
        assert_eq!(plan(mode, Some(0.3f32), Some(0.9), true), ServoUpdate::Rest);
        assert_eq!(plan::<f32>(mode, None, None, true), ServoUpdate::Rest);
    }
}

/// Carries out a plan the way the owner of the servo does.
fn carry_out(update: ServoUpdate<f32>, last: f32, dt: f32) -> f32 {
    match update {
        ServoUpdate::Rest => 0.0,
        ServoUpdate::Unchanged => last,
        ServoUpdate::Direct { input } => input.clamp(-1.0, 1.0),
        ServoUpdate::Integrate { base, input } => {
            (base.unwrap_or(0.0) + input * dt).clamp(-1.0, 1.0)
        }
    }
}

fn run_first_order(reset_on_tick: Option<usize>) -> Vec<f32> {
    let mut last: Option<f32> = None;
    let mut positions = Vec::new();
    for tick in 1..=5 {
        let update =
            plan(MotorContributionMode::FirstOrder, Some(0.5), last, reset_on_tick == Some(tick));
        let position = carry_out(update, last.unwrap_or(0.0), 0.1);
        positions.push(position);
        last = Some(position);
    }
    positions
}

fn close(got: &[f32], want: &[f32]) -> bool {
    got.len() == want.len() && got.iter().zip(want).all(|(g, w)| (g - w).abs() < 1e-6)
}

#[test]
fn first_order_servo_integrates_its_input() {
    assert!(close(&run_first_order(None), &[0.05, 0.10, 0.15, 0.20, 0.25]));
}

#[test]
fn first_order_servo_restarts_from_rest_after_a_reset() {
    assert!(close(&run_first_order(Some(3)), &[0.05, 0.10, 0.00, 0.05, 0.10]));
}

#[test]
fn servo_range_is_cut_to_its_constraints() {
    let range = MotorRawSignalRange { min: 1100, center: 1500, max: 1900 };
    assert_eq!(
        constrain(&range, 1300, 1700),
        MotorRawSignalRange { min: 1300, center: 1500, max: 1700 }
    );
    assert_eq!(constrain(&range, 0, 3000), range);
    assert_eq!(
        constrain(&range, 1100, 1901),
        MotorRawSignalRange { min: 1100, center: 1500, max: 1900 }
    );
    assert_eq!(
        constrain(&range, 1000, 1600),
        MotorRawSignalRange { min: 1100, center: 1500, max: 1600 }
    );
}

#[test]
fn servo_targets_are_found_by_id() {
    let targets = MotorTargets(vec![
        (GenericMotorId(3), 0.25f32),
        (GenericMotorId(0x81), -1.0),
        (GenericMotorId(3), 0.75),
    ]);
    assert_eq!(targets.get(GenericMotorId(3)), Some(0.25));
    assert_eq!(targets.get(GenericMotorId(0x81)), Some(-1.0));
    assert_eq!(targets.get(GenericMotorId(4)), None);
    assert_eq!(MotorTargets::<f32>(vec![]).get(GenericMotorId(3)), None);
}
