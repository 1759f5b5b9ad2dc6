use rov_control::actuators::thruster::{
    contributions_for, find_channel, flatten, report, ThrusterReport,
};
use rov_control::components::identity::{NetId, RobotId};
use rov_control::components::power::CurrentDraw;
use rov_control::components::thruster::{ActualForce, MovementContribution, TargetForce};
use rov_control::hardware::motor_id_map::{DcChannel, LocalMotorId, PwmChannel};
use rov_control::motor_math::blue_rov::BlueRovMotorId;
use rov_control::motor_math::direction::Direction;
use rov_control::motor_math::motor_config::{Motor, MotorConfig, Movement};
use rov_control::motor_math::motor_performance::Interpolation;

fn motor(tag: f32, direction: Direction) -> Motor<f32> {
    Motor { position: [tag, 0.0, 0.0], orientation: [0.0, 0.0, 1.0], direction }
}

fn config() -> MotorConfig<f32> {
    MotorConfig::new_raw(&vec![
        (4, motor(4.0, Direction::Clockwise)),
        (1, motor(1.0, Direction::CounterClockwise)),
        (9, motor(9.0, Direction::Clockwise)),
        (1, motor(1.5, Direction::Clockwise)),
        (0, motor(0.0, Direction::CounterClockwise)),
    ])
}

#[test]
fn config_orders_by_id_and_keeps_the_first() {
    let config = config();
    assert_eq!(config.len(), 4);
    let ids: Vec<u8> = (0..config.len()).map(|i| config.id_at(i)).collect();
    assert_eq!(ids, vec![0, 1, 4, 9]);
    assert_eq!(config.motor_at(1).position[0], 1.0);
    assert_eq!(
        config.motors(),
        vec![
            (0, motor(0.0, Direction::CounterClockwise)),
            (1, motor(1.0, Direction::CounterClockwise)),
            (4, motor(4.0, Direction::Clockwise)),
            (9, motor(9.0, Direction::Clockwise)),
        ]
    );
}

#[test]
fn config_of_nothing_is_empty() {
    let config: MotorConfig<f32> = MotorConfig::new_raw(&vec![]);
    assert_eq!(config.len(), 0);
    assert!(config.motor(0).is_none());
    assert_eq!(config.force_vector(&vec![(1, 2.0)], 0.0), Vec::<f32>::new());
}

#[test]
fn config_finds_motors_by_id() {
    let config = config();
    assert_eq!(config.motor(4), Some(&motor(4.0, Direction::Clockwise)));
    assert_eq!(config.motor(1), Some(&motor(1.0, Direction::CounterClockwise)));
    assert_eq!(config.motor(2), None);
    assert_eq!(config.motor(255), None);
    assert_eq!(config.column(0), Some(0));
    assert_eq!(config.column(9), Some(3));
    assert_eq!(config.column(5), None);
}

#[test]
fn config_knows_how_each_thruster_reads_the_table() {
    let config = config();
    assert_eq!(config.direction_of(1), Some(Direction::CounterClockwise));
    assert_eq!(config.direction_of(2), None);
    assert_eq!(
        config.interpolation_for(1),
        Interpolation::LerpDirection(Direction::CounterClockwise)
    );
    assert_eq!(config.interpolation_for(4), Interpolation::LerpDirection(Direction::Clockwise));
    assert_eq!(config.interpolation_for(77), Interpolation::LerpDirection(Direction::Clockwise));
}

#[test]
fn solution_is_labelled_by_column() {
    let config = config();
    assert_eq!(
        config.assign_forces(&vec![0.5, -1.0, 2.0, 3.5]),
        vec![(0, 0.5), (1, -1.0), (4, 2.0), (9, 3.5)]
    );
    assert_eq!(config.assign_forces(&vec![0.5, -1.0]), vec![(0, 0.5), (1, -1.0)]);
    assert_eq!(
        config.assign_forces(&vec![0.5, -1.0, 2.0, 3.5, 8.0, 9.0]),
        vec![(0, 0.5), (1, -1.0), (4, 2.0), (9, 3.5)]
    );
}

#[test]
fn missing_forces_count_as_zero() {
    let config = config();
    assert_eq!(config.force_vector(&vec![], 0.0), vec![0.0, 0.0, 0.0, 0.0]);
    assert_eq!(
        config.force_vector(&vec![(9, 3.0), (1, -2.0), (7, 5.0)], 0.0),
        vec![0.0, -2.0, 0.0, 3.0]
    );
    // Of two forces for one thruster the first counts.
    assert_eq!(
        config.force_vector(&vec![(4, 1.0), (4, 2.0)], 0.0),
        vec![0.0, 0.0, 1.0, 0.0]
    );
}

#[test]
fn labelling_and_laying_out_are_inverse() {
    let config = config();
    let forces = vec![0.25, 0.5, 0.75, 1.0];
    assert_eq!(config.force_vector(&config.assign_forces(&forces), 0.0), forces);
}

#[test]
fn only_own_contributions_are_summed() {
    let m = |x: f32| Movement { force: [x, 0.0, 0.0], torque: [0.0, 0.0, x] };
    let all = vec![
        (RobotId(NetId(1)), MovementContribution(m(1.0))),
        (RobotId(NetId(2)), MovementContribution(m(2.0))),
        (RobotId(NetId(1)), MovementContribution(m(3.0))),
    ];
    assert_eq!(contributions_for(NetId(1), &all), vec![m(1.0), m(3.0)]);
    assert_eq!(contributions_for(NetId(2), &all), vec![m(2.0)]);
    assert_eq!(contributions_for(NetId(3), &all), vec![]);
    assert_eq!(contributions_for::<f32>(NetId(1), &vec![]), vec![]);
}

#[test]
fn thrusters_are_joined_with_their_channels() {
    let pwm = |id| LocalMotorId::PwmChannel(PwmChannel::new(id));
    let channels = vec![
        (9, pwm(3)),
        (0, pwm(0)),
        (4, LocalMotorId::DcChannel(DcChannel::new(1))),
        (1, pwm(12)),
        (1, pwm(13)),
    ];
    assert_eq!(find_channel(&channels, 1), Some(pwm(12)));
    assert_eq!(find_channel(&channels, 2), None);
    let wired = flatten(&config(), &channels).unwrap();
    let got: Vec<(u8, LocalMotorId, f32)> =
        wired.iter().map(|w| (w.id, w.channel, w.motor.position[0])).collect();
    assert_eq!(
        got,
        vec![
            (0, pwm(0), 0.0),
            (1, pwm(12), 1.0),
            (4, LocalMotorId::DcChannel(DcChannel::new(1)), 4.0),
            (9, pwm(3), 9.0),
        ]
    );
}

#[test]
fn incomplete_wiring_names_the_first_missing_thruster() {
    let pwm = |id| LocalMotorId::PwmChannel(PwmChannel::new(id));
    let channels = vec![(0, pwm(0)), (9, pwm(3))];
    assert_eq!(flatten(&config(), &channels).err(), Some(1));
    let channels = vec![(0, pwm(0)), (1, pwm(1)), (4, pwm(2))];
    assert_eq!(flatten(&config(), &channels).err(), Some(9));
}

#[test]
fn thruster_without_target_or_command_rests() {
    assert_eq!(report::<f32, f32>(None, None), ThrusterReport::Idle);
    assert_eq!(report::<f32, f32>(Some(1.0), None), ThrusterReport::Idle);
    assert_eq!(report::<f32, f32>(None, Some((1.0, 2.0, 1600))), ThrusterReport::Idle);
    assert_eq!(
        report(Some(1.5f32), Some((1.0f32, 2.0f32, 1600))),
        ThrusterReport::Driven {
            target: TargetForce(1.5),
            actual: ActualForce(1.0),
            current: CurrentDraw(2.0),
            raw: 1600,
        }
    );
}

#[test]
fn frame_is_forgotten_and_remembered() {
    let named = vec![
        (BlueRovMotorId::VerticalLeft, motor(5.0, Direction::Clockwise)),
        (BlueRovMotorId::LateralFrontLeft, motor(0.0, Direction::CounterClockwise)),
        (BlueRovMotorId::LateralBackRight, motor(3.0, Direction::Clockwise)),
        (BlueRovMotorId::LateralFrontLeft, motor(0.5, Direction::Clockwise)),
    ];
    let config = MotorConfig::erase(&named);
    let ids: Vec<u8> = (0..config.len()).map(|i| config.id_at(i)).collect();
    assert_eq!(ids, vec![0, 3, 5]);
    assert_eq!(
        config.unerase(),
        Ok(vec![
            (BlueRovMotorId::LateralFrontLeft, motor(0.0, Direction::CounterClockwise)),
            (BlueRovMotorId::LateralBackRight, motor(3.0, Direction::Clockwise)),
            (BlueRovMotorId::VerticalLeft, motor(5.0, Direction::Clockwise)),
        ])
    );
}

#[test]
fn ids_outside_the_frame_are_not_remembered() {
    // The thrusters 0, 1, 4 and 9: the last is none of the frame's six.
    assert_eq!(config().unerase(), Err(9));
    let config = MotorConfig::new_raw(&vec![
        (200, motor(0.0, Direction::Clockwise)),
        (6, motor(0.0, Direction::Clockwise)),
        (2, motor(0.0, Direction::Clockwise)),
    ]);
    assert_eq!(config.unerase(), Err(6));
}
