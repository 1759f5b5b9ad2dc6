use nalgebra::{DVector, Matrix6xX, MatrixXx6, Vector3, Vector6, SVD};
use rov_control::motor_math::direction::Direction;
use rov_control::motor_math::keyed::{KeyedTable, TableKey};
use rov_control::motor_math::motor_config::{ErasedMotorId, Motor, MotorConfig, Movement};
use rov_control::motor_math::motor_performance::{
    Interpolation, KeyedRecord, MotorData, MotorRecord, RecordIndex,
};

type Record = MotorRecord<f32>;

fn key_of(value: f32) -> i64 {
    let bits = value.to_bits();
    let magnitude = (bits & 0x7FFF_FFFF) as i64;
    if bits & 0x8000_0000 != 0 {
        -magnitude
    } else {
        magnitude
    }
}

/// A calibration in the shape of a thruster's data sheet.
fn calibration() -> Vec<KeyedRecord<f32>> {
    let mut records = Vec::new();
    for step in 0..=200 {
        let pwm = 1100.0 + 4.0 * step as f32;
        let x = (pwm - 1500.0) / 400.0;
        let over = (x.abs() - 0.06f32).max(0.0);
        let force = if x < 0.0 { -4.0 * over.powf(1.5) - 1.5 * over } else { 5.0 * over.powf(1.5) + 2.0 * over };
        let current = 20.0 * over * over + 3.0 * over;
        let record = MotorRecord { current, force, pwm, rpm: 0.0, voltage: 16.0, power: 0.0, efficiency: 0.0 };
        records.push(KeyedRecord {
            force_key: TableKey::Finite(key_of(force)),
            current_key: TableKey::Finite(key_of(current.copysign(force))),
            record,
        });
    }
    records
}

struct Compression {
    min: f32,
    max: f32,
    steps: isize,
}

impl Compression {
    fn of(table: &KeyedTable<Record>, supplier: fn(&Record) -> f32) -> Compression {
        let values: Vec<f32> = (0..table.len()).map(|i| supplier(table.item(i))).collect();
        let min = values[0];
        let max = values[values.len() - 1];
        let min_step =
            values.windows(2).map(|pair| pair[1] - pair[0]).min_by(f32::total_cmp).unwrap();
        Compression { min, max, steps: ((max - min) / min_step).ceil() as isize + 1 }
    }

    fn compress(&self, value: f32) -> isize {
        ((value - self.min) / (self.max - self.min) * (self.steps - 1) as f32).floor() as isize
    }

    fn cells(&self) -> Vec<(i64, i64)> {
        (0..self.steps)
            .map(|step| {
                let low = (step as f32 + 0.0) / (self.steps - 1) as f32 * (self.max - self.min)
                    + self.min;
                let high = (step as f32 + 1.0) / (self.steps - 1) as f32 * (self.max - self.min)
                    + self.min;
                (key_of(low), key_of(high))
            })
            .collect()
    }
}

struct Calibration {
    data: MotorData<f32>,
    by_force: Compression,
}

fn read_motor_data() -> Calibration {
    let (by_force, by_current) = MotorData::order(&calibration()).expect("Read motor data");
    let force_cells = Compression::of(&by_force, |record| record.force);
    let current_cells = Compression::of(&by_current, |record| record.current.copysign(record.force));
    let force_index = RecordIndex::new(by_force, force_cells.cells()).expect("Read motor data");
    let current_index =
        RecordIndex::new(by_current, current_cells.cells()).expect("Read motor data");
    Calibration { data: MotorData::new(force_index, current_index), by_force: force_cells }
}

impl Calibration {
    fn lookup_by_force(&self, force: f32, interpolation: Interpolation) -> Record {
        let (a, b) = self.data.lookup_by_force(self.by_force.compress(force), key_of(force));
        assert!(interpolation.blends());
        let alpha = ((force - a.force) / (b.force - a.force)).clamp(0.0, 1.0);
        let lerp = |x: f32, y: f32| (1.0 - alpha) * x + alpha * y;
        let pwm = lerp(a.pwm, b.pwm);
        MotorRecord {
            current: lerp(a.current, b.current),
            force: lerp(a.force, b.force),
            pwm: if interpolation.mirrors() { 3000.0 - pwm } else { pwm },
            rpm: lerp(a.rpm, b.rpm),
            voltage: lerp(a.voltage, b.voltage),
            power: lerp(a.power, b.power),
            efficiency: lerp(a.efficiency, b.efficiency),
        }
    }
}

struct Thrusters {
    motors: MotorConfig<f32>,
    matrix: Matrix6xX<f32>,
    pseudo_inverse: MatrixXx6<f32>,
}

fn new_raw(motors: Vec<(ErasedMotorId, Motor<f32>)>, center_mass: Vector3<f32>) -> Thrusters {
    let motors: Vec<(ErasedMotorId, Motor<f32>)> = motors
        .into_iter()
        .map(|(id, mut motor)| {
            let o = Vector3::new(motor.orientation[0], motor.orientation[1], motor.orientation[2]);
            let norm = o.norm();
            if norm != 0.0 {
                let unit = o.unscale(norm);
                motor.orientation = [unit.x, unit.y, unit.z];
            }
            (id, motor)
        })
        .collect();
    let motors = MotorConfig::new_raw(&motors);
    let matrix = Matrix6xX::<f32>::from_iterator(
        motors.len(),
        (0..motors.len()).flat_map(|column| {
            let motor = motors.motor_at(column);
            let force = Vector3::new(motor.orientation[0], motor.orientation[1], motor.orientation[2]);
            let position = Vector3::new(motor.position[0], motor.position[1], motor.position[2]);
            let torque = (position - center_mass).cross(&force);
            [force.x, force.y, force.z, torque.x, torque.y, torque.z]
        }),
    );
    let svd = SVD::try_new_unordered(matrix.clone(), true, true, 1e-5, 100)
        .expect("Could not find the pseudo inverse");
    let pseudo_inverse = svd.pseudo_inverse(0.0001).unwrap();
    Thrusters { motors, matrix, pseudo_inverse }
}

fn reverse_solve(movement: Movement<f32>, motor_config: &Thrusters) -> Vec<(ErasedMotorId, f32)> {
    let movement_vec =
        Vector6::from_iterator(movement.force.iter().chain(movement.torque.iter()).copied());
    let forces = &motor_config.pseudo_inverse * movement_vec;
    let forces: Vec<f32> = forces.iter().copied().collect();
    motor_config.motors.assign_forces(&forces)
}

fn forces_to_cmds(
    forces: Vec<(ErasedMotorId, f32)>,
    motor_config: &Thrusters,
    motor_data: &Calibration,
) -> Vec<(ErasedMotorId, Record)> {
    forces
        .into_iter()
        .map(|(motor_id, force)| {
            motor_config.motors.motor(motor_id).expect("Bad motor id");
            let interpolation = motor_config.motors.interpolation_for(motor_id);
            (motor_id, motor_data.lookup_by_force(force, interpolation))
        })
        .collect()
}

fn forward_solve(motor_config: &Thrusters, forces: &Vec<(ErasedMotorId, f32)>) -> Movement<f32> {
    let forces = motor_config.motors.force_vector(forces, 0.0);
    let movement = &motor_config.matrix * DVector::from_vec(forces);
    Movement {
        force: [movement[0], movement[1], movement[2]],
        torque: [movement[3], movement[4], movement[5]],
    }
}

fn normalized(v: [f32; 3], scale: f32) -> [f32; 3] {
    let unit = Vector3::new(v[0], v[1], v[2]).normalize() * scale;
    [unit.x, unit.y, unit.z]
}

fn norm_squared(a: [f32; 3], b: [f32; 3]) -> f32 {
    (0..3).map(|i| (a[i] - b[i]) * (a[i] - b[i])).sum()
}

const RIGHT: ErasedMotorId = 0;
const LEFT: ErasedMotorId = 1;
const LATERAL: ErasedMotorId = 2;
const UP1: ErasedMotorId = 3;
const UP2: ErasedMotorId = 4;
const UP3: ErasedMotorId = 5;

fn arbitrary_motors() -> Vec<(ErasedMotorId, Motor<f32>)> {
    // In no particular order, as a map would hand them out.
    vec![
        (
            UP2,
            Motor {
                position: normalized([-1.0, 1.0, 0.0], 2.0),
                orientation: [0.0, 0.0, 1.0],
                direction: Direction::CounterClockwise,
            },
        ),
        (
            RIGHT,
            Motor {
                position: normalized([1.0, 1.0, 0.0], 1.0),
                orientation: [0.0, 1.0, 0.0],
                direction: Direction::Clockwise,
            },
        ),
        (
            UP3,
            Motor {
                position: normalized([0.0, -1.0, 0.0], 2.0),
                orientation: [0.0, 0.0, 1.0],
                direction: Direction::Clockwise,
            },
        ),
        (
            LATERAL,
            Motor {
                position: [0.0, 0.0, 0.0],
                orientation: [1.0, 0.0, 0.0],
                direction: Direction::Clockwise,
            },
        ),
        (
            LEFT,
            Motor {
                position: normalized([-1.0, 1.0, 0.0], 1.0),
                orientation: [0.0, 1.0, 0.0],
                direction: Direction::CounterClockwise,
            },
        ),
        (
            UP1,
            Motor {
                position: normalized([1.0, 1.0, 0.0], 2.0),
                orientation: [0.0, 0.0, 1.0],
                direction: Direction::Clockwise,
            },
        ),
    ]
}

#[test]
fn solve_roundtrip_arbitrary() {
    let motor_data = read_motor_data();
    let motor_config = new_raw(arbitrary_motors(), Vector3::default());

    let movement = Movement { force: [0.9, -0.5, 0.3], torque: [-0.2, 0.1, 0.4] };

    let forces = reverse_solve(movement, &motor_config);
    let motor_cmds = forces_to_cmds(forces, &motor_config, &motor_data);

    println!("motor_cmds: {motor_cmds:#?}");

    let actual_movement = forward_solve(
        &motor_config,
        &motor_cmds.iter().map(|(id, data)| (*id, data.force)).collect(),
    );

    assert!(norm_squared(movement.force, actual_movement.force) < 0.0001);
    assert!(norm_squared(movement.torque, actual_movement.torque) < 0.0001);
}

#[test]
fn solved_forces_come_in_the_order_of_the_thrusters() {
    let motor_config = new_raw(arbitrary_motors(), Vector3::default());
    let movement = Movement { force: [1.0, 0.0, 0.0], torque: [0.0, 0.0, 0.0] };
    let forces = reverse_solve(movement, &motor_config);
    let ids: Vec<ErasedMotorId> = forces.iter().map(|(id, _)| *id).collect();
    assert_eq!(ids, vec![RIGHT, LEFT, LATERAL, UP1, UP2, UP3]);
    // A push along X is the lateral thruster's work alone.
    for (id, force) in forces {
        let expected = if id == LATERAL { 1.0 } else { 0.0 };
        assert!((force - expected).abs() < 1e-4, "thruster {id}: {force}");
    }
}

#[test]
fn counter_clockwise_thrusters_get_the_mirrored_signal() {
    let motor_data = read_motor_data();
    let motor_config = new_raw(arbitrary_motors(), Vector3::default());
    let cmds = forces_to_cmds(vec![(RIGHT, 1.0), (LEFT, 1.0)], &motor_config, &motor_data);
    assert!((cmds[0].1.force - 1.0).abs() < 1e-4);
    assert!((cmds[1].1.force - 1.0).abs() < 1e-4);
    assert!(cmds[0].1.pwm > 1500.0);
    assert!((cmds[0].1.pwm + cmds[1].1.pwm - 3000.0).abs() < 1e-3);
}

#[test]
fn no_force_asks_for_the_neutral_signal() {
    let motor_data = read_motor_data();
    let motor_config = new_raw(arbitrary_motors(), Vector3::default());
    let movement = Movement { force: [0.0; 3], torque: [0.0; 3] };
    let forces = reverse_solve(movement, &motor_config);
    for (id, cmd) in forces_to_cmds(forces, &motor_config, &motor_data) {
        assert_eq!(cmd.force, 0.0, "thruster {id}");
        // The first record with no thrust opens the dead band round neutral.
        assert!((cmd.pwm - 1500.0).abs() <= 24.0, "thruster {id}: {}", cmd.pwm);
    }
}
