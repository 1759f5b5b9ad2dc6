//! The bridges between the control loop and the actuator hardware.

pub mod clock;
pub mod command;
pub mod dc_motor;
pub mod motor_id_map;
pub mod pwm;
