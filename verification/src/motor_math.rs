//! Thruster geometry bookkeeping and the calibration table.

pub mod blue_rov;
pub mod direction;
pub mod keyed;
pub mod motor_config;
pub mod motor_performance;
