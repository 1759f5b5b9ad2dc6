//! The attributes of the vehicle and of its actuators.
//!
//! Physical quantities are held in types of the caller's choosing: a record
//! here says what belongs together and who owns it, not how a quantity is
//! measured.

pub mod control;
pub mod identity;
pub mod motor;
pub mod power;
pub mod sensor;
pub mod thruster;
