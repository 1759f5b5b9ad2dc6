//! The decisions of the control systems that run once per tick.

pub mod servo;
pub mod stabilize;
pub mod thruster;
