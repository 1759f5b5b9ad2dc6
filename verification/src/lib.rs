//! Verified control core of an underwater remotely operated vehicle.
//!
//! The crate holds the decisions of the actuation pipeline: channel
//! addressing, raw-signal ranges, thruster identity and ordering, the
//! calibration-table index, the gating of the stabilisation controllers, the
//! arm / disarm / dead-man rules of the hardware bridges and the watch on the
//! supply voltage.  Physical
//! quantities are carried in a scalar type chosen by the caller; nothing here
//! performs arithmetic on them.

pub mod actuators;
pub mod components;
pub mod hardware;
pub mod monitor;
pub mod motor_math;
