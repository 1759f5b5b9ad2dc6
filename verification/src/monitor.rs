//! The watch on the supply voltage.
//!
//! A sagging supply is reported before it browns the vehicle out.  Readings
//! of one volt or less are the zeros of a sensor that has not started yet and
//! raise nothing.

use vstd::prelude::*;
use crate::motor_math::keyed::TableKey;

verus! {

/// The key of one volt, in single precision.
pub const ONE_VOLT: i64 = 0x3F80_0000;

/// The key of seven volts, in single precision: below it the vehicle browns
/// out.
pub const BROWN_OUT_VOLTS: i64 = 0x40E0_0000;

/// The key of ten volts, in single precision: below it the supply is low.
pub const LOW_VOLTS: i64 = 0x4120_0000;

/// Marks a vehicle whose supply has sagged below seven volts.
#[derive(Clone, Copy, Debug, PartialEq, Eq, Structural)]
pub struct BrownedOut;

/// What a reading of the supply voltage means.
#[derive(Clone, Copy, Debug, PartialEq, Eq, Structural)]
pub struct VoltageStatus {
    /// The reading lies between one and ten volts: worth a warning.
    pub low: bool,
    /// The reading lies between one and seven volts: the vehicle is marked
    /// as browned out; any other reading clears the mark.
    pub browned_out: bool,
}

/// The voltage with the key `voltage` lies strictly between those with the
/// keys `above` and `below`.
pub open spec fn strictly_between(voltage: TableKey, above: i64, below: i64) -> bool {
    voltage matches TableKey::Finite(key) && above < key < below
}

/// Judges a reading of the supply voltage, given by its key.
pub fn check_voltage(voltage: TableKey) -> (r: VoltageStatus)
    ensures
        r.low == strictly_between(voltage, ONE_VOLT, LOW_VOLTS),
        r.browned_out == strictly_between(voltage, ONE_VOLT, BROWN_OUT_VOLTS),
        r.browned_out ==> r.low,
{
    match voltage {
        TableKey::Finite(key) => VoltageStatus {
            low: ONE_VOLT < key && key < LOW_VOLTS,
            browned_out: ONE_VOLT < key && key < BROWN_OUT_VOLTS,
        },
        TableKey::NonFinite => VoltageStatus { low: false, browned_out: false },
    }
}

/// The mark that a reading leaves on the vehicle.
pub fn brown_out_mark(status: VoltageStatus) -> (r: Option<BrownedOut>)
    ensures
        r is Some <==> status.browned_out,
{
    if status.browned_out {
        Some(BrownedOut)
    } else {
        None
    }
}

} // verus!
