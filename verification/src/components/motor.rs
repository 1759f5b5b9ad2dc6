//! Servo and motor channels: identifiers, signal kinds and raw-signal ranges.

use vstd::prelude::*;

verus! {

/// The camera that a motor moves.
#[derive(Clone, Debug)]
pub struct MotorCameraReference {
    pub camera: String,
}

/// Wire-level identifier of an actuator channel.  The top bit tells the two
/// kinds of channel apart, the low seven bits number the channel.
#[derive(Clone, Copy, Debug, PartialEq, Eq, Structural, PartialOrd, Ord, Hash)]
pub struct GenericMotorId(pub u8);

/// The actuators that a vehicle lists beside its thrusters.
#[derive(Clone, Debug)]
pub struct Motors {
    pub ids: Vec<GenericMotorId>,
}

/// The signal that drives a channel: a fraction of full travel in the
/// caller's scalar type, or a raw signal in the units of the channel.
#[derive(Clone, Copy, Debug, PartialEq)]
pub enum MotorSignal<S> {
    Percent(S),
    Raw(i32),
}

impl<S: Copy> MotorSignal<S> {
    /// The raw signal, where the signal is raw; a fraction is for the
    /// caller to scale.
    pub fn raw(&self) -> (r: Option<i32>)
        ensures
            r == (match *self {
                MotorSignal::Raw(raw) => Some(raw),
                MotorSignal::Percent(_) => None::<i32>,
            }),
    {
        match self {
            MotorSignal::Raw(raw) => Some(*raw),
            MotorSignal::Percent(_) => None,
        }
    }
}

/// What a motor's signal commands.
#[derive(Clone, Copy, Debug, PartialEq, Eq, Structural)]
pub enum MotorSignalType {
    Position,
    Velocity,
}

/// How the summed contributions of a tick become a position.
#[derive(Clone, Copy, Debug, PartialEq, Eq, Structural)]
pub enum MotorContributionMode {
    /// The sum is the position.
    ZerothOrder,
    /// The sum is a rate, integrated over the tick.
    FirstOrder,
}

/// The raw signals a channel accepts: `center` is neutral, `min` and `max`
/// are full reverse and full forward.
#[derive(Clone, Copy, Debug, PartialEq, Eq, Structural)]
pub struct MotorRawSignalRange {
    pub min: i32,
    pub center: i32,
    pub max: i32,
}

impl MotorRawSignalRange {
    /// The range is ordered: `min <= center <= max`.
    pub open spec fn wf(&self) -> bool {
        self.min <= self.center <= self.max
    }

    /// `raw` held to `[min, max]`.
    pub open spec fn spec_clamp_raw(&self, raw: i32) -> i32 {
        if raw < self.min {
            self.min
        } else if raw > self.max {
            self.max
        } else {
            raw
        }
    }

    /// Holds `raw` to `[min, max]`.
    pub fn clamp_raw(&self, raw: i32) -> (r: i32)
        requires
            self.min <= self.max,
        ensures
            r == self.spec_clamp_raw(raw),
            self.min <= r <= self.max,
    {
        if raw < self.min {
            self.min
        } else if raw > self.max {
            self.max
        } else {
            raw
        }
    }

    /// The fraction of full travel that `raw` stands for, as a numerator
    /// and a denominator: the distance from neutral over the distance of the
    /// end on the same side.  Below neutral the denominator is the signed
    /// distance of `min`, so that the fraction is negative.
    pub open spec fn spec_percent_ratio(&self, raw: i32) -> (int, int) {
        if raw > self.center {
            (raw - self.center, self.max - self.center)
        } else if raw < self.center {
            (self.center - raw, self.min - self.center)
        } else {
            (0, 1)
        }
    }

    /// The fraction of full travel that `raw` stands for, as a numerator
    /// and a denominator.  The division is left to the caller; the
    /// denominator is zero where `raw` lies beyond an end that coincides
    /// with neutral.
    pub fn percent_ratio(&self, raw: i32) -> (r: (i64, i64))
        ensures
            (r.0 as int, r.1 as int) == self.spec_percent_ratio(raw),
    {
        let raw: i64 = raw as i64;
        let center: i64 = self.center as i64;
        if raw > center {
            (raw - center, self.max as i64 - center)
        } else if raw < center {
            (center - raw, self.min as i64 - center)
        } else {
            (0, 1)
        }
    }

    /// The ends of a range stand for full travel and its middle for rest:
    /// the fraction is one at `max`, minus one at `min` and zero at
    /// `center`; and no raw signal inside the range stands for more than
    /// full travel.
    pub proof fn lemma_percent_ratio_at_the_ends(&self, raw: i32)
        requires
            self.min < self.center < self.max,
        ensures
            self.spec_percent_ratio(self.max).0 == self.spec_percent_ratio(self.max).1,
            self.spec_percent_ratio(self.min).0 == -self.spec_percent_ratio(self.min).1,
            self.spec_percent_ratio(self.center).0 == 0,
            self.spec_percent_ratio(self.center).1 != 0,
            self.min <= raw <= self.max ==> {
                let (n, d) = self.spec_percent_ratio(raw);
                0 <= n && d != 0 && (d > 0 ==> n <= d) && (d < 0 ==> n <= -d)
            },
    {
    }

    /// Runtime test of `wf`.
    pub fn is_ordered(&self) -> (r: bool)
        ensures
            r == self.wf(),
    {
        self.min <= self.center && self.center <= self.max
    }
}

/// The position that `positions` hold for the motor `id`: that of the
/// first element for `id`.
pub open spec fn position_of<S>(positions: Seq<(GenericMotorId, S)>, id: GenericMotorId) -> Option<
    S,
>
    decreases positions.len(),
{
    if positions.len() == 0 {
        None
    } else if positions[0].0 == id {
        Some(positions[0].1)
    } else {
        position_of(positions.drop_first(), id)
    }
}

/// The positions of the servos after a tick, as fractions of full travel.
#[derive(Clone, Debug)]
pub struct MotorTargets<S>(pub Vec<(GenericMotorId, S)>);

/// One source's share of what is asked of each servo in a tick.
#[derive(Clone, Debug)]
pub struct MotorContribution<S>(pub Vec<(GenericMotorId, S)>);

impl<S: Copy> MotorTargets<S> {
    /// The position held for the motor `id`, where one is held.
    pub fn get(&self, id: GenericMotorId) -> (r: Option<S>)
        ensures
            r == position_of(self.0@, id),
    {
        let mut j: usize = 0;
        assert(self.0@.skip(0) =~= self.0@);
        while j < self.0.len()
            invariant
                j <= self.0.len(),
                position_of(self.0@, id) == position_of(self.0@.skip(j as int), id),
            decreases self.0.len() - j,
        {
            assert(self.0@.skip(j as int).drop_first() =~= self.0@.skip(j + 1));
            if self.0[j].0.0 == id.0 {
                return Some(self.0[j].1);
            }
            j = j + 1;
        }
        None
    }
}

} // verus!
