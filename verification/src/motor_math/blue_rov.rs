//! The six-thruster frame: four lateral thrusters and two vertical ones,
//! each the mirror image of one of two seed thrusters.

use vstd::prelude::*;
use crate::motor_math::direction::Direction;

verus! {

/// The thrusters of the six-thruster frame.  Their order is the order of
/// the numbers that stand for them.
#[derive(Clone, Copy, Debug, PartialEq, Eq, Structural, PartialOrd, Ord, Hash)]
pub enum BlueRovMotorId {
    LateralFrontLeft,
    LateralFrontRight,
    LateralBackLeft,
    LateralBackRight,
    VerticalRight,
    VerticalLeft,
}

/// The seed thruster that a thruster of the frame is an image of.
#[derive(Clone, Copy, Debug, PartialEq, Eq, Structural)]
pub enum Seed {
    /// The front right lateral thruster.
    Lateral,
    /// The right vertical thruster.
    Vertical,
}

/// How a thruster of the frame comes from its seed.
#[derive(Clone, Copy, Debug, PartialEq, Eq, Structural)]
pub struct Placement {
    pub seed: Seed,
    /// Mirrored left to right, in the plane through the Y and Z axes.
    pub reflect_yz: bool,
    /// Mirrored front to back, in the plane through the X and Z axes.
    pub reflect_xz: bool,
}

impl Placement {
    /// How many mirrorings the placement holds.
    pub open spec fn spec_reflections(&self) -> int {
        (if self.reflect_yz { 1int } else { 0int }) + (if self.reflect_xz { 1int } else { 0int })
    }

    /// How many mirrorings the placement holds.
    pub fn reflections(&self) -> (r: i32)
        ensures
            r == self.spec_reflections(),
    {
        let yz: i32 = if self.reflect_yz { 1 } else { 0 };
        let xz: i32 = if self.reflect_xz { 1 } else { 0 };
        yz + xz
    }

    /// The spin direction of the placed thruster, given that of its seed:
    /// each mirroring reverses it.
    pub fn direction(&self, seed: Direction) -> (r: Direction)
        ensures
            r == seed.spec_flip_n(self.spec_reflections()),
            self.reflect_yz == self.reflect_xz ==> r == seed,
            self.reflect_yz != self.reflect_xz ==> r == seed.spec_reversed(),
    {
        seed.flip_n(self.reflections())
    }
}

impl BlueRovMotorId {
    /// The number that stands for the thruster.
    pub open spec fn spec_erased(&self) -> u8 {
        match self {
            BlueRovMotorId::LateralFrontLeft => 0,
            BlueRovMotorId::LateralFrontRight => 1,
            BlueRovMotorId::LateralBackLeft => 2,
            BlueRovMotorId::LateralBackRight => 3,
            BlueRovMotorId::VerticalRight => 4,
            BlueRovMotorId::VerticalLeft => 5,
        }
    }

    /// The thruster that `id` stands for.
    pub open spec fn spec_try_from_erased(id: u8) -> Option<BlueRovMotorId> {
        if id == 0 {
            Some(BlueRovMotorId::LateralFrontLeft)
        } else if id == 1 {
            Some(BlueRovMotorId::LateralFrontRight)
        } else if id == 2 {
            Some(BlueRovMotorId::LateralBackLeft)
        } else if id == 3 {
            Some(BlueRovMotorId::LateralBackRight)
        } else if id == 4 {
            Some(BlueRovMotorId::VerticalRight)
        } else if id == 5 {
            Some(BlueRovMotorId::VerticalLeft)
        } else {
            None
        }
    }

    /// How the thruster comes from its seed.
    pub open spec fn spec_placement(&self) -> Placement {
        match self {
            BlueRovMotorId::LateralFrontRight => Placement {
                seed: Seed::Lateral,
                reflect_yz: false,
                reflect_xz: false,
            },
            BlueRovMotorId::LateralFrontLeft => Placement {
                seed: Seed::Lateral,
                reflect_yz: true,
                reflect_xz: false,
            },
            BlueRovMotorId::LateralBackRight => Placement {
                seed: Seed::Lateral,
                reflect_yz: false,
                reflect_xz: true,
            },
            BlueRovMotorId::LateralBackLeft => Placement {
                seed: Seed::Lateral,
                reflect_yz: true,
                reflect_xz: true,
            },
            BlueRovMotorId::VerticalRight => Placement {
                seed: Seed::Vertical,
                reflect_yz: false,
                reflect_xz: false,
            },
            BlueRovMotorId::VerticalLeft => Placement {
                seed: Seed::Vertical,
                reflect_yz: true,
                reflect_xz: false,
            },
        }
    }

    /// The number that stands for the thruster.
    #[verifier::when_used_as_spec(spec_erased)]
    pub fn erased(&self) -> (r: u8)
        ensures
            r == self.spec_erased(),
            r < 6,
    {
        match self {
            BlueRovMotorId::LateralFrontLeft => 0,
            BlueRovMotorId::LateralFrontRight => 1,
            BlueRovMotorId::LateralBackLeft => 2,
            BlueRovMotorId::LateralBackRight => 3,
            BlueRovMotorId::VerticalRight => 4,
            BlueRovMotorId::VerticalLeft => 5,
        }
    }

    /// The thruster that `id` stands for: `Some` exactly below six.
    pub fn try_from_erased(id: u8) -> (r: Option<BlueRovMotorId>)
        ensures
            r == Self::spec_try_from_erased(id),
            r is Some <==> id < 6,
            r matches Some(motor) ==> motor.spec_erased() == id,
    {
        match id {
            0 => Some(BlueRovMotorId::LateralFrontLeft),
            1 => Some(BlueRovMotorId::LateralFrontRight),
            2 => Some(BlueRovMotorId::LateralBackLeft),
            3 => Some(BlueRovMotorId::LateralBackRight),
            4 => Some(BlueRovMotorId::VerticalRight),
            5 => Some(BlueRovMotorId::VerticalLeft),
            _ => None,
        }
    }

    /// How the thruster comes from its seed.
    #[verifier::when_used_as_spec(spec_placement)]
    pub fn placement(&self) -> (r: Placement)
        ensures
            r == self.spec_placement(),
    {
        match self {
            BlueRovMotorId::LateralFrontRight => Placement {
                seed: Seed::Lateral,
                reflect_yz: false,
                reflect_xz: false,
            },
            BlueRovMotorId::LateralFrontLeft => Placement {
                seed: Seed::Lateral,
                reflect_yz: true,
                reflect_xz: false,
            },
            BlueRovMotorId::LateralBackRight => Placement {
                seed: Seed::Lateral,
                reflect_yz: false,
                reflect_xz: true,
            },
            BlueRovMotorId::LateralBackLeft => Placement {
                seed: Seed::Lateral,
                reflect_yz: true,
                reflect_xz: true,
            },
            BlueRovMotorId::VerticalRight => Placement {
                seed: Seed::Vertical,
                reflect_yz: false,
                reflect_xz: false,
            },
            BlueRovMotorId::VerticalLeft => Placement {
                seed: Seed::Vertical,
                reflect_yz: true,
                reflect_xz: false,
            },
        }
    }

    /// The six thrusters in the order of their numbers.
    pub fn all() -> (r: [BlueRovMotorId; 6])
        ensures
            forall|i: int| 0 <= i < 6 ==> (#[trigger] r@[i]).spec_erased() == i,
    {
        [
            BlueRovMotorId::LateralFrontLeft,
            BlueRovMotorId::LateralFrontRight,
            BlueRovMotorId::LateralBackLeft,
            BlueRovMotorId::LateralBackRight,
            BlueRovMotorId::VerticalRight,
            BlueRovMotorId::VerticalLeft,
        ]
    }

    /// A thruster is its number: the number leads back to the thruster, and
    /// two thrusters with one number are the same.
    pub proof fn lemma_erased_round_trip(a: BlueRovMotorId, b: BlueRovMotorId)
        ensures
            Self::spec_try_from_erased(a.spec_erased()) == Some(a),
            a.spec_erased() == b.spec_erased() ==> a == b,
    {
    }

    /// The frame is symmetric: a lateral thruster and its mirror image across
    /// the vehicle turn in opposite senses, those at opposite corners in the
    /// same sense.
    pub proof fn lemma_mirror_images_counter_rotate(seed: Direction)
        ensures
            seed.spec_flip_n(BlueRovMotorId::LateralFrontRight.spec_placement().spec_reflections())
                == seed,
            seed.spec_flip_n(BlueRovMotorId::LateralFrontLeft.spec_placement().spec_reflections())
                == seed.spec_reversed(),
            seed.spec_flip_n(BlueRovMotorId::LateralBackRight.spec_placement().spec_reflections())
                == seed.spec_reversed(),
            seed.spec_flip_n(BlueRovMotorId::LateralBackLeft.spec_placement().spec_reflections())
                == seed,
            seed.spec_flip_n(BlueRovMotorId::VerticalRight.spec_placement().spec_reflections())
                == seed,
            seed.spec_flip_n(BlueRovMotorId::VerticalLeft.spec_placement().spec_reflections())
                == seed.spec_reversed(),
    {
    }
}

impl From<BlueRovMotorId> for u8 {
    fn from(value: BlueRovMotorId) -> (r: Self) {
        value.erased()
    }
}

impl vstd::std_specs::convert::FromSpecImpl<BlueRovMotorId> for u8 {
    open spec fn obeys_from_spec() -> bool {
        true
    }

    open spec fn from_spec(v: BlueRovMotorId) -> Self {
        v.spec_erased()
    }
}

} // verus!
