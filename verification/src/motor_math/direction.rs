//! The sense in which a propeller turns.

use vstd::prelude::*;

verus! {

/// Spin direction of a propeller.
#[derive(Clone, Copy, Debug, PartialEq, Eq, Structural)]
pub enum Direction {
    Clockwise,
    CounterClockwise,
}

impl Direction {
    /// The other direction.
    pub open spec fn spec_reversed(&self) -> Direction {
        match self {
            Direction::Clockwise => Direction::CounterClockwise,
            Direction::CounterClockwise => Direction::Clockwise,
        }
    }

    /// The direction after `count` mirrorings: unchanged for an even
    /// count, reversed for an odd one.
    pub open spec fn spec_flip_n(&self, count: int) -> Direction {
        if count % 2 == 0 {
            *self
        } else {
            self.spec_reversed()
        }
    }

    /// Mirroring twice leaves the direction as it was, and only the parity
    /// of the count matters.
    pub proof fn lemma_flip_parity(self, count: int)
        ensures
            self.spec_reversed().spec_reversed() == self,
            self.spec_flip_n(count + 2) == self.spec_flip_n(count),
            self.spec_flip_n(count + 1) == self.spec_flip_n(count).spec_reversed(),
            self.spec_flip_n(0) == self,
    {
    }

    /// The sign of the direction: one for clockwise, minus one for
    /// counter-clockwise.
    pub open spec fn spec_get_sign(&self) -> int {
        match self {
            Direction::Clockwise => 1,
            Direction::CounterClockwise => -1,
        }
    }

    /// The direction of a sign: clockwise unless the sign is negative.
    pub open spec fn spec_from_sign(sign: int) -> Direction {
        if sign >= 0 {
            Direction::Clockwise
        } else {
            Direction::CounterClockwise
        }
    }

    /// The sign of the direction: one for clockwise, minus one for
    /// counter-clockwise.
    pub fn get_sign(&self) -> (r: i32)
        ensures
            r == self.spec_get_sign(),
    {
        match self {
            Direction::Clockwise => 1,
            Direction::CounterClockwise => -1,
        }
    }

    /// The direction of a sign: clockwise unless the sign is negative.
    pub fn from_sign(sign: i32) -> (r: Direction)
        ensures
            r == Self::spec_from_sign(sign as int),
    {
        if sign >= 0 {
            Direction::Clockwise
        } else {
            Direction::CounterClockwise
        }
    }

    /// A direction is its sign, and a mirroring changes the sign.
    pub proof fn lemma_sign_round_trip(self)
        ensures
            Self::spec_from_sign(self.spec_get_sign()) == self,
            self.spec_reversed().spec_get_sign() == -self.spec_get_sign(),
            self.spec_flip_n(1) == Self::spec_from_sign(-self.spec_get_sign()),
            self.spec_flip_n(2) == Self::spec_from_sign(self.spec_get_sign()),
    {
    }

    /// The other direction.
    pub fn reversed(&self) -> (r: Direction)
        ensures
            r == self.spec_reversed(),
    {
        match self {
            Direction::Clockwise => Direction::CounterClockwise,
            Direction::CounterClockwise => Direction::Clockwise,
        }
    }

    /// The direction after `count` mirrorings.  Each mirroring of a
    /// thruster's mount reverses the sense of its propeller.
    pub fn flip_n(&self, count: i32) -> (r: Direction)
        ensures
            r == self.spec_flip_n(count as int),
    {
        if count % 2 == 0 {
            *self
        } else {
            self.reversed()
        }
    }
}

} // verus!
