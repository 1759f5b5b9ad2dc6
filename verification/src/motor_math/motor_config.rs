//! The thrusters of a vehicle, ordered by identifier, and the bookkeeping
//! between identifiers and the columns of the allocation matrix.
//!
//! Column `i` of the allocation matrix belongs to the `i`-th thruster in the
//! order of the identifiers.  The matrix itself and every product with it
//! are the caller's; which column is whose is decided here.

use vstd::prelude::*;
use crate::motor_math::blue_rov::BlueRovMotorId;
use crate::motor_math::direction::Direction;
use crate::motor_math::keyed::{
    first_at, key_present, ordered_first_occurrences, strictly_increasing, KeyedTable,
};
use crate::motor_math::motor_performance::Interpolation;

verus! {

/// The identifier of a thruster with its frame forgotten.
pub type ErasedMotorId = u8;

/// A thruster: where it sits, where it pushes, and how its propeller turns.
/// `D` is the scalar type of the caller.
#[derive(Clone, Copy, Debug, PartialEq)]
pub struct Motor<D> {
    /// Offset from the origin.
    pub position: [D; 3],
    /// Unit vector along the thrust.
    pub orientation: [D; 3],
    pub direction: Direction,
}

/// A force and a torque on the vehicle.
#[derive(Clone, Copy, Debug, PartialEq)]
pub struct Movement<D> {
    pub force: [D; 3],
    pub torque: [D; 3],
}

/// A body axis: a force along, or a torque about, one of the three axes.
/// The order is that of the rows of the allocation matrix.
#[derive(Clone, Copy, Debug, PartialEq, Eq, Structural, PartialOrd, Ord, Hash)]
pub enum Axis {
    X,
    Y,
    Z,
    XRot,
    YRot,
    ZRot,
}

impl Axis {
    /// The row of the allocation matrix that belongs to the axis.
    pub open spec fn spec_row(&self) -> int {
        match self {
            Axis::X => 0,
            Axis::Y => 1,
            Axis::Z => 2,
            Axis::XRot => 3,
            Axis::YRot => 4,
            Axis::ZRot => 5,
        }
    }

    /// The axis is a torque.
    pub open spec fn spec_is_rotation(&self) -> bool {
        self.spec_row() >= 3
    }

    /// The row of the allocation matrix that belongs to the axis.
    pub fn row(&self) -> (r: usize)
        ensures
            r == self.spec_row(),
            r < 6,
    {
        match self {
            Axis::X => 0,
            Axis::Y => 1,
            Axis::Z => 2,
            Axis::XRot => 3,
            Axis::YRot => 4,
            Axis::ZRot => 5,
        }
    }

    /// The six axes in the order of their rows.
    pub fn all() -> (r: [Axis; 6])
        ensures
            forall|i: int| 0 <= i < 6 ==> (#[trigger] r@[i]).spec_row() == i,
    {
        [Axis::X, Axis::Y, Axis::Z, Axis::XRot, Axis::YRot, Axis::ZRot]
    }

    /// The unit movement along the axis, built from the caller's `one` and
    /// `zero`: `one` in the component of the axis, `zero` in the five others.
    pub fn movement<D: Copy>(&self, one: D, zero: D) -> (r: Movement<D>)
        ensures
            forall|i: int|
                0 <= i < 3 ==> #[trigger] r.force@[i] == (if self.spec_row() == i {
                    one
                } else {
                    zero
                }),
            forall|i: int|
                0 <= i < 3 ==> #[trigger] r.torque@[i] == (if self.spec_row() == i + 3 {
                    one
                } else {
                    zero
                }),
    {
        match self {
            Axis::X => Movement { force: [one, zero, zero], torque: [zero, zero, zero] },
            Axis::Y => Movement { force: [zero, one, zero], torque: [zero, zero, zero] },
            Axis::Z => Movement { force: [zero, zero, one], torque: [zero, zero, zero] },
            Axis::XRot => Movement { force: [zero, zero, zero], torque: [one, zero, zero] },
            Axis::YRot => Movement { force: [zero, zero, zero], torque: [zero, one, zero] },
            Axis::ZRot => Movement { force: [zero, zero, zero], torque: [zero, zero, one] },
        }
    }
}

/// The thrusters `motors` under their identifiers as keys.
pub open spec fn keyed_motors<D>(motors: Seq<(ErasedMotorId, Motor<D>)>) -> Seq<(i64, Motor<D>)> {
    Seq::new(motors.len(), |i: int| (motors[i].0 as i64, motors[i].1))
}

/// The thrusters `motors` of the six-thruster frame under the numbers that
/// stand for them.
pub open spec fn erased_motors<D>(motors: Seq<(BlueRovMotorId, Motor<D>)>) -> Seq<
    (ErasedMotorId, Motor<D>),
> {
    Seq::new(motors.len(), |i: int| (motors[i].0.spec_erased(), motors[i].1))
}

/// The force that `forces` assign to the thruster `id`: that of the first
/// element for `id`, `zero` where there is none.
pub open spec fn force_of<D>(forces: Seq<(ErasedMotorId, D)>, id: ErasedMotorId, zero: D) -> D
    decreases forces.len(),
{
    if forces.len() == 0 {
        zero
    } else if forces[0].0 == id {
        forces[0].1
    } else {
        force_of(forces.drop_first(), id, zero)
    }
}

/// The force assigned to a thruster is that of the first element that names
/// it.
pub proof fn lemma_force_of_first_match<D>(
    forces: Seq<(ErasedMotorId, D)>,
    id: ErasedMotorId,
    zero: D,
    at: int,
)
    requires
        0 <= at < forces.len(),
        forces[at].0 == id,
        forall|j: int| 0 <= j < at ==> (#[trigger] forces[j]).0 != id,
    ensures
        force_of(forces, id, zero) == forces[at].1,
    decreases at,
{
    if at > 0 {
        let rest = forces.drop_first();
        assert(forces[0].0 != id);
        assert(rest[at - 1] == forces[at]);
        assert forall|j: int| 0 <= j < at - 1 implies (#[trigger] rest[j]).0 != id by {
            assert(rest[j] == forces[j + 1]);
        }
        lemma_force_of_first_match(rest, id, zero, at - 1);
    }
}

/// Labelling a solution by thruster and laying the labelled forces out by
/// column gives the solution back: where the identifiers of `config` rise
/// strictly and `labelled[i]` holds the identifier of column `i`, the force
/// assigned to the thruster of column `i` is `labelled[i].1`.
pub proof fn lemma_layout_round_trip<D>(
    config: Seq<(i64, Motor<D>)>,
    labelled: Seq<(ErasedMotorId, D)>,
    zero: D,
    column: int,
)
    requires
        strictly_increasing(config),
        labelled.len() == config.len(),
        forall|i: int| 0 <= i < labelled.len() ==> (#[trigger] labelled[i]).0 == config[i].0,
        0 <= column < config.len(),
    ensures
        force_of(labelled, config[column].0 as ErasedMotorId, zero) == labelled[column].1,
{
    let id = config[column].0 as ErasedMotorId;
    assert(labelled[column].0 == config[column].0);
    assert forall|j: int| 0 <= j < column implies (#[trigger] labelled[j]).0 != id by {
        assert(config[j].0 < config[column].0);
        assert(labelled[j].0 == config[j].0);
    }
    lemma_force_of_first_match(labelled, id, zero, column);
}

/// The thrusters of a vehicle, ordered by identifier, each identifier once.
#[derive(Debug)]
pub struct MotorConfig<D> {
    motors: KeyedTable<Motor<D>>,
}

impl<D> View for MotorConfig<D> {
    type V = Seq<(i64, Motor<D>)>;

    closed spec fn view(&self) -> Seq<(i64, Motor<D>)> {
        self.motors@
    }
}

impl<D> MotorConfig<D> {
    #[verifier::type_invariant]
    spec fn inv(self) -> bool {
        forall|i: int| 0 <= i < self.motors@.len() ==> 0 <= (#[trigger] self.motors@[i]).0 < 256
    }
}

impl<D: Copy> MotorConfig<D> {
    /// The configuration of `motors`: ordered by identifier, and of the
    /// thrusters that share an identifier only the first.
    pub fn new_raw(motors: &Vec<(ErasedMotorId, Motor<D>)>) -> (r: Self)
        ensures
            ordered_first_occurrences(keyed_motors(motors@), r@),
            r.wf(),
    {
        let mut keyed: Vec<(i64, Motor<D>)> = Vec::new();
        let mut i: usize = 0;
        while i < motors.len()
            invariant
                i <= motors.len(),
                keyed@.len() == i,
                forall|k: int| 0 <= k < i ==> #[trigger] keyed@[k] == keyed_motors(motors@)[k],
            decreases motors.len() - i,
        {
            keyed.push((motors[i].0 as i64, motors[i].1));
            i = i + 1;
        }
        assert(keyed@ =~= keyed_motors(motors@));
        let table: KeyedTable<Motor<D>> = KeyedTable::from_unsorted(&keyed);
        proof {
            assert forall|j: int| 0 <= j < table@.len() implies 0 <= (#[trigger] table@[j]).0
                < 256 by {
                let p = choose|p: int| #[trigger] first_at(keyed@, p, table@[j]);
                assert(keyed@[p] == keyed_motors(motors@)[p]);
            }
        }
        let _ = table.len();
        MotorConfig { motors: table }
    }

    /// The configuration of the thrusters of the six-thruster frame, with
    /// the frame forgotten.  The order of the thrusters of the frame is the
    /// order of the numbers that stand for them.
    pub fn erase(motors: &Vec<(BlueRovMotorId, Motor<D>)>) -> (r: Self)
        ensures
            ordered_first_occurrences(keyed_motors(erased_motors(motors@)), r@),
            r.wf(),
    {
        let mut erased: Vec<(ErasedMotorId, Motor<D>)> = Vec::new();
        let mut i: usize = 0;
        while i < motors.len()
            invariant
                i <= motors.len(),
                erased@.len() == i,
                forall|k: int| 0 <= k < i ==> #[trigger] erased@[k] == erased_motors(motors@)[k],
            decreases motors.len() - i,
        {
            erased.push((motors[i].0.erased(), motors[i].1));
            i = i + 1;
        }
        assert(erased@ =~= erased_motors(motors@));
        Self::new_raw(&erased)
    }

    /// The thrusters under their names in the six-thruster frame, in the
    /// order of the columns.
    ///
    /// Fails with the first identifier, in that order, that stands for no
    /// thruster of the frame.
    pub fn unerase(&self) -> (r: Result<Vec<(BlueRovMotorId, Motor<D>)>, ErasedMotorId>)
        ensures
            match r {
                Ok(motors) => {
                    &&& motors@.len() == self@.len()
                    &&& forall|i: int|
                        0 <= i < motors@.len() ==> (#[trigger] motors@[i]).0.spec_erased()
                            == self@[i].0 && motors@[i].1 == self@[i].1
                },
                Err(id) => {
                    &&& id >= 6
                    &&& key_present(self@, id as i64)
                    &&& forall|i: int|
                        0 <= i < self@.len() && (#[trigger] self@[i]).0 < id ==> self@[i].0 < 6
                },
            },
    {
        let n: usize = self.len();
        let mut out: Vec<(BlueRovMotorId, Motor<D>)> = Vec::new();
        let mut i: usize = 0;
        while i < n
            invariant
                i <= n,
                n == self@.len(),
                self.wf(),
                out@.len() == i,
                forall|k: int|
                    0 <= k < i ==> (#[trigger] out@[k]).0.spec_erased() == self@[k].0 && out@[k].1
                        == self@[k].1,
            decreases n - i,
        {
            let id: ErasedMotorId = self.id_at(i);
            match BlueRovMotorId::try_from_erased(id) {
                Some(motor_id) => {
                    out.push((motor_id, *self.motor_at(i)));
                },
                None => {
                    proof {
                        assert(self@[i as int].0 == id as i64);
                        assert forall|k: int| 0 <= k < self@.len() && (#[trigger] self@[k]).0
                            < id implies self@[k].0 < 6 by {
                            if k > i {
                                assert(self@[i as int].0 < self@[k].0);
                            } else if k < i {
                                assert(out@[k].0.spec_erased() == self@[k].0);
                            }
                        }
                    }
                    return Err(id);
                },
            }
            i = i + 1;
        }
        Ok(out)
    }

    /// The identifiers rise strictly and each fits a byte.
    pub open spec fn wf(&self) -> bool {
        &&& strictly_increasing(self@)
        &&& forall|i: int| 0 <= i < self@.len() ==> 0 <= (#[trigger] self@[i]).0 < 256
    }

    /// The number of thrusters, which is the number of columns of the
    /// allocation matrix.
    pub fn len(&self) -> (r: usize)
        ensures
            r == self@.len(),
            self.wf(),
    {
        proof {
            use_type_invariant(self);
        }
        self.motors.len()
    }

    /// The identifier of the thruster of column `column`.
    pub fn id_at(&self, column: usize) -> (r: ErasedMotorId)
        requires
            column < self@.len(),
        ensures
            r == self@[column as int].0,
    {
        proof {
            use_type_invariant(self);
        }
        let key: i64 = self.motors.key(column);
        key as u8
    }

    /// The thruster of column `column`.
    pub fn motor_at(&self, column: usize) -> (r: &Motor<D>)
        requires
            column < self@.len(),
        ensures
            *r == self@[column as int].1,
    {
        self.motors.item(column)
    }

    /// The column of the thruster `id`, where the vehicle has it.
    pub fn column(&self, id: ErasedMotorId) -> (r: Option<usize>)
        ensures
            r is Some <==> key_present(self@, id as i64),
            r matches Some(i) ==> i < self@.len() && self@[i as int].0 == id,
    {
        self.motors.position(id as i64)
    }

    /// The thruster `id`, where the vehicle has it.
    pub fn motor(&self, id: ErasedMotorId) -> (r: Option<&Motor<D>>)
        ensures
            r is Some <==> key_present(self@, id as i64),
            r matches Some(motor) ==> exists|i: int|
                0 <= i < self@.len() && #[trigger] self@[i] == (id as i64, *motor),
    {
        match self.motors.position(id as i64) {
            Some(i) => {
                let motor: &Motor<D> = self.motors.item(i);
                assert(self@[i as int] == (id as i64, *motor));
                Some(motor)
            },
            None => None,
        }
    }

    /// The thrusters with their identifiers, in the order of the columns.
    pub fn motors(&self) -> (r: Vec<(ErasedMotorId, Motor<D>)>)
        ensures
            keyed_motors(r@) == self@,
    {
        let mut out: Vec<(ErasedMotorId, Motor<D>)> = Vec::new();
        let mut i: usize = 0;
        let n: usize = self.len();
        while i < n
            invariant
                i <= n,
                n == self@.len(),
                out@.len() == i,
                forall|k: int| 0 <= k < i ==> (out@[k].0 as i64, #[trigger] out@[k].1) == self@[k],
            decreases n - i,
        {
            out.push((self.id_at(i), *self.motor_at(i)));
            i = i + 1;
        }
        assert(keyed_motors(out@) =~= self@);
        out
    }

    /// The spin direction of the thruster `id`, where the vehicle has it.
    pub fn direction_of(&self, id: ErasedMotorId) -> (r: Option<Direction>)
        ensures
            r is Some <==> key_present(self@, id as i64),
            r matches Some(direction) ==> exists|i: int|
                0 <= i < self@.len() && (#[trigger] self@[i]).0 == id && self@[i].1.direction
                    == direction,
    {
        match self.motor(id) {
            Some(motor) => Some(motor.direction),
            None => None,
        }
    }

    /// How the calibration table is read for the thruster `id`: blended, and
    /// mirrored where its propeller turns counter-clockwise.  A thruster
    /// that the vehicle does not have is read as one that turns clockwise.
    pub fn interpolation_for(&self, id: ErasedMotorId) -> (r: Interpolation)
        ensures
            r is LerpDirection,
            !key_present(self@, id as i64) ==> r == Interpolation::LerpDirection(
                Direction::Clockwise,
            ),
            key_present(self@, id as i64) ==> exists|i: int|
                0 <= i < self@.len() && (#[trigger] self@[i]).0 == id && r
                    == Interpolation::LerpDirection(self@[i].1.direction),
    {
        match self.direction_of(id) {
            Some(direction) => Interpolation::LerpDirection(direction),
            None => Interpolation::LerpDirection(Direction::Clockwise),
        }
    }

    /// The forces of a solution, each with the identifier of its thruster:
    /// element `i` of `forces` belongs to column `i`.  Elements past the
    /// last column, and columns past the last element, are left out.
    pub fn assign_forces(&self, forces: &Vec<D>) -> (r: Vec<(ErasedMotorId, D)>)
        ensures
            r@.len() == (if forces@.len() < self@.len() {
                forces@.len()
            } else {
                self@.len()
            }),
            forall|i: int|
                0 <= i < r@.len() ==> (#[trigger] r@[i]).0 == self@[i].0 && r@[i].1 == forces@[i],
    {
        let n: usize = if forces.len() < self.len() {
            forces.len()
        } else {
            self.len()
        };
        let mut out: Vec<(ErasedMotorId, D)> = Vec::new();
        let mut i: usize = 0;
        while i < n
            invariant
                i <= n,
                n <= self@.len(),
                n <= forces@.len(),
                out@.len() == i,
                forall|k: int|
                    0 <= k < i ==> (#[trigger] out@[k]).0 == self@[k].0 && out@[k].1 == forces@[k],
            decreases n - i,
        {
            out.push((self.id_at(i), forces[i]));
            i = i + 1;
        }
        out
    }

    /// The forces `forces` laid out by column: column `i` holds the force
    /// assigned to its thruster, `zero` where none is assigned.  Forces for
    /// thrusters that the vehicle does not have are left out.
    pub fn force_vector(&self, forces: &Vec<(ErasedMotorId, D)>, zero: D) -> (r: Vec<D>)
        ensures
            r@.len() == self@.len(),
            forall|i: int|
                0 <= i < r@.len() ==> #[trigger] r@[i] == force_of(
                    forces@,
                    self@[i].0 as ErasedMotorId,
                    zero,
                ),
    {
        let n: usize = self.len();
        let mut out: Vec<D> = Vec::new();
        let mut i: usize = 0;
        while i < n
            invariant
                i <= n,
                n == self@.len(),
                out@.len() == i,
                forall|k: int|
                    0 <= k < i ==> #[trigger] out@[k] == force_of(
                        forces@,
                        self@[k].0 as ErasedMotorId,
                        zero,
                    ),
            decreases n - i,
        {
            let id: ErasedMotorId = self.id_at(i);
            let mut j: usize = 0;
            let mut found: D = zero;
            assert(forces@.skip(0) =~= forces@);
            while j < forces.len()
                invariant_except_break
                    j <= forces.len(),
                    force_of(forces@, id, zero) == force_of(forces@.skip(j as int), id, zero),
                    found == zero,
                ensures
                    found == force_of(forces@, id, zero),
                decreases forces.len() - j,
            {
                assert(forces@.skip(j as int).drop_first() =~= forces@.skip(j + 1));
                if forces[j].0 == id {
                    found = forces[j].1;
                    break ;
                }
                j = j + 1;
            }
            out.push(found);
            i = i + 1;
        }
        out
    }
}

} // verus!
