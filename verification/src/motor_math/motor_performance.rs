//! The index of the motor calibration table.
//!
//! A calibration table lists, for one motor, records of thrust, current and
//! raw signal.  The table is consulted by thrust and by signed current.  For
//! each of the two it is kept ordered by an integer key that rises with the
//! quantity, and cut into cells of equal width, so that the two records that
//! enclose a value are found in one step.  What is computed from the values
//! themselves (the cell a value falls in, the blend of two records) is the
//! caller's part; which records enclose a value is decided here.

use vstd::prelude::*;
use crate::motor_math::direction::Direction;
use crate::motor_math::keyed::{
    count_below, first_at, key_present, lemma_count_below_monotone, lemma_count_below_splits,
    ordered_first_occurrences, strictly_increasing, KeyedTable, TableKey,
};

verus! {

/// How a record is made from the two that enclose the value asked for.
#[derive(Clone, Copy, Debug, PartialEq, Eq, Structural)]
pub enum Interpolation {
    /// Blend the two records linearly, then mirror the raw signal for a
    /// propeller that turns counter-clockwise.
    LerpDirection(Direction),
    /// Take the nearer record, then mirror the raw signal for a propeller
    /// that turns counter-clockwise.
    Direction(Direction),
    /// Blend the two records linearly.
    Lerp,
    /// Take the nearer record as it is.
    OriginalData,
}

impl Default for Interpolation {
    fn default() -> (r: Self)
        ensures
            r == Interpolation::Lerp,
    {
        Interpolation::Lerp
    }
}

impl Interpolation {
    /// The two records are blended; otherwise the nearer is taken.
    pub open spec fn spec_blends(&self) -> bool {
        *self is LerpDirection || *self is Lerp
    }

    /// The raw signal is mirrored about neutral: the mode names a direction
    /// and it is counter-clockwise.
    pub open spec fn spec_mirrors(&self) -> bool {
        *self == Interpolation::LerpDirection(Direction::CounterClockwise) || *self
            == Interpolation::Direction(Direction::CounterClockwise)
    }

    /// Whether the two records are blended rather than the nearer taken.
    #[verifier::when_used_as_spec(spec_blends)]
    pub fn blends(&self) -> (r: bool)
        ensures
            r == self.spec_blends(),
    {
        match self {
            Interpolation::LerpDirection(_) | Interpolation::Lerp => true,
            Interpolation::Direction(_) | Interpolation::OriginalData => false,
        }
    }

    /// Whether the raw signal of the result is mirrored about neutral.
    #[verifier::when_used_as_spec(spec_mirrors)]
    pub fn mirrors(&self) -> (r: bool)
        ensures
            r == self.spec_mirrors(),
    {
        match self {
            Interpolation::LerpDirection(direction) | Interpolation::Direction(direction) => {
                match direction {
                    Direction::CounterClockwise => true,
                    Direction::Clockwise => false,
                }
            },
            Interpolation::Lerp | Interpolation::OriginalData => false,
        }
    }
}

/// One line of a calibration table, in the scalar type `D` of the caller.
#[derive(Clone, Copy, Debug, Default, PartialEq)]
pub struct MotorRecord<D> {
    pub current: D,
    pub force: D,
    pub pwm: D,
    pub rpm: D,
    pub voltage: D,
    pub power: D,
    pub efficiency: D,
}

/// Why a calibration table cannot be indexed.
#[derive(Clone, Copy, Debug, PartialEq, Eq, Structural)]
pub enum ConfigError {
    /// Fewer than two records with different keys.
    TooFewPoints,
    /// A record's thrust or current is not a finite number.
    NonFiniteKey,
    /// The table was given no cells.
    NoCells,
    /// A cell's upper end is below its lower end.
    ReversedCell,
    /// A cell is so wide that a record lies strictly between the records at
    /// its two ends.
    DataPointSkipped,
}


/// A calibration record with its two keys.
#[derive(Clone, Copy, Debug)]
pub struct KeyedRecord<D> {
    /// Stands for the record's thrust.
    pub force_key: TableKey,
    /// Stands for the record's current, signed as its thrust is.
    pub current_key: TableKey,
    pub record: MotorRecord<D>,
}

/// `val` held to `[lo, hi]`.
pub open spec fn clamp_int(val: int, lo: int, hi: int) -> int {
    if val < lo {
        lo
    } else if val > hi {
        hi
    } else {
        val
    }
}

/// The places of the two neighbouring records that enclose `val`: the
/// second is the first record whose key is not below `val`, but never the
/// very first record nor past the last.
pub open spec fn nearest_pair<T>(entries: Seq<(i64, T)>, val: i64) -> (int, int) {
    let upper = clamp_int(count_below(entries, val), 1, entries.len() - 1);
    (upper - 1, upper)
}

/// What the index holds for the cell from `cell.0` to `cell.1`: the record
/// below the cell's lower end, the record above its upper end, and between
/// them the one record inside the cell where there is one.
pub open spec fn cell_entry<T>(entries: Seq<(i64, T)>, cell: (i64, i64)) -> (
    int,
    Option<int>,
    int,
) {
    let (low, mid1) = nearest_pair(entries, cell.0);
    let (mid2, high) = nearest_pair(entries, cell.1);
    (
        low,
        if mid1 == mid2 {
            Some(mid1)
        } else {
            None
        },
        high,
    )
}

/// The cell is too wide: more than one record lies between the records at
/// its ends.
pub open spec fn cell_skips<T>(entries: Seq<(i64, T)>, cell: (i64, i64)) -> bool {
    nearest_pair(entries, cell.0).1 < nearest_pair(entries, cell.1).0
}

/// The pair of records that the index gives for `val`, looked up in cell
/// `cell`.
pub open spec fn lookup_pair<T>(entries: Seq<(i64, T)>, cell: (i64, i64), val: i64) -> (int, int) {
    let (low, mid, high) = cell_entry(entries, cell);
    match mid {
        Some(mid) => if entries[low].0 <= val <= entries[mid].0 {
            (low, mid)
        } else {
            (mid, high)
        },
        None => (low, high),
    }
}

/// The pair that encloses a value is a pair of neighbours inside the table.
pub proof fn lemma_nearest_pair_in_range<T>(entries: Seq<(i64, T)>, val: i64)
    requires
        entries.len() >= 2,
    ensures
        0 <= nearest_pair(entries, val).0,
        nearest_pair(entries, val).1 == nearest_pair(entries, val).0 + 1,
        nearest_pair(entries, val).1 < entries.len(),
{
}

/// A value inside the table's span lies between the keys of its pair.
pub proof fn lemma_nearest_pair_encloses<T>(entries: Seq<(i64, T)>, val: i64)
    requires
        strictly_increasing(entries),
        entries.len() >= 2,
        entries[0].0 <= val <= entries[entries.len() - 1].0,
    ensures
        entries[nearest_pair(entries, val).0].0 <= val <= entries[nearest_pair(entries, val).1].0,
{
    lemma_count_below_splits(entries, val);
    let c = count_below(entries, val);
    let (a, b) = nearest_pair(entries, val);
    if c == 0 {
        assert(entries[0].0 >= val);
        assert(entries[0].0 < entries[1].0);
    } else if c > entries.len() - 1 {
        assert(entries[entries.len() - 1].0 < val);
    } else {
        assert(entries[c - 1].0 < val);
        assert(entries[c].0 >= val);
    }
}

/// The pair moves up the table, never down, as the value rises.
pub proof fn lemma_nearest_pair_monotone<T>(entries: Seq<(i64, T)>, x: i64, y: i64)
    requires
        strictly_increasing(entries),
        entries.len() >= 2,
        x <= y,
    ensures
        nearest_pair(entries, x).0 <= nearest_pair(entries, y).0,
        nearest_pair(entries, x).1 <= nearest_pair(entries, y).1,
        entries[nearest_pair(entries, x).0].0 <= entries[nearest_pair(entries, y).0].0,
        entries[nearest_pair(entries, x).1].0 <= entries[nearest_pair(entries, y).1].0,
{
    lemma_count_below_monotone(entries, x, y);
    lemma_count_below_splits(entries, x);
    lemma_count_below_splits(entries, y);
    let (ax, bx) = nearest_pair(entries, x);
    let (ay, by) = nearest_pair(entries, y);
    if ax < ay {
        assert(entries[ax].0 < entries[ay].0);
    }
    if bx < by {
        assert(entries[bx].0 < entries[by].0);
    }
}

/// The cell index finds what a search of the whole table finds: for a value
/// that lies in a cell and not below the table, the pair looked up in that
/// cell is the pair that encloses the value, provided the cell skips no
/// record.
pub proof fn lemma_lookup_is_nearest<T>(entries: Seq<(i64, T)>, cell: (i64, i64), val: i64)
    requires
        strictly_increasing(entries),
        entries.len() >= 2,
        !cell_skips(entries, cell),
        cell.0 <= val <= cell.1,
        entries[0].0 <= val,
    ensures
        lookup_pair(entries, cell, val) == nearest_pair(entries, val),
{
    lemma_count_below_monotone(entries, cell.0, val);
    lemma_count_below_monotone(entries, val, cell.1);
    lemma_count_below_splits(entries, cell.0);
    lemma_count_below_splits(entries, val);
    lemma_count_below_splits(entries, cell.1);
    let n = entries.len() as int;
    let cl = count_below(entries, cell.0);
    let cv = count_below(entries, val);
    let ch = count_below(entries, cell.1);
    let bl = clamp_int(cl, 1, n - 1);
    let bv = clamp_int(cv, 1, n - 1);
    let bh = clamp_int(ch, 1, n - 1);
    assert(bl <= bv <= bh);
    assert(bh == bl || bh == bl + 1);
    if bh == bl + 1 {
        if entries[bl - 1].0 <= val <= entries[bl].0 {
            if cv > bl {
                assert(entries[bl].0 < val);
            }
        } else if val > entries[bl].0 {
            if cv <= bl {
                assert(entries[bl].0 >= val);
            }
        } else {
            // Below the lower record of the cell: only below the table itself.
            assert(val < entries[bl - 1].0);
            if bl - 1 > 0 {
                assert(entries[0].0 < entries[bl - 1].0);
                if cv > bl - 1 {
                    assert(entries[bl - 1].0 < val);
                }
            }
        }
    }
}

/// An index as contracts see it.
pub struct RecordIndexModel<D> {
    /// The records with their keys, ordered by key.
    pub entries: Seq<(i64, MotorRecord<D>)>,
    /// The ends of each cell, as keys.
    pub cells: Seq<(i64, i64)>,
}

impl<D> RecordIndexModel<D> {
    /// At least two records and at least one cell; every cell runs upwards
    /// and skips no record.
    pub open spec fn wf(self) -> bool {
        &&& strictly_increasing(self.entries)
        &&& self.entries.len() >= 2
        &&& self.cells.len() >= 1
        &&& forall|k: int| 0 <= k < self.cells.len() ==> (#[trigger] self.cells[k]).0 <= self.cells[k].1
        &&& forall|k: int| 0 <= k < self.cells.len() ==> !cell_skips(self.entries, #[trigger] self.cells[k])
    }

    /// The cell that a computed cell number stands for: numbers off either
    /// end of the index stand for its first and its last cell.
    pub open spec fn cell_of(self, cell: int) -> int {
        clamp_int(cell, 0, self.cells.len() - 1)
    }

    /// The pair that the cell index gives for `val` with the computed cell
    /// number `cell`.
    pub open spec fn lookup(self, cell: int, val: i64) -> (int, int) {
        lookup_pair(self.entries, self.cells[self.cell_of(cell)], val)
    }

    /// The pair that a search of the whole table gives for `val`.
    pub open spec fn nearest(self, val: i64) -> (int, int) {
        nearest_pair(self.entries, val)
    }

    /// For a value not below the table that lies in the cell numbered
    /// `cell`, the cell index and the search of the whole table give the
    /// same pair.
    pub proof fn lemma_lookup_is_nearest(self, cell: int, val: i64)
        requires
            self.wf(),
            0 <= cell < self.cells.len(),
            self.cells[cell].0 <= val <= self.cells[cell].1,
            self.entries[0].0 <= val,
        ensures
            self.lookup(cell, val) == self.nearest(val),
    {
        lemma_lookup_is_nearest(self.entries, self.cells[cell], val);
    }

    /// As the value asked for rises, the pair of records that encloses it
    /// moves up the table and never down: the keys of both its records do
    /// not fall.
    pub proof fn lemma_pair_rises(self, x: i64, y: i64)
        requires
            self.wf(),
            x <= y,
        ensures
            self.nearest(x).0 <= self.nearest(y).0,
            self.nearest(x).1 <= self.nearest(y).1,
            self.entries[self.nearest(x).0].0 <= self.entries[self.nearest(y).0].0,
            self.entries[self.nearest(x).1].0 <= self.entries[self.nearest(y).1].0,
    {
        lemma_nearest_pair_monotone(self.entries, x, y);
    }

    /// A value inside the span of the table lies between the keys of the
    /// pair that encloses it.
    pub proof fn lemma_pair_encloses(self, val: i64)
        requires
            self.wf(),
            self.entries[0].0 <= val <= self.entries[self.entries.len() - 1].0,
        ensures
            self.entries[self.nearest(val).0].0 <= val <= self.entries[self.nearest(val).1].0,
    {
        lemma_nearest_pair_encloses(self.entries, val);
    }

    /// Whichever way the pair is found, it is a pair of neighbouring
    /// records of the table.
    pub proof fn lemma_pairs_are_neighbours(self, cell: int, val: i64)
        requires
            self.wf(),
        ensures
            0 <= self.nearest(val).0,
            self.nearest(val).1 == self.nearest(val).0 + 1,
            self.nearest(val).1 < self.entries.len(),
            0 <= self.lookup(cell, val).0,
            self.lookup(cell, val).1 == self.lookup(cell, val).0 + 1,
            self.lookup(cell, val).1 < self.entries.len(),
    {
        let c = self.cells[self.cell_of(cell)];
        lemma_nearest_pair_in_range(self.entries, val);
        lemma_nearest_pair_in_range(self.entries, c.0);
        lemma_nearest_pair_in_range(self.entries, c.1);
        lemma_count_below_monotone(self.entries, c.0, c.1);
        assert(!cell_skips(self.entries, c));
    }
}

/// Some cell's upper end is below its lower end.
pub open spec fn some_cell_reversed(cells: Seq<(i64, i64)>) -> bool {
    exists|k: int| 0 <= k < cells.len() && (#[trigger] cells[k]).0 > cells[k].1
}

/// Some cell skips a record of `entries`.
pub open spec fn some_cell_skips<T>(entries: Seq<(i64, T)>, cells: Seq<(i64, i64)>) -> bool {
    exists|k: int| 0 <= k < cells.len() && cell_skips(entries, #[trigger] cells[k])
}

/// A table entry, read as places in the table.
pub open spec fn entry_places(entry: (usize, Option<usize>, usize)) -> (int, Option<int>, int) {
    (
        entry.0 as int,
        match entry.1 {
            Some(mid) => Some(mid as int),
            None => None,
        },
        entry.2 as int,
    )
}

/// A calibration table ordered by one of its quantities, with the cells that
/// find a pair of records in one step.
#[derive(Debug)]
pub struct RecordIndex<D> {
    data: KeyedTable<MotorRecord<D>>,
    cells: Vec<(i64, i64)>,
    lookup_table: Vec<(usize, Option<usize>, usize)>,
}

impl<D> View for RecordIndex<D> {
    type V = RecordIndexModel<D>;

    closed spec fn view(&self) -> RecordIndexModel<D> {
        RecordIndexModel { entries: self.data@, cells: self.cells@ }
    }
}

impl<D> RecordIndex<D> {
    #[verifier::type_invariant]
    spec fn inv(self) -> bool {
        &&& self@.wf()
        &&& self.lookup_table@.len() == self.cells@.len()
        &&& forall|k: int|
            0 <= k < self.cells@.len() ==> entry_places(#[trigger] self.lookup_table@[k])
                == cell_entry(self.data@, self.cells@[k])
    }
}

impl<D: Copy> RecordIndex<D> {
    /// The places of the two neighbouring records of `data` that enclose
    /// `val`, found by bisection.
    fn nearest_in(data: &KeyedTable<MotorRecord<D>>, val: i64) -> (r: (usize, usize))
        requires
            data@.len() >= 2,
        ensures
            (r.0 as int, r.1 as int) == nearest_pair(data@, val),
            r.0 + 1 == r.1,
            r.1 < data@.len(),
    {
        let partition_point: usize = data.partition_point(val);
        let len: usize = data.len();
        let at_least_one: usize = if partition_point < 1 {
            1
        } else {
            partition_point
        };
        let idx_b: usize = if at_least_one > len - 1 {
            len - 1
        } else {
            at_least_one
        };
        (idx_b - 1, idx_b)
    }

    /// Indexes the ordered table `data` by the cells `cells`, each given by
    /// the keys of its two ends.
    ///
    /// Fails, in this order, where `data` has fewer than two records, where
    /// there is no cell, where some cell runs downwards, and where some cell
    /// skips a record.
    pub fn new(data: KeyedTable<MotorRecord<D>>, cells: Vec<(i64, i64)>) -> (r: Result<
        Self,
        ConfigError,
    >)
        ensures
            data@.len() < 2 ==> r == Err::<Self, ConfigError>(ConfigError::TooFewPoints),
            data@.len() >= 2 && cells@.len() == 0 ==> r == Err::<Self, ConfigError>(
                ConfigError::NoCells,
            ),
            data@.len() >= 2 && cells@.len() > 0 && some_cell_reversed(cells@) ==> r == Err::<
                Self,
                ConfigError,
            >(ConfigError::ReversedCell),
            data@.len() >= 2 && cells@.len() > 0 && !some_cell_reversed(cells@)
                && some_cell_skips(data@, cells@) ==> r == Err::<Self, ConfigError>(
                ConfigError::DataPointSkipped,
            ),
            data@.len() >= 2 && cells@.len() > 0 && !some_cell_reversed(cells@)
                && !some_cell_skips(data@, cells@) ==> r is Ok && r->Ok_0@ == (RecordIndexModel {
                entries: data@,
                cells: cells@,
            }) && r->Ok_0@.wf(),
    {
        if data.len() < 2 {
            return Err(ConfigError::TooFewPoints);
        }
        if cells.len() == 0 {
            return Err(ConfigError::NoCells);
        }
        let mut checked: usize = 0;
        while checked < cells.len()
            invariant
                checked <= cells@.len(),
                data@.len() >= 2,
                forall|k: int| 0 <= k < checked ==> (#[trigger] cells@[k]).0 <= cells@[k].1,
            decreases cells@.len() - checked,
        {
            if cells[checked].0 > cells[checked].1 {
                return Err(ConfigError::ReversedCell);
            }
            checked = checked + 1;
        }
        let mut lookup_table: Vec<(usize, Option<usize>, usize)> = Vec::new();
        let mut step: usize = 0;
        while step < cells.len()
            invariant
                step <= cells@.len(),
                data@.len() >= 2,
                strictly_increasing(data@),
                forall|k: int| 0 <= k < cells@.len() ==> (#[trigger] cells@[k]).0 <= cells@[k].1,
                lookup_table@.len() == step,
                forall|k: int| 0 <= k < step ==> !cell_skips(data@, #[trigger] cells@[k]),
                forall|k: int|
                    0 <= k < step ==> entry_places(#[trigger] lookup_table@[k]) == cell_entry(
                        data@,
                        cells@[k],
                    ),
            decreases cells@.len() - step,
        {
            let cell: (i64, i64) = cells[step];
            let (low, mid1) = Self::nearest_in(&data, cell.0);
            let (mid2, high) = Self::nearest_in(&data, cell.1);
            let mid: Option<usize> = if mid1 == mid2 {
                Some(mid1)
            } else {
                if !(data.key(mid1) > data.key(mid2)) {
                    proof {
                        if mid1 > mid2 {
                            assert(data@[mid2 as int].0 < data@[mid1 as int].0);
                        }
                        assert(cell_skips(data@, cells@[step as int]));
                    }
                    return Err(ConfigError::DataPointSkipped);
                }
                proof {
                    if mid1 < mid2 {
                        assert(data@[mid1 as int].0 < data@[mid2 as int].0);
                    }
                }
                None
            };
            lookup_table.push((low, mid, high));
            step = step + 1;
        }
        Ok(RecordIndex { data, cells, lookup_table })
    }

    /// The number of records.
    pub fn len(&self) -> (r: usize)
        ensures
            r == self@.entries.len(),
            self@.wf(),
    {
        proof {
            use_type_invariant(self);
        }
        self.data.len()
    }

    /// The number of cells.
    pub fn steps(&self) -> (r: usize)
        ensures
            r == self@.cells.len(),
            r >= 1,
    {
        proof {
            use_type_invariant(self);
        }
        self.cells.len()
    }

    /// The record at place `index`.
    pub fn record(&self, index: usize) -> (r: &MotorRecord<D>)
        requires
            index < self@.entries.len(),
        ensures
            *r == self@.entries[index as int].1,
    {
        self.data.item(index)
    }

    /// The key of the record at place `index`.
    pub fn key(&self, index: usize) -> (r: i64)
        requires
            index < self@.entries.len(),
        ensures
            r == self@.entries[index as int].0,
    {
        self.data.key(index)
    }

    /// The places of the two neighbouring records that enclose `val`, found
    /// by bisection of the whole table.
    pub fn binary_search_nearest(&self, val: i64) -> (r: (usize, usize))
        ensures
            (r.0 as int, r.1 as int) == self@.nearest(val),
            r.0 + 1 == r.1,
            r.1 < self@.entries.len(),
    {
        proof {
            use_type_invariant(self);
        }
        Self::nearest_in(&self.data, val)
    }

    /// The places of two records for `val`, found in one step through the
    /// cell numbered `cell`.  A number off either end of the index is taken
    /// for the first or the last cell.
    pub fn lookup_nearest(&self, cell: isize, val: i64) -> (r: (usize, usize))
        ensures
            (r.0 as int, r.1 as int) == self@.lookup(cell as int, val),
            r.0 + 1 == r.1,
            r.1 < self@.entries.len(),
            self@.wf(),
    {
        proof {
            use_type_invariant(self);
            self@.lemma_pairs_are_neighbours(cell as int, val);
        }
        let last: usize = self.lookup_table.len() - 1;
        let idx: usize = if cell < 0 {
            0
        } else if cell as usize > last {
            last
        } else {
            cell as usize
        };
        let (low, mid, high) = self.lookup_table[idx];
        assert(entry_places(self.lookup_table@[idx as int]) == cell_entry(
            self.data@,
            self.cells@[idx as int],
        ));
        proof {
            lemma_nearest_pair_in_range(self.data@, self.cells@[idx as int].0);
            lemma_nearest_pair_in_range(self.data@, self.cells@[idx as int].1);
        }
        match mid {
            Some(mid) => {
                if self.data.key(low) <= val && val <= self.data.key(mid) {
                    (low, mid)
                } else {
                    (mid, high)
                }
            },
            None => (low, high),
        }
    }
}

/// The records of `input` under their thrust keys.
pub open spec fn force_pairs<D>(input: Seq<KeyedRecord<D>>) -> Seq<(i64, MotorRecord<D>)> {
    Seq::new(input.len(), |i: int| (input[i].force_key.value(), input[i].record))
}

/// The records of `input` under their signed-current keys.
pub open spec fn current_pairs<D>(input: Seq<KeyedRecord<D>>) -> Seq<(i64, MotorRecord<D>)> {
    Seq::new(input.len(), |i: int| (input[i].current_key.value(), input[i].record))
}

/// Some record of `input` has a thrust or a current that is not finite.
pub open spec fn any_non_finite<D>(input: Seq<KeyedRecord<D>>) -> bool {
    exists|i: int|
        0 <= i < input.len() && ((#[trigger] input[i]).force_key is NonFinite
            || input[i].current_key is NonFinite)
}

/// Two elements of `pairs` differ in their key.
pub open spec fn two_distinct_keys<T>(pairs: Seq<(i64, T)>) -> bool {
    exists|i: int, j: int|
        0 <= i < pairs.len() && 0 <= j < pairs.len() && (#[trigger] pairs[i]).0 != (
        #[trigger] pairs[j]).0
}

/// An ordered table of first occurrences has two entries exactly where its
/// input has two different keys.
pub proof fn lemma_two_entries_iff_two_keys<T>(input: Seq<(i64, T)>, entries: Seq<(i64, T)>)
    requires
        ordered_first_occurrences(input, entries),
    ensures
        entries.len() >= 2 <==> two_distinct_keys(input),
{
    if entries.len() >= 2 {
        let lower = choose|p: int| #[trigger] first_at(input, p, entries[0]);
        let upper = choose|p: int| #[trigger] first_at(input, p, entries[1]);
        assert(entries[0].0 < entries[1].0);
        assert(input[lower].0 != input[upper].0);
    }
    if two_distinct_keys(input) {
        let (i, j) = choose|i: int, j: int|
            0 <= i < input.len() && 0 <= j < input.len() && (#[trigger] input[i]).0 != (
            #[trigger] input[j]).0;
        assert(key_present(entries, input[i].0));
        assert(key_present(entries, input[j].0));
        let a = choose|a: int| 0 <= a < entries.len() && (#[trigger] entries[a]).0 == input[i].0;
        let b = choose|b: int| 0 <= b < entries.len() && (#[trigger] entries[b]).0 == input[j].0;
        assert(a != b);
    }
}

/// The two indexes of a motor's calibration table, as contracts see them.
pub struct MotorDataModel<D> {
    /// The table ordered by thrust.
    pub force: RecordIndexModel<D>,
    /// The table ordered by signed current.
    pub current: RecordIndexModel<D>,
}

/// A motor's calibration table, to be consulted by thrust and by signed
/// current.
#[derive(Debug)]
pub struct MotorData<D> {
    force_index: RecordIndex<D>,
    current_index: RecordIndex<D>,
}

impl<D> View for MotorData<D> {
    type V = MotorDataModel<D>;

    closed spec fn view(&self) -> MotorDataModel<D> {
        MotorDataModel { force: self.force_index@, current: self.current_index@ }
    }
}

/// The two ordered tables of a calibration: by thrust and by signed current.
pub type OrderedTables<D> = (KeyedTable<MotorRecord<D>>, KeyedTable<MotorRecord<D>>);

impl<D: Copy> MotorData<D> {
    /// Orders the records of a calibration table by thrust and by signed
    /// current; of the records that share a key each table keeps the first.
    ///
    /// Fails with `NonFiniteKey` where any key is not finite, else with
    /// `TooFewPoints` where the thrusts or the currents of all records are
    /// the same.
    pub fn order(input: &Vec<KeyedRecord<D>>) -> (r: Result<OrderedTables<D>, ConfigError>)
        ensures
            any_non_finite(input@) ==> r is Err && r->Err_0 == ConfigError::NonFiniteKey,
            !any_non_finite(input@) && !(two_distinct_keys(force_pairs(input@))
                && two_distinct_keys(current_pairs(input@))) ==> r is Err && r->Err_0
                == ConfigError::TooFewPoints,
            !any_non_finite(input@) && two_distinct_keys(force_pairs(input@))
                && two_distinct_keys(current_pairs(input@)) ==> r is Ok,
            r matches Ok(tables) ==> {
                &&& ordered_first_occurrences(force_pairs(input@), tables.0@)
                &&& ordered_first_occurrences(current_pairs(input@), tables.1@)
                &&& tables.0@.len() >= 2
                &&& tables.1@.len() >= 2
            },
    {
        let mut by_force: Vec<(i64, MotorRecord<D>)> = Vec::new();
        let mut by_current: Vec<(i64, MotorRecord<D>)> = Vec::new();
        let mut i: usize = 0;
        while i < input.len()
            invariant
                i <= input.len(),
                by_force@.len() == i,
                by_current@.len() == i,
                forall|k: int|
                    0 <= k < i ==> !((#[trigger] input@[k]).force_key is NonFinite)
                        && !(input@[k].current_key is NonFinite),
                forall|k: int| 0 <= k < i ==> #[trigger] by_force@[k] == force_pairs(input@)[k],
                forall|k: int| 0 <= k < i ==> #[trigger] by_current@[k] == current_pairs(input@)[k],
            decreases input.len() - i,
        {
            let keyed: KeyedRecord<D> = input[i];
            match (keyed.force_key, keyed.current_key) {
                (TableKey::Finite(force), TableKey::Finite(current)) => {
                    by_force.push((force, keyed.record));
                    by_current.push((current, keyed.record));
                },
                _ => {
                    assert(input@[i as int].force_key is NonFinite || input@[i as int].current_key
                        is NonFinite);
                    return Err(ConfigError::NonFiniteKey);
                },
            }
            i = i + 1;
        }
        assert(by_force@ =~= force_pairs(input@));
        assert(by_current@ =~= current_pairs(input@));
        let force_table: KeyedTable<MotorRecord<D>> = KeyedTable::from_unsorted(&by_force);
        let current_table: KeyedTable<MotorRecord<D>> = KeyedTable::from_unsorted(&by_current);
        proof {
            lemma_two_entries_iff_two_keys(by_force@, force_table@);
            lemma_two_entries_iff_two_keys(by_current@, current_table@);
        }
        if force_table.len() < 2 || current_table.len() < 2 {
            return Err(ConfigError::TooFewPoints);
        }
        Ok((force_table, current_table))
    }

    /// The calibration table with its two indexes.
    pub fn new(force_index: RecordIndex<D>, current_index: RecordIndex<D>) -> (r: Self)
        ensures
            r@ == (MotorDataModel { force: force_index@, current: current_index@ }),
    {
        MotorData { force_index, current_index }
    }

    /// The index by thrust.
    pub fn force_index(&self) -> (r: &RecordIndex<D>)
        ensures
            r@ == self@.force,
    {
        &self.force_index
    }

    /// The index by signed current.
    pub fn current_index(&self) -> (r: &RecordIndex<D>)
        ensures
            r@ == self@.current,
    {
        &self.current_index
    }

    /// The two records between which the thrust `force` is to be
    /// interpolated, found through the cell numbered `cell`.
    pub fn lookup_by_force(&self, cell: isize, force: i64) -> (r: (
        &MotorRecord<D>,
        &MotorRecord<D>,
    ))
        ensures
            *r.0 == self@.force.entries[self@.force.lookup(cell as int, force).0].1,
            *r.1 == self@.force.entries[self@.force.lookup(cell as int, force).1].1,
    {
        let (low, high) = self.force_index.lookup_nearest(cell, force);
        (self.force_index.record(low), self.force_index.record(high))
    }

    /// The two records between which the thrust `force` is to be
    /// interpolated, found by bisection.
    pub fn binary_search_by_force(&self, force: i64) -> (r: (&MotorRecord<D>, &MotorRecord<D>))
        ensures
            *r.0 == self@.force.entries[self@.force.nearest(force).0].1,
            *r.1 == self@.force.entries[self@.force.nearest(force).1].1,
    {
        let (low, high) = self.force_index.binary_search_nearest(force);
        (self.force_index.record(low), self.force_index.record(high))
    }

    /// The two records between which the signed current `signed_current` is
    /// to be interpolated, found through the cell numbered `cell`.
    pub fn lookup_by_current(&self, cell: isize, signed_current: i64) -> (r: (
        &MotorRecord<D>,
        &MotorRecord<D>,
    ))
        ensures
            *r.0 == self@.current.entries[self@.current.lookup(cell as int, signed_current).0].1,
            *r.1 == self@.current.entries[self@.current.lookup(cell as int, signed_current).1].1,
    {
        let (low, high) = self.current_index.lookup_nearest(cell, signed_current);
        (self.current_index.record(low), self.current_index.record(high))
    }

    /// The two records between which the signed current `signed_current` is
    /// to be interpolated, found by bisection.
    pub fn binary_search_by_current(&self, signed_current: i64) -> (r: (
        &MotorRecord<D>,
        &MotorRecord<D>,
    ))
        ensures
            *r.0 == self@.current.entries[self@.current.nearest(signed_current).0].1,
            *r.1 == self@.current.entries[self@.current.nearest(signed_current).1].1,
    {
        let (low, high) = self.current_index.binary_search_nearest(signed_current);
        (self.current_index.record(low), self.current_index.record(high))
    }
}

} // verus!
