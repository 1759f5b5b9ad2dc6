//! Tables ordered by an integer key, each key at most once.
//!
//! Calibration records are found by a measured quantity and thrusters by
//! their identifier.  Both tables are kept here under an integer key that the
//! owner derives from the quantity in an order-preserving way, so that the
//! order of the keys is the order of what they stand for.

use vstd::prelude::*;

verus! {

/// The key that stands for a quantity in the caller's scalar type.
///
/// Keys rise with the quantities they stand for, and equal quantities have
/// equal keys.  For a single-precision value the key is the magnitude of its
/// bit pattern, negated where the sign bit is set: so the two zeros share the
/// key zero, and the keys of finite values lie strictly between those of the
/// two infinities.
#[derive(Clone, Copy, Debug, PartialEq, Eq, Structural)]
pub enum TableKey {
    /// A finite quantity.
    Finite(i64),
    /// An infinity, or not a number.
    NonFinite,
}

impl TableKey {
    /// The key of a finite quantity; zero stands in for the others, which no
    /// table takes.
    pub open spec fn value(self) -> i64 {
        match self {
            TableKey::Finite(key) => key,
            TableKey::NonFinite => 0,
        }
    }
}

/// The keys of `entries` rise strictly.
pub open spec fn strictly_increasing<T>(entries: Seq<(i64, T)>) -> bool {
    forall|i: int, j: int|
        0 <= i < j < entries.len() ==> (#[trigger] entries[i]).0 < (#[trigger] entries[j]).0
}

/// Some entry of `entries` has the key `key`.
pub open spec fn key_present<T>(entries: Seq<(i64, T)>, key: i64) -> bool {
    exists|j: int| 0 <= j < entries.len() && (#[trigger] entries[j]).0 == key
}

/// `input[p]` is `entry`, and no earlier element of `input` has its key.
pub open spec fn first_at<T>(input: Seq<(i64, T)>, p: int, entry: (i64, T)) -> bool {
    &&& 0 <= p < input.len()
    &&& input[p] == entry
    &&& forall|q: int| 0 <= q < p ==> (#[trigger] input[q]).0 != entry.0
}

/// `entry` is the first element of `input` with its key.
pub open spec fn first_of_its_key<T>(input: Seq<(i64, T)>, entry: (i64, T)) -> bool {
    exists|p: int| #[trigger] first_at(input, p, entry)
}

/// `entry` is the first element of `input` with its key, and stands before
/// place `bound`.
spec fn first_before<T>(input: Seq<(i64, T)>, bound: int, entry: (i64, T)) -> bool {
    exists|p: int| p < bound && #[trigger] first_at(input, p, entry)
}

/// `entries` is `input` ordered by key with, of the elements that share a
/// key, only the first kept.
pub open spec fn ordered_first_occurrences<T>(
    input: Seq<(i64, T)>,
    entries: Seq<(i64, T)>,
) -> bool {
    &&& strictly_increasing(entries)
    &&& forall|p: int| 0 <= p < input.len() ==> key_present(entries, (#[trigger] input[p]).0)
    &&& forall|j: int| 0 <= j < entries.len() ==> first_of_its_key(input, #[trigger] entries[j])
}

/// Two tables that both hold the ordered first occurrences of `input` agree
/// on the keys of their first `upto` entries.
proof fn lemma_same_keys<T>(input: Seq<(i64, T)>, a: Seq<(i64, T)>, b: Seq<(i64, T)>, upto: int)
    requires
        ordered_first_occurrences(input, a),
        ordered_first_occurrences(input, b),
        0 <= upto <= a.len(),
    ensures
        upto <= b.len(),
        forall|k: int| 0 <= k < upto ==> (#[trigger] a[k]).0 == b[k].0,
    decreases upto,
{
    if upto > 0 {
        lemma_same_keys(input, a, b, upto - 1);
        let i = upto - 1;
        // The key of a[i] is a key of the input, so b holds it, at some place j.
        let pa = choose|p: int| #[trigger] first_at(input, p, a[i]);
        assert(key_present(b, input[pa].0));
        let j = choose|j: int| 0 <= j < b.len() && (#[trigger] b[j]).0 == a[i].0;
        if j < i {
            assert(a[j].0 == b[j].0);
            assert(a[j].0 < a[i].0);
        } else if j > i {
            // Then b[i] has a smaller key, which a holds at some place m below i.
            assert(b[i].0 < b[j].0);
            let pb = choose|p: int| #[trigger] first_at(input, p, b[i]);
            assert(key_present(a, input[pb].0));
            let m = choose|m: int| 0 <= m < a.len() && (#[trigger] a[m]).0 == b[i].0;
            if m >= i {
                if m > i {
                    assert(a[i].0 < a[m].0);
                }
            } else {
                assert(a[m].0 == b[m].0);
                assert(b[m].0 < b[i].0);
            }
        }
    }
}

/// The table of an input is determined by it: two tables that both hold the
/// ordered first occurrences of `input` are equal.
pub proof fn lemma_table_is_determined<T>(
    input: Seq<(i64, T)>,
    a: Seq<(i64, T)>,
    b: Seq<(i64, T)>,
)
    requires
        ordered_first_occurrences(input, a),
        ordered_first_occurrences(input, b),
    ensures
        a == b,
{
    lemma_same_keys(input, a, b, a.len() as int);
    lemma_same_keys(input, b, a, b.len() as int);
    assert forall|k: int| 0 <= k < a.len() implies a[k] == b[k] by {
        let pa = choose|p: int| #[trigger] first_at(input, p, a[k]);
        let pb = choose|p: int| #[trigger] first_at(input, p, b[k]);
        assert(a[k].0 == b[k].0);
        if pa < pb {
            assert(input[pa].0 != b[k].0);
        } else if pb < pa {
            assert(input[pb].0 != a[k].0);
        }
    }
    assert(a =~= b);
}

/// How many entries have a key below `val`.
pub open spec fn count_below<T>(entries: Seq<(i64, T)>, val: i64) -> int
    decreases entries.len(),
{
    if entries.len() == 0 {
        0
    } else {
        count_below(entries.drop_last(), val) + if entries.last().0 < val {
            1int
        } else {
            0int
        }
    }
}

/// In a table whose keys rise, the entries with a key below `val` are the
/// first `count_below` ones.
pub proof fn lemma_count_below_splits<T>(entries: Seq<(i64, T)>, val: i64)
    requires
        strictly_increasing(entries),
    ensures
        0 <= count_below(entries, val) <= entries.len(),
        forall|j: int| 0 <= j < count_below(entries, val) ==> (#[trigger] entries[j]).0 < val,
        forall|j: int|
            count_below(entries, val) <= j < entries.len() ==> (#[trigger] entries[j]).0 >= val,
    decreases entries.len(),
{
    if entries.len() > 0 {
        let front = entries.drop_last();
        assert forall|i: int, j: int| 0 <= i < j < front.len() implies (#[trigger] front[i]).0 < (
        #[trigger] front[j]).0 by {
            assert(front[i] == entries[i] && front[j] == entries[j]);
        }
        lemma_count_below_splits(front, val);
        let c = count_below(front, val);
        assert forall|j: int| 0 <= j < count_below(entries, val) implies (#[trigger] entries[j]).0
            < val by {
            if j < front.len() {
                assert(front[j] == entries[j]);
                if j >= c {
                    // Then the last key is below `val`, and so is every key before it.
                    assert(entries.last().0 < val);
                    assert(entries[j].0 < entries[entries.len() - 1].0);
                }
            }
        }
        assert forall|j: int| count_below(entries, val) <= j < entries.len() implies (
        #[trigger] entries[j]).0 >= val by {
            if j < front.len() {
                assert(front[j] == entries[j]);
            }
        }
    }
}

/// A split point of a rising table is its `count_below`.
pub proof fn lemma_split_is_count_below<T>(entries: Seq<(i64, T)>, val: i64, r: int)
    requires
        strictly_increasing(entries),
        0 <= r <= entries.len(),
        forall|j: int| 0 <= j < r ==> (#[trigger] entries[j]).0 < val,
        forall|j: int| r <= j < entries.len() ==> (#[trigger] entries[j]).0 >= val,
    ensures
        r == count_below(entries, val),
{
    lemma_count_below_splits(entries, val);
    let c = count_below(entries, val);
    if c < r {
        assert(entries[c].0 < val);
        assert(entries[c].0 >= val);
    } else if r < c {
        assert(entries[r].0 < val);
        assert(entries[r].0 >= val);
    }
}

/// The count of keys below a value does not fall when the value rises.
pub proof fn lemma_count_below_monotone<T>(entries: Seq<(i64, T)>, x: i64, y: i64)
    requires
        x <= y,
    ensures
        count_below(entries, x) <= count_below(entries, y),
    decreases entries.len(),
{
    if entries.len() > 0 {
        lemma_count_below_monotone(entries.drop_last(), x, y);
    }
}

/// A table ordered by key, each key at most once.
#[derive(Debug)]
pub struct KeyedTable<T> {
    entries: Vec<(i64, T)>,
}

impl<T> View for KeyedTable<T> {
    type V = Seq<(i64, T)>;

    closed spec fn view(&self) -> Seq<(i64, T)> {
        self.entries@
    }
}

impl<T> KeyedTable<T> {
    #[verifier::type_invariant]
    spec fn inv(self) -> bool {
        strictly_increasing(self.entries@)
    }
}

impl<T: Copy> KeyedTable<T> {
    /// The table of `input`: ordered by key, and of the elements that share
    /// a key only the first.
    pub fn from_unsorted(input: &Vec<(i64, T)>) -> (r: Self)
        ensures
            ordered_first_occurrences(input@, r@),
            r@.len() <= input@.len(),
    {
        let mut entries: Vec<(i64, T)> = Vec::new();
        let mut i: usize = 0;
        while i < input.len()
            invariant
                i <= input.len(),
                entries@.len() <= i,
                strictly_increasing(entries@),
                forall|p: int| 0 <= p < i ==> key_present(entries@, (#[trigger] input@[p]).0),
                forall|j: int|
                    0 <= j < entries@.len() ==> first_before(input@, i as int, #[trigger] entries@[j]),
            decreases input.len() - i,
        {
            let entry: (i64, T) = input[i];
            let key: i64 = entry.0;
            // The place of `key`: behind every smaller key.
            let mut pos: usize = 0;
            while pos < entries.len() && entries[pos].0 < key
                invariant
                    pos <= entries@.len(),
                    strictly_increasing(entries@),
                    forall|j: int| 0 <= j < pos ==> (#[trigger] entries@[j]).0 < key,
                decreases entries@.len() - pos,
            {
                pos = pos + 1;
            }
            let ghost before = entries@;
            if pos < entries.len() && entries[pos].0 == key {
                assert(key_present(entries@, input@[i as int].0));
            } else {
                assert(forall|j: int| pos <= j < before.len() ==> (#[trigger] before[j]).0 > key) by {
                    assert forall|j: int| pos <= j < before.len() implies (#[trigger] before[j]).0
                        > key by {
                        if j > pos {
                            assert(before[pos as int].0 < before[j].0);
                        }
                    }
                }
                assert(!key_present(before, key));
                entries.insert(pos, entry);
                let ghost after = entries@;
                assert forall|a: int, b: int| 0 <= a < b < after.len() implies (#[trigger] after[a]).0
                    < (#[trigger] after[b]).0 by {
                    let oa = if a < pos { a } else { a - 1 };
                    let ob = if b < pos { b } else { b - 1 };
                    if a != pos && b != pos {
                        assert(after[a] == before[oa] && after[b] == before[ob]);
                    } else if a == pos {
                        assert(after[b] == before[ob]);
                    } else {
                        assert(after[a] == before[oa]);
                    }
                }
                assert forall|p: int| 0 <= p < i + 1 implies key_present(
                    after,
                    (#[trigger] input@[p]).0,
                ) by {
                    if p < i {
                        assert(key_present(before, input@[p].0));
                        let j = choose|j: int|
                            0 <= j < before.len() && (#[trigger] before[j]).0 == input@[p].0;
                        let nj = if j < pos { j } else { j + 1 };
                        assert(after[nj] == before[j]);
                    } else {
                        assert(after[pos as int].0 == key);
                    }
                }
                assert forall|j: int| 0 <= j < after.len() implies first_before(
                    input@,
                    i + 1,
                    #[trigger] after[j],
                ) by {
                    if j == pos {
                        assert forall|q: int| 0 <= q < i implies (#[trigger] input@[q]).0
                            != key by {
                            if input@[q].0 == key {
                                assert(key_present(before, input@[q].0));
                            }
                        }
                        assert(first_at(input@, i as int, after[j]));
                    } else {
                        let oj = if j < pos { j } else { j - 1 };
                        assert(after[j] == before[oj]);
                        assert(first_before(input@, i as int, before[oj]));
                        let p = choose|p: int| p < i && #[trigger] first_at(input@, p, before[oj]);
                        assert(first_at(input@, p, after[j]));
                    }
                }
            }
            proof {
                if entries@ == before {
                    assert forall|j: int| 0 <= j < before.len() implies first_before(
                        input@,
                        i + 1,
                        #[trigger] before[j],
                    ) by {
                        assert(first_before(input@, i as int, before[j]));
                        let p = choose|p: int| p < i && #[trigger] first_at(input@, p, before[j]);
                        assert(first_at(input@, p, before[j]));
                    }
                }
            }
            i = i + 1;
        }
        assert forall|j: int| 0 <= j < entries@.len() implies first_of_its_key(
            input@,
            #[trigger] entries@[j],
        ) by {
            assert(first_before(input@, i as int, entries@[j]));
            let p = choose|p: int| p < i && #[trigger] first_at(input@, p, entries@[j]);
            assert(first_at(input@, p, entries@[j]));
        }
        KeyedTable { entries }
    }

    /// The number of entries, whose keys rise strictly.
    pub fn len(&self) -> (r: usize)
        ensures
            r == self@.len(),
            strictly_increasing(self@),
    {
        proof {
            use_type_invariant(self);
        }
        self.entries.len()
    }

    /// The key of entry `index`.
    pub fn key(&self, index: usize) -> (r: i64)
        requires
            index < self@.len(),
        ensures
            r == self@[index as int].0,
    {
        self.entries[index].0
    }

    /// What entry `index` holds.
    pub fn item(&self, index: usize) -> (r: &T)
        requires
            index < self@.len(),
        ensures
            *r == self@[index as int].1,
    {
        &self.entries[index].1
    }

    /// How many entries have a key below `val`; they are the first so many.
    pub fn partition_point(&self, val: i64) -> (r: usize)
        ensures
            r == count_below(self@, val),
            r <= self@.len(),
            strictly_increasing(self@),
            forall|j: int| 0 <= j < r ==> (#[trigger] self@[j]).0 < val,
            forall|j: int| r <= j < self@.len() ==> (#[trigger] self@[j]).0 >= val,
    {
        proof {
            use_type_invariant(self);
        }
        let mut lo: usize = 0;
        let mut hi: usize = self.entries.len();
        while lo < hi
            invariant
                lo <= hi <= self.entries@.len(),
                strictly_increasing(self.entries@),
                forall|j: int| 0 <= j < lo ==> (#[trigger] self.entries@[j]).0 < val,
                forall|j: int| hi <= j < self.entries@.len() ==> (#[trigger] self.entries@[j]).0 >= val,
            decreases hi - lo,
        {
            let mid: usize = lo + (hi - lo) / 2;
            if self.entries[mid].0 < val {
                assert forall|j: int| 0 <= j < mid + 1 implies (#[trigger] self.entries@[j]).0
                    < val by {
                    if j < mid {
                        assert(self.entries@[j].0 < self.entries@[mid as int].0);
                    }
                }
                lo = mid + 1;
            } else {
                assert forall|j: int| mid <= j < self.entries@.len() implies (
                #[trigger] self.entries@[j]).0 >= val by {
                    if j > mid {
                        assert(self.entries@[mid as int].0 < self.entries@[j].0);
                    }
                }
                hi = mid;
            }
        }
        proof {
            lemma_split_is_count_below(self.entries@, val, lo as int);
        }
        lo
    }

    /// The place of the entry with the key `key`, where there is one.
    pub fn position(&self, key: i64) -> (r: Option<usize>)
        ensures
            r is Some <==> key_present(self@, key),
            r matches Some(i) ==> i < self@.len() && self@[i as int].0 == key,
    {
        let p: usize = self.partition_point(key);
        if p < self.entries.len() && self.entries[p].0 == key {
            Some(p)
        } else {
            proof {
                if key_present(self@, key) {
                    let j = choose|j: int| 0 <= j < self@.len() && (#[trigger] self@[j]).0 == key;
                    if j < p {
                        assert(self@[j].0 < key);
                    } else if j > p {
                        use_type_invariant(self);
                        assert(self@[p as int].0 < self@[j].0);
                    }
                }
            }
            None
        }
    }
}

} // verus!
