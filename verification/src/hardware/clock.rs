//! Time as the bridges read it: microseconds on a clock that never runs
//! backwards.

use vstd::prelude::*;

verus! {

/// Time from `since` to `now`, zero where `now` is the earlier.
pub open spec fn elapsed(since: u64, now: u64) -> int {
    if now >= since {
        now - since
    } else {
        0
    }
}

/// Time from `since` to `now`, zero where the clock was read out of order.
pub fn micros_since(since: u64, now: u64) -> (r: u64)
    ensures
        r == elapsed(since, now),
{
    if now >= since {
        now - since
    } else {
        0
    }
}

} // verus!
