//! A job record for a deferred-work queue: identity, payload, schedule time,
//! and retry bookkeeping with exponential backoff.

pub mod job;

use vstd::prelude::*;

verus! {

/// Saturating addition on `i64`: the exact sum where it fits, else the
/// nearest representable bound.
pub open spec fn sat_add_i64(a: int, b: int) -> int {
    if a + b > i64::MAX {
        i64::MAX as int
    } else if a + b < i64::MIN {
        i64::MIN as int
    } else {
        a + b
    }
}

/// Adds two `i64` values, clamping the result to the `i64` range.
pub fn saturating_add_i64(a: i64, b: i64) -> (r: i64)
    ensures
        r == sat_add_i64(a as int, b as int),
{
    if b >= 0 {
        if a > i64::MAX - b {
            i64::MAX
        } else {
            a + b
        }
    } else {
        if a < i64::MIN - b {
            i64::MIN
        } else {
            a + b
        }
    }
}

} // verus!
