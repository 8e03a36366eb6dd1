//! Time differences that never underflow: a clock reading earlier than the
//! reference counts as no time having passed.

use vstd::prelude::*;

verus! {

/// `a - b`, or 0 when `b` is later than `a`.
pub open spec fn saturating_diff(a: u64, b: u64) -> u64 {
    if a >= b { (a - b) as u64 } else { 0 }
}

/// The time from `then` to `now`, 0 when `then` is later.
pub fn elapsed(now: u64, then: u64) -> (d: u64)
    ensures
        d == saturating_diff(now, then),
{
    if now >= then { now - then } else { 0 }
}

} // verus!
