//! Instants in whole seconds since the Unix epoch, and the two small
//! operations the schedule applies to them: rounding to the nearest minute
//! and shifting by a number of minutes.

use vstd::prelude::*;
use crate::num::{mod_euclid, NUM_BOUND};

verus! {

/// Bound on the magnitude of every instant the crate works with
/// (about 125 000 years either side of the epoch); wide enough for the
/// supported calendar years, narrow enough that all arithmetic on
/// instants stays inside `i64`.
pub const INSTANT_BOUND: i64 = 4_000_000_000_000;

/// Bound on the magnitude of a per-prayer adjustment, in minutes.
pub const ADJUSTMENT_BOUND: i64 = 1_000_000;

/// The instant moved to the nearest minute boundary: seconds thirty and
/// above round up, below thirty round down.
pub open spec fn nearest_minute_spec(t: int) -> int {
    if t % 60 >= 30 {
        t + (60 - t % 60)
    } else {
        t - t % 60
    }
}

/// The instant shifted by `minutes` whole minutes.
pub open spec fn adjusted_spec(t: int, minutes: int) -> int {
    t + minutes * 60
}

/// Rounding to the nearest minute moves an instant at most twenty-nine
/// seconds back or thirty forward, and is idempotent.
pub proof fn lemma_nearest_minute_range(t: int)
    ensures
        t - 29 <= nearest_minute_spec(t) <= t + 30,
        nearest_minute_spec(t) % 60 == 0,
        nearest_minute_spec(nearest_minute_spec(t)) == nearest_minute_spec(t),
{
    vstd::arithmetic::div_mod::lemma_fundamental_div_mod(t, 60);
    vstd::arithmetic::div_mod::lemma_mod_bound(t, 60);
    let r = nearest_minute_spec(t);
    let q = t / 60;
    if t % 60 >= 30 {
        assert(r == 60 * (q + 1)) by (nonlinear_arith)
            requires
                t == 60 * q + t % 60,
                r == t + (60 - t % 60),
        ;
        vstd::arithmetic::div_mod::lemma_fundamental_div_mod_converse_mod(r, 60, q + 1, 0);
    } else {
        assert(r == 60 * q) by (nonlinear_arith)
            requires
                t == 60 * q + t % 60,
                r == t - t % 60,
        ;
        vstd::arithmetic::div_mod::lemma_fundamental_div_mod_converse_mod(r, 60, q, 0);
    }
}

/// Rounds an instant to the nearest minute, half a minute rounding up.
pub fn nearest_minute(t: i64) -> (r: i64)
    requires
        -NUM_BOUND <= t <= NUM_BOUND,
    ensures
        r == nearest_minute_spec(t as int),
        t - 29 <= r <= t + 30,
{
    let s = mod_euclid(t, 60);
    if s >= 30 {
        t + (60 - s)
    } else {
        t - s
    }
}

/// Shifts an instant by a number of whole minutes.
pub fn adjust_time(t: i64, minutes: i64) -> (r: i64)
    requires
        -NUM_BOUND <= t <= NUM_BOUND,
        -3 * ADJUSTMENT_BOUND <= minutes <= 3 * ADJUSTMENT_BOUND,
    ensures
        r == adjusted_spec(t as int, minutes as int),
{
    t + minutes * 60
}

} // verus!
