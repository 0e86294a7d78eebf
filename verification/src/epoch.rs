//! Time arithmetic on ledger timestamps (seconds).
//!
//! Every function here is total: additions that could leave the `u64` range
//! report `None`, and differences saturate at zero.
use vstd::prelude::*;

verus! {

/// Length of the appeals timelock: 72 hours, in seconds.
pub const APPEALS_TIMELOCK_SECS: u64 = 259_200;

/// Seconds in one day.
pub const SECS_PER_DAY: u64 = 86_400;

/// `a + b` when the sum fits in a `u64`, else `None`.
pub open spec fn checked_sum(a: u64, b: u64) -> Option<u64> {
    if a + b <= u64::MAX {
        Some((a + b) as u64)
    } else {
        None
    }
}

/// `a - b`, or zero when `b >= a`.
pub open spec fn saturating_diff(a: u64, b: u64) -> u64 {
    if a >= b {
        (a - b) as u64
    } else {
        0
    }
}

/// The reliability index after `elapsed_secs` seconds at `decay_rate_per_day`
/// per whole day elapsed, floored at zero.
pub open spec fn decayed_index(ri: u64, elapsed_secs: u64, decay_rate_per_day: u64) -> u64 {
    let decay = (elapsed_secs / SECS_PER_DAY) * decay_rate_per_day;
    if decay >= ri {
        0
    } else {
        (ri - decay) as u64
    }
}

/// The deadline `cycle_duration` seconds after `current_time`, or `None` when
/// that instant does not fit in a `u64`.
pub fn deadline_from(current_time: u64, cycle_duration: u64) -> (res: Option<u64>)
    ensures
        res == checked_sum(current_time, cycle_duration),
{
    current_time.checked_add(cycle_duration)
}

/// The end of a grace period of `grace_period` seconds that starts at the
/// missed deadline, or `None` when that instant does not fit in a `u64`.
pub fn grace_period_end(missed_deadline: u64, grace_period: u64) -> (res: Option<u64>)
    ensures
        res == checked_sum(missed_deadline, grace_period),
{
    missed_deadline.checked_add(grace_period)
}

/// Seconds left until `deadline`; zero once `current_time` has reached it.
pub fn time_remaining(deadline: u64, current_time: u64) -> (res: u64)
    ensures
        res == saturating_diff(deadline, current_time),
{
    deadline.saturating_sub(current_time)
}

/// The reliability index `ri` after `elapsed_secs` seconds: it loses
/// `decay_rate_per_day` for each whole day elapsed and never goes below zero.
pub fn reliability_index_decay(ri: u64, elapsed_secs: u64, decay_rate_per_day: u64) -> (res: u64)
    ensures
        res == decayed_index(ri, elapsed_secs, decay_rate_per_day),
{
    let days_elapsed = elapsed_secs / SECS_PER_DAY;
    match days_elapsed.checked_mul(decay_rate_per_day) {
        Some(decay) => ri.saturating_sub(decay),
        // The decay exceeds every `u64`, so it exceeds `ri` too.
        None => 0,
    }
}

/// The instant at which the appeals window of a slash made at `slash_time`
/// closes, or `None` when it does not fit in a `u64`.
pub fn appeal_window_end(slash_time: u64) -> (res: Option<u64>)
    ensures
        res == checked_sum(slash_time, APPEALS_TIMELOCK_SECS),
{
    slash_time.checked_add(APPEALS_TIMELOCK_SECS)
}

/// A deadline computed from a time and a cycle lies strictly after that time
/// whenever the cycle is not empty, and never before it.
pub proof fn lemma_deadline_after_start(current_time: u64, cycle_duration: u64)
    ensures
        checked_sum(current_time, cycle_duration) matches Some(d) ==> d >= current_time
            && (cycle_duration > 0 ==> d > current_time),
{
}

/// No time remains exactly when the current time has reached the deadline.
pub proof fn lemma_time_remaining_zero_iff_reached(deadline: u64, current_time: u64)
    ensures
        (saturating_diff(deadline, current_time) == 0) <==> (current_time >= deadline),
        current_time < deadline ==> saturating_diff(deadline, current_time) + current_time
            == deadline,
{
}

/// Decay never raises the index, and more elapsed time never leaves a higher
/// index than less elapsed time.
pub proof fn lemma_decay_monotone(ri: u64, e1: u64, e2: u64, rate: u64)
    requires
        e1 <= e2,
    ensures
        decayed_index(ri, e1, rate) <= ri,
        decayed_index(ri, e2, rate) <= decayed_index(ri, e1, rate),
        decayed_index(ri, 0, rate) == ri,
{
    assert(e1 / SECS_PER_DAY <= e2 / SECS_PER_DAY) by (nonlinear_arith)
        requires e1 <= e2;
    assert((e1 / SECS_PER_DAY) * rate <= (e2 / SECS_PER_DAY) * rate) by (nonlinear_arith)
        requires e1 / SECS_PER_DAY <= e2 / SECS_PER_DAY;
    assert((0u64 / SECS_PER_DAY) * rate == 0) by (nonlinear_arith);
}

/// Decay takes `rate` points for each whole day elapsed: after `d` whole
/// days (and less than a day more) the index is `ri - d * rate`, or zero if
/// that is negative.
pub proof fn lemma_decay_per_whole_day(ri: u64, elapsed: u64, rate: u64, d: nat)
    requires
        d * SECS_PER_DAY <= elapsed < (d + 1) * SECS_PER_DAY,
    ensures
        d * rate < ri ==> decayed_index(ri, elapsed, rate) == ri - d * rate,
        d * rate >= ri ==> decayed_index(ri, elapsed, rate) == 0,
{
    assert(elapsed / SECS_PER_DAY == d) by (nonlinear_arith)
        requires d * 86400 <= elapsed < (d + 1) * 86400;
}

/// A checked sum is the exact sum whenever it fits, and missing otherwise.
pub proof fn lemma_checked_sum_exact(a: u64, b: u64)
    ensures
        a + b <= u64::MAX ==> checked_sum(a, b) == Some((a + b) as u64),
        a + b > u64::MAX ==> checked_sum(a, b) is None,
        saturating_diff(a, b) == (if a >= b { a - b } else { 0 }),
{
}

} // verus!
