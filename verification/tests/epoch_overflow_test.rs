//! Ledger-time arithmetic never overflows or underflows: deadlines and
//! grace-period ends report overflow, time remaining saturates at zero, and
//! the reliability index decays to zero at worst.

use sorosusu::epoch::{
    appeal_window_end, deadline_from, grace_period_end, reliability_index_decay, time_remaining,
    APPEALS_TIMELOCK_SECS,
};

#[test]
fn test_deadline_normal_timestamps() {
    let now: u64 = 1_700_000_000;
    let cycle: u64 = 7 * 24 * 60 * 60;
    let deadline = deadline_from(now, cycle).expect("should not overflow");
    assert_eq!(deadline, now + cycle);
}

#[test]
fn test_deadline_far_future_timestamp() {
    let now: u64 = 1_700_000_000 + 100 * 365 * 24 * 60 * 60;
    let cycle: u64 = 30 * 24 * 60 * 60;
    let deadline = deadline_from(now, cycle).expect("should not overflow");
    assert!(deadline > now);
}

#[test]
fn test_deadline_near_u64_max_saturates() {
    let now: u64 = u64::MAX - 100;
    let cycle: u64 = 604_800;
    assert!(
        deadline_from(now, cycle).is_none(),
        "overflow must be detected, not silently wrap"
    );
}

#[test]
fn test_deadline_zero_cycle_duration() {
    let now: u64 = 1_700_000_000;
    let deadline = deadline_from(now, 0).expect("zero cycle should not overflow");
    assert_eq!(deadline, now);
}

#[test]
fn test_grace_period_end_normal() {
    let missed: u64 = 1_700_000_000;
    let grace: u64 = 24 * 60 * 60;
    let end = grace_period_end(missed, grace).expect("should not overflow");
    assert_eq!(end, missed + grace);
}

#[test]
fn test_grace_period_end_near_max() {
    let missed: u64 = u64::MAX - 1000;
    let grace: u64 = 86_400;
    assert!(
        grace_period_end(missed, grace).is_none(),
        "overflow must be detected"
    );
}

#[test]
fn test_time_remaining_before_deadline() {
    let deadline: u64 = 1_700_000_000 + 604_800;
    let now: u64 = 1_700_000_000;
    assert_eq!(time_remaining(deadline, now), 604_800);
}

#[test]
fn test_time_remaining_after_deadline_does_not_underflow() {
    let deadline: u64 = 1_700_000_000;
    let now: u64 = 1_700_000_000 + 1_000_000;
    assert_eq!(
        time_remaining(deadline, now),
        0,
        "saturating_sub must return 0, not underflow"
    );
}

#[test]
fn test_time_remaining_at_exact_deadline() {
    let ts: u64 = 1_700_000_000;
    assert_eq!(time_remaining(ts, ts), 0);
}

#[test]
fn test_time_remaining_zero_deadline() {
    assert_eq!(time_remaining(0, 1_000), 0);
}

#[test]
fn test_multi_cycle_deadline_chain_no_overflow() {
    let mut ts: u64 = 1_700_000_000;
    let cycle: u64 = 30 * 24 * 60 * 60;
    let cycles: u32 = 1_200;

    for _ in 0..cycles {
        let next = deadline_from(ts, cycle).expect("cycle chain must not overflow");
        assert!(next > ts, "each deadline must be strictly later");
        ts = next;
    }
}

#[test]
fn test_ri_decay_normal() {
    let ri: u64 = 10_000;
    let elapsed: u64 = 7 * 86_400;
    let decay_per_day: u64 = 10;
    let result = reliability_index_decay(ri, elapsed, decay_per_day);
    assert_eq!(result, 10_000 - 7 * 10);
}

#[test]
fn test_ri_decay_saturates_at_zero() {
    let ri: u64 = 100;
    let elapsed: u64 = u64::MAX;
    let decay_per_day: u64 = 1;
    let result = reliability_index_decay(ri, elapsed, decay_per_day);
    assert_eq!(result, 0, "RI must saturate at 0, not underflow");
}

#[test]
fn test_ri_decay_zero_elapsed() {
    let ri: u64 = 8_000;
    let result = reliability_index_decay(ri, 0, 10);
    assert_eq!(result, ri, "no time elapsed means no decay");
}

#[test]
fn test_appeals_timelock_window_calculation() {
    let slash_time: u64 = 1_700_000_000;
    let release_time = appeal_window_end(slash_time).expect("timelock addition must not overflow");
    assert_eq!(release_time, slash_time + 259_200);
}

#[test]
fn test_appeals_timelock_within_window() {
    let slash_time: u64 = 1_700_000_000;
    let release_time = slash_time + APPEALS_TIMELOCK_SECS;
    let now: u64 = slash_time + 100_000;
    assert!(now < release_time, "appeal window should still be open");
}

#[test]
fn test_appeals_timelock_expired() {
    let slash_time: u64 = 1_700_000_000;
    let release_time = slash_time + APPEALS_TIMELOCK_SECS;
    let now: u64 = release_time + 1;
    assert!(now >= release_time, "appeal window should be closed");
}

#[test]
fn ri_decay_huge_rate_overflows_to_zero() {
    // days * rate exceeds u64: the decay is larger than any index.
    assert_eq!(reliability_index_decay(u64::MAX, 2 * 86_400, u64::MAX), 0);
}

#[test]
fn ri_decay_partial_day_does_not_count() {
    assert_eq!(reliability_index_decay(500, 86_399, 7), 500);
    assert_eq!(reliability_index_decay(500, 86_400, 7), 493);
}

#[test]
fn appeal_window_end_overflow_is_reported() {
    assert!(appeal_window_end(u64::MAX - 10).is_none());
}

#[test]
fn time_remaining_plus_now_is_deadline() {
    let deadline: u64 = 5_000;
    for now in [0u64, 1, 4_999] {
        assert_eq!(time_remaining(deadline, now) + now, deadline);
    }
}
