use symphony::orchestrator::retry::{
    compute_backoff, compute_failure_backoff, compute_tracker_backoff, ExitType,
};

#[test]
fn compute_normal_backoff() {
    // Normal exit always gets 1 second
    assert_eq!(compute_backoff(ExitType::Normal, 1, 300_000), 1_000);
    assert_eq!(compute_backoff(ExitType::Normal, 5, 300_000), 1_000);
}

#[test]
fn compute_failure_backoff_basic() {
    // Attempt 1: 10s
    assert_eq!(compute_backoff(ExitType::Failure, 1, 300_000), 10_000);
    // Attempt 2: 20s
    assert_eq!(compute_backoff(ExitType::Failure, 2, 300_000), 20_000);
    // Attempt 3: 40s
    assert_eq!(compute_backoff(ExitType::Failure, 3, 300_000), 40_000);
    // Attempt 4: 80s
    assert_eq!(compute_backoff(ExitType::Failure, 4, 300_000), 80_000);
}

#[test]
fn compute_failure_backoff_cap() {
    // With 60 second cap
    assert_eq!(compute_backoff(ExitType::Failure, 1, 60_000), 10_000);
    assert_eq!(compute_backoff(ExitType::Failure, 2, 60_000), 20_000);
    assert_eq!(compute_backoff(ExitType::Failure, 3, 60_000), 40_000);
    // Attempt 4 would be 80s, capped at 60s
    assert_eq!(compute_backoff(ExitType::Failure, 4, 60_000), 60_000);
    assert_eq!(compute_backoff(ExitType::Failure, 10, 60_000), 60_000);
}

#[test]
fn compute_failure_backoff_5_minute_cap() {
    // Default cap: 5 minutes (300 seconds = 300,000 ms)
    // 2^5 = 32, so attempt 6: 10 * 32 = 320s > 300s
    assert_eq!(compute_backoff(ExitType::Failure, 5, 300_000), 160_000);
    assert_eq!(compute_backoff(ExitType::Failure, 6, 300_000), 300_000);
}

#[test]
fn direct_failure_backoff_function() {
    // Test the standalone function
    assert_eq!(compute_failure_backoff(1, 300_000), 10_000);
    assert_eq!(compute_failure_backoff(2, 300_000), 20_000);
}

#[test]
fn tracker_backoff_doubles_each_failure() {
    // poll_interval = 30s
    assert_eq!(compute_tracker_backoff(30_000, 1), 30_000); // 30s * 2^0
    assert_eq!(compute_tracker_backoff(30_000, 2), 60_000); // 30s * 2^1
    assert_eq!(compute_tracker_backoff(30_000, 3), 120_000); // 30s * 2^2
    assert_eq!(compute_tracker_backoff(30_000, 4), 240_000); // 30s * 2^3
}

#[test]
fn tracker_backoff_capped_at_5_minutes() {
    // 30s * 2^4 = 480s > 300s cap
    assert_eq!(compute_tracker_backoff(30_000, 5), 300_000);
    assert_eq!(compute_tracker_backoff(30_000, 10), 300_000);
    assert_eq!(compute_tracker_backoff(30_000, 100), 300_000);
}

#[test]
fn tracker_backoff_saturates_on_overflow() {
    // Extremely large values should not panic
    assert_eq!(compute_tracker_backoff(u64::MAX, 100), 300_000);
    assert_eq!(compute_tracker_backoff(30_000, u32::MAX), 300_000);
}

#[test]
fn tracker_backoff_with_zero_failures() {
    // Edge case: 0 failures (should not happen, but be safe)
    assert_eq!(compute_tracker_backoff(30_000, 0), 30_000);
}

#[test]
fn failure_backoff_with_zero_attempts() {
    assert_eq!(compute_failure_backoff(0, 300_000), 10_000);
}

#[test]
fn failure_backoff_below_the_base() {
    assert_eq!(compute_failure_backoff(1, 500), 500);
    assert_eq!(compute_failure_backoff(7, 0), 0);
}

#[test]
fn failure_backoff_with_a_huge_cap() {
    // 10,000 * 2^50 still fits, 10,000 * 2^51 does not
    assert_eq!(compute_failure_backoff(51, u64::MAX), 11_258_999_068_426_240_000);
    assert_eq!(compute_failure_backoff(52, u64::MAX), u64::MAX);
    assert_eq!(compute_failure_backoff(65, u64::MAX), u64::MAX);
    assert_eq!(compute_failure_backoff(u32::MAX, u64::MAX), u64::MAX);
}

#[test]
fn failure_backoff_does_not_fall_and_doubles() {
    let mut attempt: u32 = 1;
    while attempt < 80 {
        let delay = compute_failure_backoff(attempt, 1_000_000_000);
        let next = compute_failure_backoff(attempt + 1, 1_000_000_000);
        assert!(delay <= next);
        assert!(10_000 <= delay && delay <= 1_000_000_000);
        assert_eq!(next, (2 * delay).min(1_000_000_000));
        attempt += 1;
    }
}

#[test]
fn normal_backoff_ignores_attempt_and_cap() {
    assert_eq!(compute_backoff(ExitType::Normal, 0, 0), 1_000);
    assert_eq!(compute_backoff(ExitType::Normal, u32::MAX, u64::MAX), 1_000);
}

#[test]
fn tracker_backoff_without_interval_stays_zero() {
    assert_eq!(compute_tracker_backoff(0, 1), 0);
    assert_eq!(compute_tracker_backoff(0, u32::MAX), 0);
}

#[test]
fn tracker_backoff_with_a_long_interval() {
    assert_eq!(compute_tracker_backoff(300_001, 1), 300_000);
    assert_eq!(compute_tracker_backoff(1, 19), 262_144);
    assert_eq!(compute_tracker_backoff(1, 20), 300_000);
}
