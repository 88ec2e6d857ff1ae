//! Retry queue and backoff computation

use vstd::arithmetic::power2::{lemma_pow2_strictly_increases, lemma_pow2_unfold, pow2};
use vstd::prelude::*;

verus! {

broadcast use vstd::arithmetic::power2::lemma_pow2_pos;

/// Exit type for retry backoff calculation
#[derive(Debug, Clone, Copy, PartialEq, Eq, Structural)]
pub enum ExitType {
    /// Normal exit (success or expected end) - use short delay
    Normal,
    /// Failure exit - use exponential backoff
    Failure,
}

/// Delay after a normal exit in milliseconds (1 second)
pub const NORMAL_BACKOFF_MS: u64 = 1_000;

/// Delay after the first failure in milliseconds (10 seconds)
pub const BASE_FAILURE_BACKOFF_MS: u64 = 10_000;

/// Maximum tracker backoff in milliseconds (5 minutes)
pub const MAX_TRACKER_BACKOFF_MS: u64 = 300_000;

/// How often the delay has doubled by the `n`-th failure, counted from 1. A
/// count of 0 is treated as 1.
pub open spec fn doublings(n: u32) -> nat {
    if n == 0 {
        0
    } else {
        (n - 1) as nat
    }
}

/// min(base * 2^doublings, cap)
pub open spec fn capped_doubling(base: nat, doublings: nat, cap: nat) -> nat {
    if base * pow2(doublings) <= cap {
        base * pow2(doublings)
    } else {
        cap
    }
}

/// min(10,000 * 2^(attempt-1), max_backoff_ms)
pub open spec fn failure_backoff(attempt: u32, max_backoff_ms: u64) -> nat {
    capped_doubling(BASE_FAILURE_BACKOFF_MS as nat, doublings(attempt), max_backoff_ms as nat)
}

/// min(poll_interval_ms * 2^(consecutive_failures-1), 300,000)
pub open spec fn tracker_backoff(poll_interval_ms: u64, consecutive_failures: u32) -> nat {
    capped_doubling(
        poll_interval_ms as nat,
        doublings(consecutive_failures),
        MAX_TRACKER_BACKOFF_MS as nat,
    )
}

/// The delay after an exit of the given type.
pub open spec fn backoff(exit_type: ExitType, attempt: u32, max_backoff_ms: u64) -> nat {
    match exit_type {
        ExitType::Normal => NORMAL_BACKOFF_MS as nat,
        ExitType::Failure => failure_backoff(attempt, max_backoff_ms),
    }
}

/// Doubles `base` `times` times, stopping at `cap`.
fn double_up_to(base: u64, times: u32, cap: u64) -> (result: u64)
    ensures
        result == capped_doubling(base as nat, times as nat, cap as nat),
{
    let mut value: u64 = base;
    let mut done: u32 = 0;
    proof {
        vstd::arithmetic::power2::lemma2_to64();
    }
    if base == 0 {
        assert(0 * pow2(times as nat) == 0) by (nonlinear_arith);
        return 0;
    }
    while done < times && value < cap
        invariant
            0 < base,
            done <= times,
            value == base * pow2(done as nat),
        decreases times - done,
    {
        proof {
            lemma_doubling_once(base as nat, done as nat);
            lemma_doubling_grows(base as nat, (done + 1) as nat, times as nat);
        }
        if value > u64::MAX / 2 {
            return cap;
        }
        value = value * 2;
        done += 1;
    }
    proof {
        lemma_doubling_grows(base as nat, done as nat, times as nat);
    }
    if value < cap {
        value
    } else {
        cap
    }
}

/// Compute backoff delay in milliseconds
///
/// # Arguments
/// * `exit_type` - Whether the exit was normal or a failure
/// * `attempt` - The retry attempt number (1-indexed)
/// * `max_backoff_ms` - Maximum backoff in milliseconds (only applies to failures)
///
/// # Returns
/// Delay in milliseconds
///
/// # Formula
/// - Normal exit: 1,000 ms (fixed)
/// - Failure exit: min(10,000 * 2^(attempt-1), max_backoff_ms)
pub fn compute_backoff(exit_type: ExitType, attempt: u32, max_backoff_ms: u64) -> (delay_ms: u64)
    ensures
        delay_ms == backoff(exit_type, attempt, max_backoff_ms),
{
    match exit_type {
        ExitType::Normal => NORMAL_BACKOFF_MS,
        ExitType::Failure => compute_failure_backoff(attempt, max_backoff_ms),
    }
}

/// Compute failure backoff
///
/// Formula: min(10,000 * 2^(attempt-1), max_backoff_ms)
///
/// # Arguments
/// * `attempt` - The retry attempt number (1-indexed)
/// * `max_backoff_ms` - Maximum backoff in milliseconds
///
/// # Returns
/// Delay in milliseconds
pub fn compute_failure_backoff(attempt: u32, max_backoff_ms: u64) -> (delay_ms: u64)
    ensures
        delay_ms == failure_backoff(attempt, max_backoff_ms),
{
    double_up_to(BASE_FAILURE_BACKOFF_MS, attempt.saturating_sub(1), max_backoff_ms)
}

/// Compute tracker poll backoff delay in milliseconds.
///
/// Uses the poll interval as the base and doubles it for each consecutive
/// failure, capped at `MAX_TRACKER_BACKOFF_MS`.
///
/// # Arguments
/// * `poll_interval_ms` - The normal poll interval
/// * `consecutive_failures` - How many consecutive failures (1-indexed)
pub fn compute_tracker_backoff(poll_interval_ms: u64, consecutive_failures: u32) -> (delay_ms: u64)
    ensures
        delay_ms == tracker_backoff(poll_interval_ms, consecutive_failures),
{
    double_up_to(poll_interval_ms, consecutive_failures.saturating_sub(1), MAX_TRACKER_BACKOFF_MS)
}

proof fn lemma_doubling_once(base: nat, n: nat)
    ensures
        base * pow2(n + 1) == 2 * (base * pow2(n)),
{
    lemma_pow2_unfold(n + 1);
    let p = pow2(n);
    assert(base * (2 * p) == 2 * (base * p)) by (nonlinear_arith);
}

proof fn lemma_doubling_grows(base: nat, m: nat, n: nat)
    requires
        m <= n,
    ensures
        base * pow2(m) <= base * pow2(n),
{
    if m < n {
        lemma_pow2_strictly_increases(m, n);
    }
    let (p, q) = (pow2(m), pow2(n));
    assert(base * p <= base * q) by (nonlinear_arith)
        requires
            p <= q,
    ;
}

proof fn lemma_capped_doubling_step(base: nat, n: nat, cap: nat)
    ensures
        capped_doubling(base, n + 1, cap) == if 2 * capped_doubling(base, n, cap) <= cap {
            2 * capped_doubling(base, n, cap)
        } else {
            cap
        },
{
    lemma_doubling_once(base, n);
}

proof fn lemma_capped_doubling_reaches_cap(base: nat, n: nat, cap: nat)
    requires
        0 < base,
        64 <= n,
        cap <= u64::MAX,
    ensures
        capped_doubling(base, n, cap) == cap,
{
    vstd::arithmetic::power2::lemma2_to64();
    lemma_doubling_grows(base, 64, n);
    let p = pow2(64);
    assert(p <= base * p) by (nonlinear_arith)
        requires
            0 < base,
    ;
}

/// A normal exit is answered by the same delay whatever the attempt and the cap.
pub proof fn law_normal_backoff_is_fixed(
    attempt: u32,
    max_backoff_ms: u64,
    other_attempt: u32,
    other_max_backoff_ms: u64,
)
    ensures
        backoff(ExitType::Normal, attempt, max_backoff_ms) == backoff(
            ExitType::Normal,
            other_attempt,
            other_max_backoff_ms,
        ),
        backoff(ExitType::Normal, attempt, max_backoff_ms) == 1_000,
{
}

/// A failure exit is answered by the failure rule, whatever the attempt and
/// the cap.
pub proof fn law_failure_exit_follows_the_failure_rule(attempt: u32, max_backoff_ms: u64)
    ensures
        backoff(ExitType::Failure, attempt, max_backoff_ms) == failure_backoff(
            attempt,
            max_backoff_ms,
        ),
{
}

/// The first failure exit is answered by ten seconds, or by the cap where that
/// is less. From then on each further attempt doubles the delay until the cap
/// is met, and an attempt of zero counts as the first.
pub proof fn law_failure_exit_waits_from_ten_seconds_up(attempt: u32, max_backoff_ms: u64)
    ensures
        10_000 <= max_backoff_ms ==> backoff(ExitType::Failure, 1, max_backoff_ms) == 10_000,
        max_backoff_ms < 10_000 ==> backoff(ExitType::Failure, 1, max_backoff_ms)
            == max_backoff_ms,
        backoff(ExitType::Failure, 0, max_backoff_ms) == backoff(
            ExitType::Failure,
            1,
            max_backoff_ms,
        ),
        1 <= attempt < u32::MAX && 2 * backoff(ExitType::Failure, attempt, max_backoff_ms)
            <= max_backoff_ms ==> backoff(
            ExitType::Failure,
            (attempt + 1) as u32,
            max_backoff_ms,
        ) == 2 * backoff(ExitType::Failure, attempt, max_backoff_ms),
        1 <= attempt < u32::MAX && 2 * backoff(ExitType::Failure, attempt, max_backoff_ms)
            > max_backoff_ms ==> backoff(
            ExitType::Failure,
            (attempt + 1) as u32,
            max_backoff_ms,
        ) == max_backoff_ms,
{
    law_first_failure_waits_ten_seconds(max_backoff_ms);
    if 1 <= attempt < u32::MAX {
        law_failure_backoff_doubles(attempt, max_backoff_ms);
    }
}

/// The first failure is answered by ten seconds, or by the cap where that is less.
pub proof fn law_first_failure_waits_ten_seconds(max_backoff_ms: u64)
    ensures
        10_000 <= max_backoff_ms ==> failure_backoff(1, max_backoff_ms) == 10_000,
        max_backoff_ms < 10_000 ==> failure_backoff(1, max_backoff_ms) == max_backoff_ms,
{
    vstd::arithmetic::power2::lemma2_to64();
}

/// The delay is ten seconds times a power of two, one less than the attempt,
/// wherever that is within the cap, and the cap everywhere else.
pub proof fn law_failure_backoff_is_a_power_of_two(attempt: u32, max_backoff_ms: u64)
    requires
        1 <= attempt,
    ensures
        10_000 * pow2((attempt - 1) as nat) <= max_backoff_ms ==> failure_backoff(
            attempt,
            max_backoff_ms,
        ) == 10_000 * pow2((attempt - 1) as nat),
        10_000 * pow2((attempt - 1) as nat) > max_backoff_ms ==> failure_backoff(
            attempt,
            max_backoff_ms,
        ) == max_backoff_ms,
{
}

/// A lower cap only cuts the delay off: it does not change what lies below it.
pub proof fn law_lower_cap_only_cuts_off(attempt: u32, lower: u64, higher: u64)
    requires
        lower <= higher,
    ensures
        failure_backoff(attempt, higher) <= lower ==> failure_backoff(attempt, lower)
            == failure_backoff(attempt, higher),
        failure_backoff(attempt, higher) > lower ==> failure_backoff(attempt, lower) == lower,
{
}

/// A failure is never answered by more than the cap, nor by less than the
/// first failure's delay where the cap leaves room for it.
pub proof fn law_failure_backoff_stays_in_range(attempt: u32, max_backoff_ms: u64)
    ensures
        failure_backoff(attempt, max_backoff_ms) <= max_backoff_ms,
        failure_backoff(1, max_backoff_ms) <= failure_backoff(attempt, max_backoff_ms),
        10_000 <= max_backoff_ms ==> 10_000 <= failure_backoff(attempt, max_backoff_ms),
{
    vstd::arithmetic::power2::lemma2_to64();
    lemma_doubling_grows(BASE_FAILURE_BACKOFF_MS as nat, 0, doublings(attempt));
}

/// Later attempts never wait less.
pub proof fn law_failure_backoff_is_monotone(attempt: u32, later: u32, max_backoff_ms: u64)
    requires
        attempt <= later,
    ensures
        failure_backoff(attempt, max_backoff_ms) <= failure_backoff(later, max_backoff_ms),
{
    lemma_doubling_grows(BASE_FAILURE_BACKOFF_MS as nat, doublings(attempt), doublings(later));
}

/// Each further attempt doubles the delay until the cap is met.
pub proof fn law_failure_backoff_doubles(attempt: u32, max_backoff_ms: u64)
    requires
        1 <= attempt < u32::MAX,
    ensures
        failure_backoff((attempt + 1) as u32, max_backoff_ms) == if 2 * failure_backoff(
            attempt,
            max_backoff_ms,
        ) <= max_backoff_ms {
            2 * failure_backoff(attempt, max_backoff_ms)
        } else {
            max_backoff_ms as nat
        },
{
    lemma_capped_doubling_step(
        BASE_FAILURE_BACKOFF_MS as nat,
        doublings(attempt),
        max_backoff_ms as nat,
    );
}

/// However large the cap is, it is met from the 65th attempt on.
pub proof fn law_failure_backoff_meets_cap(attempt: u32, max_backoff_ms: u64)
    requires
        65 <= attempt,
    ensures
        failure_backoff(attempt, max_backoff_ms) == max_backoff_ms,
{
    lemma_capped_doubling_reaches_cap(
        BASE_FAILURE_BACKOFF_MS as nat,
        doublings(attempt),
        max_backoff_ms as nat,
    );
}

/// The first tracker failure is answered by the poll interval, or by five
/// minutes where that is less.
pub proof fn law_first_tracker_failure_waits_the_interval(poll_interval_ms: u64)
    ensures
        poll_interval_ms <= 300_000 ==> tracker_backoff(poll_interval_ms, 1) == poll_interval_ms,
        poll_interval_ms > 300_000 ==> tracker_backoff(poll_interval_ms, 1) == 300_000,
{
    vstd::arithmetic::power2::lemma2_to64();
    let once = pow2(doublings(1));
    assert(poll_interval_ms * once == poll_interval_ms) by (nonlinear_arith)
        requires
            once == 1,
    ;
}

/// The delay is the poll interval times a power of two, one less than the
/// count of failures, wherever that is within five minutes, and five minutes
/// everywhere else.
pub proof fn law_tracker_backoff_is_a_power_of_two(poll_interval_ms: u64, consecutive_failures: u32)
    requires
        1 <= consecutive_failures,
    ensures
        poll_interval_ms * pow2((consecutive_failures - 1) as nat) <= 300_000 ==> tracker_backoff(
            poll_interval_ms,
            consecutive_failures,
        ) == poll_interval_ms * pow2((consecutive_failures - 1) as nat),
        poll_interval_ms * pow2((consecutive_failures - 1) as nat) > 300_000 ==> tracker_backoff(
            poll_interval_ms,
            consecutive_failures,
        ) == 300_000,
{
}

/// A longer poll interval never makes the tracker wait less.
pub proof fn law_longer_interval_never_waits_less(
    poll_interval_ms: u64,
    longer_interval_ms: u64,
    consecutive_failures: u32,
)
    requires
        poll_interval_ms <= longer_interval_ms,
    ensures
        tracker_backoff(poll_interval_ms, consecutive_failures) <= tracker_backoff(
            longer_interval_ms,
            consecutive_failures,
        ),
{
    let p = pow2(doublings(consecutive_failures));
    assert(poll_interval_ms * p <= longer_interval_ms * p) by (nonlinear_arith)
        requires
            poll_interval_ms <= longer_interval_ms,
    ;
}

/// The tracker is never left alone for more than five minutes, nor for less
/// than the poll interval where that is within five minutes.
pub proof fn law_tracker_backoff_stays_in_range(poll_interval_ms: u64, consecutive_failures: u32)
    ensures
        tracker_backoff(poll_interval_ms, consecutive_failures) <= 300_000,
        poll_interval_ms <= 300_000 ==> poll_interval_ms <= tracker_backoff(
            poll_interval_ms,
            consecutive_failures,
        ),
        poll_interval_ms > 300_000 ==> tracker_backoff(poll_interval_ms, consecutive_failures)
            == 300_000,
{
    vstd::arithmetic::power2::lemma2_to64();
    lemma_doubling_grows(poll_interval_ms as nat, 0, doublings(consecutive_failures));
}

/// More consecutive failures never wait less.
pub proof fn law_tracker_backoff_is_monotone(
    poll_interval_ms: u64,
    consecutive_failures: u32,
    more_failures: u32,
)
    requires
        consecutive_failures <= more_failures,
    ensures
        tracker_backoff(poll_interval_ms, consecutive_failures) <= tracker_backoff(
            poll_interval_ms,
            more_failures,
        ),
{
    lemma_doubling_grows(
        poll_interval_ms as nat,
        doublings(consecutive_failures),
        doublings(more_failures),
    );
}

/// Each further consecutive failure doubles the delay until five minutes are met.
pub proof fn law_tracker_backoff_doubles(poll_interval_ms: u64, consecutive_failures: u32)
    requires
        1 <= consecutive_failures < u32::MAX,
    ensures
        tracker_backoff(poll_interval_ms, (consecutive_failures + 1) as u32) == if 2
            * tracker_backoff(poll_interval_ms, consecutive_failures) <= 300_000 {
            2 * tracker_backoff(poll_interval_ms, consecutive_failures)
        } else {
            300_000
        },
{
    lemma_capped_doubling_step(
        poll_interval_ms as nat,
        doublings(consecutive_failures),
        MAX_TRACKER_BACKOFF_MS as nat,
    );
}

/// A count of zero failures is answered as the first failure is.
pub proof fn law_zero_counts_as_first(poll_interval_ms: u64, max_backoff_ms: u64)
    ensures
        tracker_backoff(poll_interval_ms, 0) == tracker_backoff(poll_interval_ms, 1),
        failure_backoff(0, max_backoff_ms) == failure_backoff(1, max_backoff_ms),
{
}

} // verus!
