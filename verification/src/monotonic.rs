//! Readings of the monotonic clock as plain numbers.

use tokio::time::Instant;
use vstd::prelude::*;

verus! {

/// No reading of a monotonic clock is later than this one.
pub const LATEST_READING: i128 = 18_446_744_073_709_551_615_999_999_999;

/// Numbers the instants of the monotonic clock by the nanoseconds since the
/// clock was started, so that they can be compared. What lies before the start
/// has a negative number.
#[derive(Debug)]
pub struct MonotonicClock {
    origin: Instant,
}

impl MonotonicClock {
    /// A clock whose numbering starts now.
    pub(crate) fn start() -> MonotonicClock {
        MonotonicClock { origin: Instant::now() }
    }

    /// The nanoseconds since the clock was started.
    pub fn now(&self) -> (reading: i128)
        ensures
            0 <= reading <= LATEST_READING,
    {
        let (secs, nanos) = elapsed_since(&self.origin);
        reading_of(secs, nanos)
    }
}

/// The number of the instant `secs` seconds and `nanos` nanoseconds after the
/// clock was started.
pub fn reading_of(secs: u64, nanos: u32) -> (reading: i128)
    ensures
        reading == secs * 1_000_000_000 + nanos,
{
    secs as i128 * 1_000_000_000 + nanos as i128
}

/// The time since `origin`: `tokio::time::Instant::elapsed`, taken apart into
/// `Duration::as_secs` and `Duration::subsec_nanos`.
///
/// The clock decides the result. What is claimed of every outcome is that the
/// nanoseconds are less than a second.
#[verifier::external_body]
fn elapsed_since(origin: &Instant) -> (elapsed: (u64, u32))
    ensures
        elapsed.1 < 1_000_000_000,
{
    let elapsed = origin.elapsed();
    (elapsed.as_secs(), elapsed.subsec_nanos())
}

} // verus!
