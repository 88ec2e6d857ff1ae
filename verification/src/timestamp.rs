//! Points in UTC time, and the time that has passed between two of them.

use vstd::prelude::*;

verus! {

/// The first second that a timestamp can hold: midnight of 1 January of the
/// year -262143.
pub const MIN_UNIX_SECS: i64 = -8_334_601_228_800;

/// The last second that a timestamp can hold: the end of 31 December of the
/// year 262142.
pub const MAX_UNIX_SECS: i64 = 8_210_266_876_799;

/// The nanoseconds of a second.
pub const NANOS_PER_SEC: u32 = 1_000_000_000;

/// What a timestamp stands for: the seconds since the Unix epoch, leap seconds
/// not counted, and the nanoseconds since that second began. A leap second is
/// written as the last second of its minute with a billion nanoseconds or more.
#[verifier::ext_equal]
pub struct UnixTime {
    pub secs: int,
    pub nanos: int,
}

impl UnixTime {
    /// Whether a timestamp can hold this point in time.
    pub open spec fn valid(self) -> bool {
        &&& MIN_UNIX_SECS <= self.secs <= MAX_UNIX_SECS
        &&& 0 <= self.nanos < 2 * NANOS_PER_SEC
        &&& self.in_leap_second() ==> self.secs % 60 == 59
    }

    /// Whether this point in time lies in a leap second.
    pub open spec fn in_leap_second(self) -> bool {
        self.nanos >= NANOS_PER_SEC
    }

    /// The seconds since midnight.
    pub open spec fn second_of_day(self) -> int {
        self.secs % 86_400
    }

    /// Whether a reading of the UTC clock can be this point in time: it does
    /// not lie before the epoch nor in a leap second.
    pub open spec fn is_clock_reading(self) -> bool {
        &&& self.valid()
        &&& self.secs >= 0
        &&& !self.in_leap_second()
    }

    /// Whether this point in time comes before the other one or is the same.
    pub open spec fn not_after(self, other: UnixTime) -> bool {
        self.secs < other.secs || (self.secs == other.secs && self.nanos <= other.nanos)
    }
}

/// The signed nanoseconds from `earlier` to `later`. A leap second counts
/// where one of the two lies in it and the other at a later time of day.
pub open spec fn nanos_between(later: UnixTime, earlier: UnixTime) -> int {
    let nanos = (later.secs - earlier.secs) * NANOS_PER_SEC + (later.nanos - earlier.nanos);
    if later.second_of_day() > earlier.second_of_day() && earlier.in_leap_second() {
        nanos + NANOS_PER_SEC
    } else if later.second_of_day() < earlier.second_of_day() && later.in_leap_second() {
        nanos - NANOS_PER_SEC
    } else {
        nanos
    }
}

/// `nanos` in whole milliseconds, rounded towards zero.
pub open spec fn whole_millis(nanos: int) -> int {
    if nanos >= 0 {
        nanos / 1_000_000
    } else {
        -((-nanos) / 1_000_000)
    }
}

/// The whole milliseconds that have passed from `start` to `now`, or zero
/// where `start` is still to come.
pub open spec fn elapsed_millis(now: UnixTime, start: UnixTime) -> int {
    if nanos_between(now, start) >= 0 {
        nanos_between(now, start) / 1_000_000
    } else {
        0
    }
}

/// A point in UTC time, to the nanosecond.
#[derive(Debug, Clone, Copy, PartialEq, Eq, Structural)]
pub struct Timestamp {
    secs: i64,
    nanos: u32,
}

impl View for Timestamp {
    type V = UnixTime;

    closed spec fn view(&self) -> UnixTime {
        UnixTime { secs: self.secs as int, nanos: self.nanos as int }
    }
}

impl Timestamp {
    #[verifier::type_invariant]
    spec fn inv(self) -> bool {
        self@.valid()
    }

    /// The timestamp `secs` seconds and `nanos` nanoseconds after the Unix
    /// epoch, if there is one.
    pub fn from_unix(secs: i64, nanos: u32) -> (timestamp: Option<Timestamp>)
        ensures
            timestamp is Some <==> (UnixTime { secs: secs as int, nanos: nanos as int }).valid(),
            timestamp matches Some(t) ==> t@ == (UnixTime {
                secs: secs as int,
                nanos: nanos as int,
            }),
    {
        if secs < MIN_UNIX_SECS || MAX_UNIX_SECS < secs || nanos >= 2 * NANOS_PER_SEC {
            return None;
        }
        let secs_of_minute: u64 = ((secs - MIN_UNIX_SECS) as u64) % 60;
        if nanos >= NANOS_PER_SEC && secs_of_minute != 59 {
            return None;
        }
        Some(Timestamp { secs, nanos })
    }

    /// The Unix epoch.
    pub fn epoch() -> (timestamp: Timestamp)
        ensures
            timestamp@ == (UnixTime { secs: 0, nanos: 0 }),
    {
        Timestamp { secs: 0, nanos: 0 }
    }

    /// The time that the UTC clock shows.
    pub fn now() -> (timestamp: Timestamp)
        ensures
            timestamp@.is_clock_reading(),
    {
        let (secs, nanos) = utc_now();
        Timestamp { secs, nanos }
    }

    /// The seconds since the Unix epoch.
    pub fn unix_secs(&self) -> (secs: i64)
        ensures
            secs == self@.secs,
            self@.valid(),
    {
        proof {
            use_type_invariant(self);
        }
        self.secs
    }

    /// The nanoseconds since the second began.
    pub fn subsec_nanos(&self) -> (nanos: u32)
        ensures
            nanos == self@.nanos,
            self@.valid(),
    {
        proof {
            use_type_invariant(self);
        }
        self.nanos
    }

    /// The whole milliseconds that have passed since `start`, or zero where
    /// `start` is still to come.
    pub fn millis_since(&self, start: &Timestamp) -> (millis: u64)
        ensures
            millis == elapsed_millis(self@, start@),
            millis <= i64::MAX,
    {
        proof {
            use_type_invariant(self);
            use_type_invariant(start);
        }
        let millis: i64 = millis_between(self.secs, self.nanos, start.secs, start.nanos);
        if millis > 0 {
            millis as u64
        } else {
            0
        }
    }
}

/// Reads the UTC clock: `chrono::Utc::now()`, taken apart into
/// `DateTime::timestamp` and `DateTime::timestamp_subsec_nanos`.
///
/// The clock decides the result. What is claimed of every reading is that it
/// is a valid point in time at or after the epoch and outside leap seconds:
/// `now` builds it from the system's time since the epoch. On a system whose
/// time lies before the epoch or past the last representable second, `now`
/// does not return.
#[verifier::external_body]
fn utc_now() -> (reading: (i64, u32))
    ensures
        0 <= reading.0 <= MAX_UNIX_SECS,
        reading.1 < NANOS_PER_SEC,
{
    let now = chrono::Utc::now();
    (now.timestamp(), now.timestamp_subsec_nanos())
}

/// The signed whole milliseconds from the earlier to the later point in time:
/// the difference of the two `chrono::DateTime<Utc>`, which is
/// `DateTime::signed_duration_since`, in `TimeDelta::num_milliseconds`.
///
/// Claimed is that it is the difference in nanoseconds, with a leap second
/// counted where one of the two lies in it and the other at a later time of
/// day, rounded towards zero to milliseconds. Each valid point in time is one
/// that `DateTime::from_timestamp` accepts.
#[verifier::external_body]
fn millis_between(later_secs: i64, later_nanos: u32, earlier_secs: i64, earlier_nanos: u32) -> (millis:
    i64)
    requires
        (UnixTime { secs: later_secs as int, nanos: later_nanos as int }).valid(),
        (UnixTime { secs: earlier_secs as int, nanos: earlier_nanos as int }).valid(),
    ensures
        millis == whole_millis(
            nanos_between(
                UnixTime { secs: later_secs as int, nanos: later_nanos as int },
                UnixTime { secs: earlier_secs as int, nanos: earlier_nanos as int },
            ),
        ),
{
    let later = chrono::DateTime::from_timestamp(later_secs, later_nanos).unwrap();
    let earlier = chrono::DateTime::from_timestamp(earlier_secs, earlier_nanos).unwrap();
    (later - earlier).num_milliseconds()
}

/// Outside leap seconds the time that has passed is the difference of the two
/// points in time, in milliseconds that are over: one more would be too many.
pub proof fn law_elapsed_millis_fit_between(start: UnixTime, now: UnixTime)
    requires
        0 <= start.nanos < 1_000_000_000,
        0 <= now.nanos < 1_000_000_000,
    ensures
        ({
            let nanos = (now.secs - start.secs) * 1_000_000_000 + (now.nanos - start.nanos);
            let millis = elapsed_millis(now, start);
            &&& nanos >= 0 ==> 1_000_000 * millis <= nanos < 1_000_000 * (millis + 1)
            &&& nanos < 0 ==> millis == 0
        }),
{
}

/// The time that has passed is the signed time between the two points, leap
/// seconds counted, in milliseconds that are over, and none where that is
/// negative.
pub proof fn law_elapsed_millis_follow_the_signed_time(start: UnixTime, now: UnixTime)
    ensures
        nanos_between(now, start) >= 0 ==> 1_000_000 * elapsed_millis(now, start) <= nanos_between(
            now,
            start,
        ) < 1_000_000 * (elapsed_millis(now, start) + 1),
        nanos_between(now, start) <= 0 ==> elapsed_millis(now, start) == 0,
        0 <= whole_millis(nanos_between(now, start)) ==> elapsed_millis(now, start)
            == whole_millis(nanos_between(now, start)),
        whole_millis(nanos_between(now, start)) == -whole_millis(-nanos_between(now, start)),
{
}

/// The signed time from one point to another is that of the way back, negated.
pub proof fn law_signed_time_reverses(a: UnixTime, b: UnixTime)
    ensures
        nanos_between(a, b) == -nanos_between(b, a),
{
}

/// Outside leap seconds the signed times of two ways add up, and a nanosecond
/// and a second count as such.
pub proof fn law_signed_times_add_up(a: UnixTime, b: UnixTime, c: UnixTime)
    requires
        a.nanos < 1_000_000_000,
        b.nanos < 1_000_000_000,
        c.nanos < 1_000_000_000,
    ensures
        nanos_between(c, b) + nanos_between(b, a) == nanos_between(c, a),
        b.secs == a.secs && b.nanos == a.nanos + 1 ==> nanos_between(b, a) == 1,
        b.secs == a.secs + 1 && b.nanos == a.nanos ==> nanos_between(b, a) == 1_000_000_000,
{
}

/// From a point in a leap second to one at a later time of day, the leap
/// second lies in between and counts. To one at the same time of day or at an
/// earlier one, it does not.
pub proof fn law_leap_second_counts_to_later_times_of_day(leap: UnixTime, other: UnixTime)
    requires
        leap.nanos >= 1_000_000_000,
    ensures
        other.secs % 86_400 > leap.secs % 86_400 ==> nanos_between(other, leap) == (other.secs + 1
            - leap.secs) * 1_000_000_000 + (other.nanos - leap.nanos),
        other.secs % 86_400 == leap.secs % 86_400 ==> nanos_between(other, leap) == (other.secs
            - leap.secs) * 1_000_000_000 + (other.nanos - leap.nanos),
        other.secs % 86_400 < leap.secs % 86_400 && other.nanos < 1_000_000_000 ==> nanos_between(
            other,
            leap,
        ) == (other.secs - leap.secs) * 1_000_000_000 + (other.nanos - leap.nanos),
        other.secs % 86_400 < leap.secs % 86_400 && other.nanos >= 1_000_000_000 ==> nanos_between(
            other,
            leap,
        ) == (other.secs - 1 - leap.secs) * 1_000_000_000 + (other.nanos - leap.nanos),
{
}

/// Every second of the years -262143 to 262142 can be held with every
/// nanosecond, a leap second only at the end of a minute, and nothing else.
pub proof fn law_range_of_timestamps(time: UnixTime)
    ensures
        -8_334_601_228_800 <= time.secs <= 8_210_266_876_799 && 0 <= time.nanos < 1_000_000_000
            ==> time.valid(),
        -8_334_601_228_800 <= time.secs <= 8_210_266_876_799 && 1_000_000_000 <= time.nanos
            < 2_000_000_000 ==> (time.valid() <==> time.secs % 60 == 59),
        time.valid() ==> -8_334_601_228_800 <= time.secs <= 8_210_266_876_799 && 0 <= time.nanos
            < 2_000_000_000,
{
}

/// The clock can show every nanosecond from the epoch on, and nothing before
/// it nor in a leap second.
pub proof fn law_range_of_clock_readings(time: UnixTime)
    ensures
        0 <= time.secs <= 8_210_266_876_799 && 0 <= time.nanos < 1_000_000_000
            ==> time.is_clock_reading(),
        time.is_clock_reading() ==> 0 <= time.secs <= 8_210_266_876_799 && 0 <= time.nanos
            < 1_000_000_000,
{
}

/// As the clock moves on, the time that has passed does not shrink. (A leap
/// second at either end is left out: it counts only until midnight.)
pub proof fn law_elapsed_time_does_not_shrink(start: UnixTime, now: UnixTime, later: UnixTime)
    requires
        start.valid(),
        now.valid(),
        later.valid(),
        !start.in_leap_second(),
        !now.in_leap_second(),
        !later.in_leap_second(),
        now.not_after(later),
    ensures
        elapsed_millis(now, start) <= elapsed_millis(later, start),
{
    assert(nanos_between(now, start) <= nanos_between(later, start));
}

/// No time has passed before the start. (A leap second at either end is left
/// out: past midnight it no longer counts.)
pub proof fn law_no_time_has_passed_before_the_start(start: UnixTime, now: UnixTime)
    requires
        start.valid(),
        now.valid(),
        !start.in_leap_second(),
        !now.in_leap_second(),
        now.not_after(start),
    ensures
        elapsed_millis(now, start) == 0,
{
}

} // verus!
