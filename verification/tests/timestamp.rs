use chrono::{DateTime, Utc};
use symphony::timestamp::{Timestamp, MAX_UNIX_SECS, MIN_UNIX_SECS};

fn at(secs: i64, nanos: u32) -> Timestamp {
    Timestamp::from_unix(secs, nanos).unwrap()
}

#[test]
fn range_is_that_of_utc_date_times() {
    assert_eq!(DateTime::<Utc>::MIN_UTC.timestamp(), MIN_UNIX_SECS);
    assert_eq!(DateTime::<Utc>::MAX_UTC.timestamp(), MAX_UNIX_SECS);
    for secs in [MIN_UNIX_SECS - 1, MIN_UNIX_SECS, -1, 0, 58, 59, MAX_UNIX_SECS, MAX_UNIX_SECS + 1] {
        for nanos in [0, 999_999_999, 1_000_000_000, 1_999_999_999, 2_000_000_000] {
            assert_eq!(
                Timestamp::from_unix(secs, nanos).is_some(),
                DateTime::<Utc>::from_timestamp(secs, nanos).is_some()
            );
        }
    }
}

#[test]
fn parts_are_kept() {
    let timestamp = at(1_700_000_000, 42);
    assert_eq!(timestamp.unix_secs(), 1_700_000_000);
    assert_eq!(timestamp.subsec_nanos(), 42);
    assert_eq!(Timestamp::epoch(), at(0, 0));
    assert_eq!(at(-1, 5).unix_secs(), -1);
}

#[test]
fn now_is_the_utc_clock() {
    let before = Utc::now();
    let now = Timestamp::now();
    let after = Utc::now();
    let read = DateTime::<Utc>::from_timestamp(now.unix_secs(), now.subsec_nanos()).unwrap();
    assert!(before <= read && read <= after);
}

#[test]
fn elapsed_time_is_in_whole_milliseconds() {
    assert_eq!(at(102, 4).millis_since(&at(100, 5)), 1_999);
    assert_eq!(at(102, 5).millis_since(&at(100, 5)), 2_000);
    // 0.2 ms across a millisecond boundary are no whole millisecond
    assert_eq!(at(0, 1_100_000).millis_since(&at(0, 900_000)), 0);
    assert_eq!(at(0, 1_900_000).millis_since(&at(0, 900_000)), 1);
}

#[test]
fn no_time_has_passed_before_the_start() {
    assert_eq!(at(100, 5).millis_since(&at(100, 5)), 0);
    assert_eq!(at(100, 5).millis_since(&at(102, 4)), 0);
    assert_eq!(at(-100, 0).millis_since(&at(100, 0)), 0);
}

#[test]
fn elapsed_time_over_the_whole_range() {
    assert_eq!(
        at(MAX_UNIX_SECS, 0).millis_since(&at(MIN_UNIX_SECS, 0)),
        16_544_868_105_599_000
    );
    assert_eq!(at(MIN_UNIX_SECS, 0).millis_since(&at(MAX_UNIX_SECS, 0)), 0);
}

#[test]
fn elapsed_time_does_not_shrink() {
    let start = at(1_000, 500_000_000);
    let mut last = 0;
    for step in 0..40 {
        let millis = at(999 + step / 10, (step % 10) as u32 * 100_000_000).millis_since(&start);
        assert!(last <= millis);
        last = millis;
    }
    assert_eq!(last, 2_400);
}

#[test]
fn leap_seconds_count_until_midnight() {
    // A leap second after 00:00:59, to 00:01:00 and to the next midnight
    let leap = at(59, 1_000_000_000);
    assert_eq!(at(60, 0).millis_since(&leap), 1_000);
    assert_eq!(at(86_400, 0).millis_since(&leap), 86_340_000);
    assert_eq!(leap.millis_since(&at(59, 0)), 1_000);
    assert_eq!(leap.millis_since(&at(60, 0)), 0);
    for (later, earlier) in [(at(60, 0), leap), (at(86_400, 0), leap), (at(86_459, 1_500_000_000), leap)] {
        let difference = DateTime::<Utc>::from_timestamp(later.unix_secs(), later.subsec_nanos())
            .unwrap()
            - DateTime::<Utc>::from_timestamp(earlier.unix_secs(), earlier.subsec_nanos()).unwrap();
        assert_eq!(later.millis_since(&earlier) as i64, difference.num_milliseconds());
    }
}
