use std::time::{Duration, Instant};
use symphony::config::AppConfig;
use symphony::monotonic::{reading_of, LATEST_READING};
use symphony::orchestrator::state::OrchestratorState;

#[test]
fn readings_count_nanoseconds() {
    assert_eq!(reading_of(0, 0), 0);
    assert_eq!(reading_of(2, 5), 2_000_000_005);
    assert_eq!(reading_of(u64::MAX, 999_999_999), LATEST_READING);
    assert_eq!(Duration::MAX.as_nanos() as i128, LATEST_READING);
}

#[test]
fn the_clock_moves_with_time() {
    let before = Instant::now();
    let state = OrchestratorState::new(&AppConfig::default());
    let first = state.clock.now();
    let start = Instant::now();
    while start.elapsed() < Duration::from_millis(20) {}
    let second = state.clock.now();
    let elapsed = before.elapsed().as_nanos() as i128;
    assert!(first <= second);
    assert!(second >= 20_000_000);
    assert!(second <= elapsed);
}
