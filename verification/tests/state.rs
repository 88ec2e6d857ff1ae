use std::time::Duration;
use symphony::config::AppConfig;
use symphony::domain::RetryEntry;
use symphony::observability::{RateLimitInfo, RunningEntrySnapshot};
use symphony::orchestrator::state::{OrchestratorState, RunningEntry};
use symphony::timestamp::Timestamp;
use tokio::runtime::Runtime;

/// A reading of the monotonic clock, in nanoseconds.
const NOW: i128 = 60_000_000_000;

fn retry(runtime: &Runtime, due_at: i128, identifier: &str) -> RetryEntry {
    RetryEntry {
        attempt: 1,
        due_at,
        timer_handle: runtime.spawn(std::future::ready(())),
        identifier: Some(identifier.to_string()),
        error: None,
        workspace_path: None,
    }
}

fn at(secs: i64, nanos: u32) -> Timestamp {
    Timestamp::from_unix(secs, nanos).unwrap()
}

fn started(secs: i64, nanos: u32) -> RunningEntry {
    RunningEntry::starting_at(at(secs, nanos))
}

#[test]
fn orchestrator_state_new() {
    let config = AppConfig::default();
    let state = OrchestratorState::new(&config);

    assert_eq!(state.poll_interval_ms, 30000);
    assert_eq!(state.max_concurrent_agents, 10);
    assert!(state.running.is_empty());
    assert!(state.claimed.is_empty());
    assert!(state.retry_attempts.is_empty());
}

#[test]
fn orchestrator_state_to_snapshot() {
    let config = AppConfig::default();
    let state = OrchestratorState::new(&config);

    let snapshot = state.to_snapshot();

    assert_eq!(snapshot.running_count, 0);
    assert_eq!(snapshot.retrying_count, 0);
    assert!(snapshot.running.is_empty());
}

#[test]
fn consecutive_tracker_failures_initialized_to_zero() {
    let config = AppConfig::default();
    let state = OrchestratorState::new(&config);
    assert_eq!(state.consecutive_tracker_failures, 0);
}

#[test]
fn completed_count_is_u64_not_hashset() {
    let config = AppConfig::default();
    let mut state = OrchestratorState::new(&config);

    assert_eq!(state.completed_count, 0);
    state.completed_count += 1;
    assert_eq!(state.completed_count, 1);
    state.completed_count += 1;
    assert_eq!(state.completed_count, 2);

    let snapshot = state.to_snapshot();
    assert_eq!(snapshot.completed_count, 2);
}

#[test]
fn max_retry_queue_size_initialized_from_config() {
    let mut config = AppConfig::default();
    config.agent.max_retry_queue_size = 42;
    let state = OrchestratorState::new(&config);
    assert_eq!(state.max_retry_queue_size, 42);
}

#[test]
fn max_retry_queue_size_default_is_1000() {
    let config = AppConfig::default();
    let state = OrchestratorState::new(&config);
    assert_eq!(state.max_retry_queue_size, 1000);
}

#[test]
fn retry_queue_evicts_oldest_when_full() {
    let runtime = Runtime::new().unwrap();
    let mut config = AppConfig::default();
    config.agent.max_retry_queue_size = 2;
    let mut state = OrchestratorState::new(&config);

    let now = state.clock.now();
    let ten_seconds = Duration::from_secs(10).as_nanos() as i128;
    state.retry_attempts.insert("issue-1".to_string(), retry(&runtime, now - ten_seconds, "1")); // oldest
    state.retry_attempts.insert("issue-2".to_string(), retry(&runtime, now, "2"));
    state.claimed.insert("issue-1".to_string());
    state.claimed.insert("issue-2".to_string());

    state.evict_oldest_retry_if_full();

    assert_eq!(state.retry_attempts.len(), 1);
    assert!(!state.retry_attempts.contains_key("issue-1")); // oldest evicted
    assert!(state.retry_attempts.contains_key("issue-2"));
}

#[test]
fn retry_queue_eviction_releases_claim() {
    let runtime = Runtime::new().unwrap();
    let mut config = AppConfig::default();
    config.agent.max_retry_queue_size = 1;
    let mut state = OrchestratorState::new(&config);

    state.retry_attempts.insert("issue-1".to_string(), retry(&runtime, state.clock.now(), "1"));
    state.claimed.insert("issue-1".to_string());

    state.evict_oldest_retry_if_full();

    assert!(state.retry_attempts.is_empty());
    assert!(!state.claimed.contains("issue-1")); // claim released
}

#[test]
fn retry_queue_no_eviction_when_under_capacity() {
    let runtime = Runtime::new().unwrap();
    let mut config = AppConfig::default();
    config.agent.max_retry_queue_size = 3;
    let mut state = OrchestratorState::new(&config);

    state.retry_attempts.insert("issue-1".to_string(), retry(&runtime, state.clock.now(), "1"));
    state.claimed.insert("issue-1".to_string());

    state.evict_oldest_retry_if_full();

    // No eviction should happen since 1 < 3
    assert_eq!(state.retry_attempts.len(), 1);
    assert!(state.claimed.contains("issue-1"));
}

#[test]
fn eviction_finds_the_oldest_wherever_it_stands() {
    let runtime = Runtime::new().unwrap();
    let mut config = AppConfig::default();
    config.agent.max_retry_queue_size = 3;
    let mut state = OrchestratorState::new(&config);
    state.retry_attempts.insert("b".to_string(), retry(&runtime, 20, "b"));
    state.retry_attempts.insert("c".to_string(), retry(&runtime, 30, "c"));
    state.retry_attempts.insert("a".to_string(), retry(&runtime, 10, "a"));

    assert_eq!(state.evict_oldest_retry_if_full(), Some("a".to_string()));
    assert_eq!(state.evict_oldest_retry_if_full(), None);
    assert_eq!(state.retry_attempts.get("b").unwrap().due_at, 20);
    assert_eq!(state.retry_attempts.get("c").unwrap().due_at, 30);
}

#[test]
fn eviction_makes_room_for_one_more() {
    let runtime = Runtime::new().unwrap();
    let mut config = AppConfig::default();
    config.agent.max_retry_queue_size = 2;
    let mut state = OrchestratorState::new(&config);
    for (i, id) in ["a", "b", "c", "d", "e"].iter().enumerate() {
        state.evict_oldest_retry_if_full();
        state.retry_attempts.insert(id.to_string(), retry(&runtime, i as i128, id));
        state.claimed.insert(id.to_string());
        assert!(state.retry_attempts.len() <= 2);
    }
    assert!(state.retry_attempts.contains_key("d"));
    assert!(state.retry_attempts.contains_key("e"));
    assert_eq!(state.claimed.len(), 2);
    assert!(state.claimed.contains("d") && state.claimed.contains("e"));
}

#[test]
fn eviction_keeps_the_claims_of_running_issues() {
    let runtime = Runtime::new().unwrap();
    let mut config = AppConfig::default();
    config.agent.max_retry_queue_size = 1;
    let mut state = OrchestratorState::new(&config);
    state.running.insert("run".to_string(), started(0, 0));
    state.claimed.insert("run".to_string());
    state.retry_attempts.insert("wait".to_string(), retry(&runtime, NOW, "wait"));
    state.claimed.insert("wait".to_string());

    assert_eq!(state.evict_oldest_retry_if_full(), Some("wait".to_string()));
    assert!(state.claimed.contains("run"));
    assert!(state.running.contains_key("run"));
    assert!(!state.claimed.contains("wait"));
}

#[test]
fn eviction_of_an_empty_queue_does_nothing() {
    let mut config = AppConfig::default();
    config.agent.max_retry_queue_size = 0;
    let mut state = OrchestratorState::new(&config);
    assert_eq!(state.evict_oldest_retry_if_full(), None);
    assert!(state.retry_attempts.is_empty());
}

#[test]
fn snapshot_lists_running_and_retrying_issues() {
    let runtime = Runtime::new().unwrap();
    let mut state = OrchestratorState::new(&AppConfig::default());
    let mut entry = started(1_000, 250_000_000);
    entry.identifier = "ABC-1".to_string();
    entry.session_id = Some("session".to_string());
    entry.turn_count = 3;
    entry.input_tokens = 10;
    entry.output_tokens = 20;
    entry.total_tokens = 30;
    entry.last_event = Some("turn".to_string());
    entry.last_event_message = Some("done".to_string());
    state.running.insert("issue-1".to_string(), entry);
    let mut waiting = retry(&runtime, NOW, "ABC-2");
    waiting.attempt = 4;
    waiting.error = Some("boom".to_string());
    state.retry_attempts.insert("issue-2".to_string(), waiting);
    state.consecutive_tracker_failures = 5;
    state.rate_limits = Some(RateLimitInfo {
        requests_remaining: Some(9),
        tokens_remaining: None,
        resets_at: None,
    });

    let snapshot = state.snapshot_at(at(1_002, 0), NOW).unwrap();
    assert_eq!(snapshot.generated_at, at(1_002, 0));
    assert_eq!(snapshot.running_count, 1);
    assert_eq!(snapshot.retrying_count, 1);
    let running = &snapshot.running[0];
    assert_eq!(running.issue_id, "issue-1");
    assert_eq!(running.identifier, "ABC-1");
    assert_eq!(running.session_id, Some("session".to_string()));
    assert_eq!(running.turn_count, 3);
    assert_eq!(running.input_tokens, 10);
    assert_eq!(running.output_tokens, 20);
    assert_eq!(running.total_tokens, 30);
    assert_eq!(running.last_event, Some("turn".to_string()));
    assert_eq!(running.last_event_message, Some("done".to_string()));
    assert_eq!(running.started_at, at(1_000, 250_000_000));
    assert_eq!(running.millis_running, 1_750);
    let retrying = &snapshot.retrying[0];
    assert_eq!(retrying.issue_id, "issue-2");
    assert_eq!(retrying.attempt, 4);
    assert_eq!(retrying.error, Some("boom".to_string()));
    assert_eq!(snapshot.tracker_failures, 5);
    assert_eq!(snapshot.rate_limits.unwrap().requests_remaining, Some(9));
}

#[test]
fn snapshot_counts_each_active_session_in_whole_seconds() {
    let mut state = OrchestratorState::new(&AppConfig::default());
    state.agent_totals.seconds_running = 100;
    state.agent_totals.input_tokens = 7;
    state.running.insert("a".to_string(), started(1_000, 0));
    state.running.insert("b".to_string(), started(1_000, 500_000_000));
    state.running.insert("ahead".to_string(), started(9_999, 0));

    // 3.9 s and 3.4 s count as 3 s each, a start still to come as none
    let snapshot = state.snapshot_at(at(1_003, 900_000_000), NOW).unwrap();
    assert_eq!(snapshot.agent_totals.seconds_running, 106);
    assert_eq!(snapshot.agent_totals.input_tokens, 7);
    assert_eq!(snapshot.running.len(), 3);
    // the state's own totals stay
    assert_eq!(state.agent_totals.seconds_running, 100);

    let later = state.snapshot_at(at(1_004, 0), NOW).unwrap();
    assert_eq!(later.agent_totals.seconds_running, 107);
}

#[test]
fn snapshot_needs_room_for_the_seconds() {
    let mut state = OrchestratorState::new(&AppConfig::default());
    state.agent_totals.seconds_running = u64::MAX - 5;
    state.running.insert("a".to_string(), started(1_000, 0));
    let snapshot = state.snapshot_at(at(1_005, 999_000_000), NOW).unwrap();
    assert_eq!(snapshot.agent_totals.seconds_running, u64::MAX);
    assert!(state.snapshot_at(at(1_006, 0), NOW).is_none());
    assert!(state.try_to_snapshot().is_none());
}

#[test]
fn snapshot_shows_backoff_until_the_instant() {
    let mut state = OrchestratorState::new(&AppConfig::default());
    assert!(!state.snapshot_at(at(0, 0), NOW).unwrap().tracker_backoff);
    state.skip_ticks_until = Some(NOW);
    assert!(state.snapshot_at(at(0, 0), NOW - 1).unwrap().tracker_backoff);
    assert!(!state.snapshot_at(at(0, 0), NOW).unwrap().tracker_backoff);
    assert!(!state.snapshot_at(at(0, 0), NOW + 1).unwrap().tracker_backoff);
}

#[test]
fn to_snapshot_reads_both_clocks() {
    let mut state = OrchestratorState::new(&AppConfig::default());
    let hour = Duration::from_secs(3_600).as_nanos() as i128;
    state.skip_ticks_until = Some(state.clock.now() + hour);
    let start = Timestamp::now();
    let mut entry = RunningEntry::default();
    entry.started_at = Timestamp::from_unix(start.unix_secs() - 3_600, 0).unwrap();
    state.running.insert("a".to_string(), entry);

    let snapshot = state.to_snapshot();
    assert!(snapshot.tracker_backoff);
    assert!(snapshot.generated_at.unix_secs() >= start.unix_secs());
    assert!(snapshot.running[0].millis_running >= 3_600_000);
    assert!(snapshot.agent_totals.seconds_running >= 3_600);

    state.skip_ticks_until = Some(state.clock.now());
    assert!(!state.to_snapshot().tracker_backoff);
}

#[test]
fn default_running_entry_starts_now() {
    let before = Timestamp::now();
    let entry = RunningEntry::default();
    assert!(entry.started_at.unix_secs() >= before.unix_secs());
    assert!(entry.task_handle.is_none());
    assert!(!entry.cancel_token.is_cancelled());
    assert_eq!(entry.identifier, "");
    assert_eq!(entry.issue.id, "");
    assert_eq!(entry.issue.identifier, "");
    assert_eq!(entry.issue.title, "");
    assert!(entry.session_id.is_none());
    assert!(entry.agent_pid.is_none());
    assert!(entry.last_event_timestamp.is_none());
    assert_eq!(entry.consecutive_failures, 0);
    assert!(entry.workspace_path.is_none());
}

#[test]
fn running_entry_starts_at_the_given_time() {
    let entry = RunningEntry::starting_at(at(1_700_000_000, 42));
    assert_eq!(entry.started_at, at(1_700_000_000, 42));
    assert!(entry.task_handle.is_none());
    assert_eq!(entry.turn_count, 0);
}

#[test]
fn snapshots_at_one_time_agree() {
    let runtime = Runtime::new().unwrap();
    let mut state = OrchestratorState::new(&AppConfig::default());
    state.agent_totals.seconds_running = 50;
    state.skip_ticks_until = Some(NOW + 1);
    state.running.insert("a".to_string(), started(1_000, 0));
    state.running.insert("b".to_string(), started(1_001, 0));
    state.retry_attempts.insert("c".to_string(), retry(&runtime, NOW, "c"));

    let first = state.snapshot_at(at(1_010, 0), NOW).unwrap();
    let second = state.snapshot_at(at(1_010, 0), NOW).unwrap();
    assert_eq!(first.agent_totals.seconds_running, 69);
    assert_eq!(second.agent_totals.seconds_running, 69);
    assert_eq!(state.agent_totals.seconds_running, 50);
    assert!(first.tracker_backoff && second.tracker_backoff);
    let ids = |running: &Vec<RunningEntrySnapshot>| {
        let mut ids: Vec<(String, u64)> =
            running.iter().map(|entry| (entry.issue_id.clone(), entry.millis_running)).collect();
        ids.sort();
        ids
    };
    assert_eq!(ids(&first.running), vec![("a".to_string(), 10_000), ("b".to_string(), 9_000)]);
    assert_eq!(ids(&first.running), ids(&second.running));
    assert_eq!(first.retrying[0].issue_id, second.retrying[0].issue_id);
}
