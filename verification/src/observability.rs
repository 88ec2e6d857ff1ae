//! Snapshots of the orchestrator for the dashboard.

use crate::domain::TokenTotals;
use crate::timestamp::{Timestamp, UnixTime};
use vstd::multiset::Multiset;
use vstd::prelude::*;

verus! {

/// What an agent last reported of its rate limits
#[derive(Debug, Clone, Copy)]
pub struct RateLimitInfo {
    /// Requests left in the window
    pub requests_remaining: Option<u64>,
    /// Tokens left in the window
    pub tokens_remaining: Option<u64>,
    /// When the window ends
    pub resets_at: Option<Timestamp>,
}

/// A running issue as of the snapshot
#[derive(Debug)]
pub struct RunningEntrySnapshot {
    pub issue_id: String,
    pub identifier: String,
    pub session_id: Option<String>,
    pub turn_count: u32,
    pub input_tokens: u64,
    pub output_tokens: u64,
    pub total_tokens: u64,
    pub last_event: Option<String>,
    pub last_event_message: Option<String>,
    pub started_at: Timestamp,
    /// Milliseconds since the start
    pub millis_running: u64,
}

/// What the entry of a running issue says
pub struct RunningEntryView {
    pub issue_id: Seq<char>,
    pub identifier: Seq<char>,
    pub session_id: Option<Seq<char>>,
    pub turn_count: u32,
    pub input_tokens: u64,
    pub output_tokens: u64,
    pub total_tokens: u64,
    pub last_event: Option<Seq<char>>,
    pub last_event_message: Option<Seq<char>>,
    pub started_at: UnixTime,
    pub millis_running: u64,
}

/// The characters of an optional text.
pub open spec fn text_of(text: Option<String>) -> Option<Seq<char>> {
    match text {
        Some(t) => Some(t@),
        None => None,
    }
}

impl View for RunningEntrySnapshot {
    type V = RunningEntryView;

    open spec fn view(&self) -> RunningEntryView {
        RunningEntryView {
            issue_id: self.issue_id@,
            identifier: self.identifier@,
            session_id: text_of(self.session_id),
            turn_count: self.turn_count,
            input_tokens: self.input_tokens,
            output_tokens: self.output_tokens,
            total_tokens: self.total_tokens,
            last_event: text_of(self.last_event),
            last_event_message: text_of(self.last_event_message),
            started_at: self.started_at@,
            millis_running: self.millis_running,
        }
    }
}

/// A waiting retry as of the snapshot
#[derive(Debug)]
pub struct RetryingEntrySnapshot {
    pub issue_id: String,
    pub attempt: u32,
    pub error: Option<String>,
}

/// What the entry of a waiting retry says
pub struct RetryingEntryView {
    pub issue_id: Seq<char>,
    pub attempt: u32,
    pub error: Option<Seq<char>>,
}

impl View for RetryingEntrySnapshot {
    type V = RetryingEntryView;

    open spec fn view(&self) -> RetryingEntryView {
        RetryingEntryView {
            issue_id: self.issue_id@,
            attempt: self.attempt,
            error: text_of(self.error),
        }
    }
}

/// What the entries of `list` say, in order.
pub open spec fn running_views(list: Seq<RunningEntrySnapshot>) -> Seq<RunningEntryView> {
    list.map_values(|entry: RunningEntrySnapshot| entry@)
}

/// What the entries of `list` say, in order.
pub open spec fn retrying_views(list: Seq<RetryingEntrySnapshot>) -> Seq<RetryingEntryView> {
    list.map_values(|entry: RetryingEntrySnapshot| entry@)
}

/// The orchestrator's state as of the snapshot
#[derive(Debug)]
pub struct RuntimeSnapshot {
    pub generated_at: Timestamp,
    pub running_count: usize,
    pub retrying_count: usize,
    pub completed_count: usize,
    pub running: Vec<RunningEntrySnapshot>,
    pub retrying: Vec<RetryingEntrySnapshot>,
    /// Totals that count the sessions still active
    pub agent_totals: TokenTotals,
    pub rate_limits: Option<RateLimitInfo>,
    pub tracker_failures: u32,
    /// Whether ticks are being skipped after tracker failures
    pub tracker_backoff: bool,
}

impl RuntimeSnapshot {
    /// Whether this is the snapshot of an orchestrator that nothing is known
    /// of: all counts zero, all lists empty, taken at the Unix epoch.
    pub open spec fn is_blank(self) -> bool {
        &&& self.generated_at@ == (UnixTime { secs: 0, nanos: 0 })
        &&& self.running_count == 0
        &&& self.retrying_count == 0
        &&& self.completed_count == 0
        &&& self.running@.len() == 0
        &&& self.retrying@.len() == 0
        &&& self.agent_totals == (TokenTotals {
            input_tokens: 0,
            output_tokens: 0,
            total_tokens: 0,
            seconds_running: 0,
        })
        &&& self.rate_limits is None
        &&& self.tracker_failures == 0
        &&& !self.tracker_backoff
    }

    /// What the snapshot says of the running issues, their order left out.
    pub open spec fn running_entries(self) -> Multiset<RunningEntryView> {
        running_views(self.running@).to_multiset()
    }

    /// What the snapshot says of the waiting retries, their order left out.
    pub open spec fn retrying_entries(self) -> Multiset<RetryingEntryView> {
        retrying_views(self.retrying@).to_multiset()
    }

    /// Whether the two snapshots say the same, up to the order of their lists.
    pub open spec fn agrees_with(self, other: RuntimeSnapshot) -> bool {
        &&& self.generated_at@ == other.generated_at@
        &&& self.running_count == other.running_count
        &&& self.retrying_count == other.retrying_count
        &&& self.completed_count == other.completed_count
        &&& self.running_entries() == other.running_entries()
        &&& self.retrying_entries() == other.retrying_entries()
        &&& self.agent_totals == other.agent_totals
        &&& self.rate_limits == other.rate_limits
        &&& self.tracker_failures == other.tracker_failures
        &&& self.tracker_backoff == other.tracker_backoff
    }
}

impl Default for RuntimeSnapshot {
    /// The snapshot of an orchestrator that nothing is known of.
    fn default() -> (snapshot: Self)
        ensures
            snapshot.is_blank(),
    {
        RuntimeSnapshot {
            generated_at: Timestamp::epoch(),
            running_count: 0,
            retrying_count: 0,
            completed_count: 0,
            running: Vec::new(),
            retrying: Vec::new(),
            agent_totals: TokenTotals::new(),
            rate_limits: None,
            tracker_failures: 0,
            tracker_backoff: false,
        }
    }
}

} // verus!
