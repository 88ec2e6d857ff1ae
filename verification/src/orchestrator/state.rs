//! Orchestrator state management

use crate::config::AppConfig;
use crate::domain::{Issue, RetryEntry, TokenTotals};
use crate::issue_map::IssueMap;
use crate::monotonic::MonotonicClock;
use crate::observability::{
    RateLimitInfo, RetryingEntrySnapshot, RunningEntrySnapshot, RuntimeSnapshot,
};
use crate::timestamp::{elapsed_millis, Timestamp, UnixTime};
use std::path::PathBuf;
use tokio::task::JoinHandle;
use tokio_util::sync::CancellationToken;
use vstd::hash_set::StringHashSet;
use vstd::prelude::*;

verus! {

/// Running entry in the orchestrator
#[derive(Debug)]
pub struct RunningEntry {
    /// Task handle (for cancellation)
    pub task_handle: Option<JoinHandle<()>>,
    /// Cancellation token
    pub cancel_token: CancellationToken,
    /// Issue identifier (for logging)
    pub identifier: String,
    /// Issue being worked on
    pub issue: Issue,
    /// Session ID (if any)
    pub session_id: Option<String>,
    /// Agent PID (if any)
    pub agent_pid: Option<u32>,
    /// Last event type
    pub last_event: Option<String>,
    /// Last event timestamp
    pub last_event_timestamp: Option<Timestamp>,
    /// Last event message (truncated to 200 chars)
    pub last_event_message: Option<String>,
    /// Input tokens accumulated
    pub input_tokens: u64,
    /// Output tokens accumulated
    pub output_tokens: u64,
    /// Total tokens
    pub total_tokens: u64,
    /// Last reported input tokens (for delta computation)
    pub last_reported_input: u64,
    /// Last reported output tokens
    pub last_reported_output: u64,
    /// Last reported total tokens
    pub last_reported_total: u64,
    /// Turn count
    pub turn_count: u32,
    /// Consecutive failure count (survives dispatch, used for backoff calculation)
    pub consecutive_failures: u32,
    /// When this entry was started
    pub started_at: Timestamp,
    /// Workspace path for this issue (set once the workspace is ready, used for cleanup)
    pub workspace_path: Option<PathBuf>,
}

impl RunningEntry {
    /// Whether this entry has no task, session or events yet.
    pub open spec fn is_fresh(self) -> bool {
        &&& self.task_handle is None
        &&& self.identifier@ == Seq::<char>::empty()
        &&& self.issue.id@ == Seq::<char>::empty()
        &&& self.issue.identifier@ == Seq::<char>::empty()
        &&& self.issue.title@ == Seq::<char>::empty()
        &&& self.session_id is None
        &&& self.agent_pid is None
        &&& self.last_event is None
        &&& self.last_event_timestamp is None
        &&& self.last_event_message is None
        &&& self.input_tokens == 0
        &&& self.output_tokens == 0
        &&& self.total_tokens == 0
        &&& self.last_reported_input == 0
        &&& self.last_reported_output == 0
        &&& self.last_reported_total == 0
        &&& self.turn_count == 0
        &&& self.consecutive_failures == 0
        &&& self.workspace_path is None
    }

    /// An entry without task, session or events that starts at `now`.
    pub fn starting_at(now: Timestamp) -> (entry: RunningEntry)
        ensures
            entry.is_fresh(),
            entry.started_at == now,
    {
        proof {
            reveal_strlit("");
            assert(""@ =~= Seq::<char>::empty());
        }
        RunningEntry {
            task_handle: None,
            cancel_token: CancellationToken::new(),
            identifier: String::new(),
            issue: Issue::new("", "", ""),
            session_id: None,
            agent_pid: None,
            last_event: None,
            last_event_timestamp: None,
            last_event_message: None,
            input_tokens: 0,
            output_tokens: 0,
            total_tokens: 0,
            last_reported_input: 0,
            last_reported_output: 0,
            last_reported_total: 0,
            turn_count: 0,
            consecutive_failures: 0,
            started_at: now,
            workspace_path: None,
        }
    }
}

impl Default for RunningEntry {
    /// An entry without task, session or events that starts now.
    fn default() -> (entry: Self)
        ensures
            entry.is_fresh(),
            entry.started_at@.is_clock_reading(),
    {
        RunningEntry::starting_at(Timestamp::now())
    }
}

/// Orchestrator runtime state
pub struct OrchestratorState {
    /// Poll interval in milliseconds
    pub poll_interval_ms: u64,
    /// Maximum concurrent agents
    pub max_concurrent_agents: usize,
    /// Currently running entries
    pub running: IssueMap<RunningEntry>,
    /// Claimed issue IDs (running + retrying)
    pub claimed: StringHashSet,
    /// Retry queue
    pub retry_attempts: IssueMap<RetryEntry>,
    /// Count of successfully completed agent runs (monotonically increasing)
    pub completed_count: u64,
    /// Aggregate token totals
    pub agent_totals: TokenTotals,
    /// Rate limit info (if any)
    pub rate_limits: Option<RateLimitInfo>,
    /// Consecutive tracker poll failures (reset on success)
    pub consecutive_tracker_failures: u32,
    /// Reading of the clock until which ticks should be skipped (tracker backoff)
    pub skip_ticks_until: Option<i128>,
    /// Maximum retry queue size
    pub max_retry_queue_size: usize,
    /// Clock by which retries are due and ticks are skipped
    pub clock: MonotonicClock,
}

/// The whole seconds that a session has been running.
pub open spec fn session_seconds(entry: RunningEntry, now: UnixTime) -> int {
    elapsed_millis(now, entry.started_at@) / 1_000
}

/// The sum of the whole seconds that the sessions of `running` have been
/// running.
pub open spec fn active_seconds(running: Map<Seq<char>, RunningEntry>, now: UnixTime) -> int
    decreases running.len(),
{
    if running.dom().finite() && running.len() > 0 {
        let id = running.dom().choose();
        session_seconds(running[id], now) + active_seconds(running.remove(id), now)
    } else {
        0
    }
}

/// Whether `listed` shows the running issue `id` as of `now`.
pub open spec fn shows_running(
    listed: RunningEntrySnapshot,
    id: Seq<char>,
    entry: RunningEntry,
    now: UnixTime,
) -> bool {
    &&& listed.issue_id@ == id
    &&& listed.identifier == entry.identifier
    &&& listed.session_id == entry.session_id
    &&& listed.turn_count == entry.turn_count
    &&& listed.input_tokens == entry.input_tokens
    &&& listed.output_tokens == entry.output_tokens
    &&& listed.total_tokens == entry.total_tokens
    &&& listed.last_event == entry.last_event
    &&& listed.last_event_message == entry.last_event_message
    &&& listed.started_at == entry.started_at
    &&& listed.millis_running == elapsed_millis(now, entry.started_at@)
}

/// Whether `listed` shows the waiting retry of the issue `id`.
pub open spec fn shows_retrying(
    listed: RetryingEntrySnapshot,
    id: Seq<char>,
    entry: RetryEntry,
) -> bool {
    &&& listed.issue_id@ == id
    &&& listed.attempt == entry.attempt
    &&& listed.error == entry.error
}

/// Whether `list` shows each running issue exactly once, in some order.
pub open spec fn lists_running(
    list: Seq<RunningEntrySnapshot>,
    running: Map<Seq<char>, RunningEntry>,
    now: UnixTime,
) -> bool {
    &&& list.len() == running.len()
    &&& forall|i: int|
        0 <= i < list.len() ==> {
            let id = (#[trigger] list[i]).issue_id@;
            running.contains_key(id) && shows_running(list[i], id, running[id], now)
        }
    &&& forall|i: int, j: int|
        0 <= i < j < list.len() ==> (#[trigger] list[i]).issue_id@ != (#[trigger] list[j]).issue_id@
    &&& forall|id: Seq<char>| #[trigger]
        running.contains_key(id) ==> exists|i: int|
            0 <= i < list.len() && (#[trigger] list[i]).issue_id@ == id
}

/// Whether `list` shows each waiting retry exactly once, in some order.
pub open spec fn lists_retrying(
    list: Seq<RetryingEntrySnapshot>,
    retry_attempts: Map<Seq<char>, RetryEntry>,
) -> bool {
    &&& list.len() == retry_attempts.len()
    &&& forall|i: int|
        0 <= i < list.len() ==> {
            let id = (#[trigger] list[i]).issue_id@;
            retry_attempts.contains_key(id) && shows_retrying(list[i], id, retry_attempts[id])
        }
    &&& forall|i: int, j: int|
        0 <= i < j < list.len() ==> (#[trigger] list[i]).issue_id@ != (#[trigger] list[j]).issue_id@
    &&& forall|id: Seq<char>| #[trigger]
        retry_attempts.contains_key(id) ==> exists|i: int|
            0 <= i < list.len() && (#[trigger] list[i]).issue_id@ == id
}

/// Whether ticks are still skipped at `tick`.
pub open spec fn backs_off(skip_ticks_until: Option<i128>, tick: i128) -> bool {
    skip_ticks_until matches Some(until) && tick < until
}

impl OrchestratorState {
    /// Whether the retry queue is at capacity.
    pub open spec fn retry_queue_is_full(self) -> bool {
        self.retry_attempts@.len() >= self.max_retry_queue_size
    }

    /// Whether no retry is due before that of the issue `id`.
    pub open spec fn is_oldest_retry(self, id: Seq<char>) -> bool {
        &&& self.retry_attempts@.contains_key(id)
        &&& forall|other: Seq<char>| #[trigger]
            self.retry_attempts@.contains_key(other) ==> self.retry_attempts@[id].due_at
                <= self.retry_attempts@[other].due_at
    }

    /// Whether `post` is `self` but for the retry queue and the claims.
    pub open spec fn agrees_outside_queue(self, post: OrchestratorState) -> bool {
        &&& post.poll_interval_ms == self.poll_interval_ms
        &&& post.max_concurrent_agents == self.max_concurrent_agents
        &&& post.running == self.running
        &&& post.completed_count == self.completed_count
        &&& post.agent_totals == self.agent_totals
        &&& post.rate_limits == self.rate_limits
        &&& post.consecutive_tracker_failures == self.consecutive_tracker_failures
        &&& post.skip_ticks_until == self.skip_ticks_until
        &&& post.max_retry_queue_size == self.max_retry_queue_size
        &&& post.clock == self.clock
    }

    /// Whether `post` is `self` without the retry and the claim of the issue `id`.
    pub open spec fn drops_retry(self, id: Seq<char>, post: OrchestratorState) -> bool {
        &&& post.retry_attempts@ == self.retry_attempts@.remove(id)
        &&& post.claimed@ == self.claimed@.remove(id)
    }

    /// Whether eviction turns `self` into `post`: a full queue loses an oldest
    /// retry and its claim, and nothing else changes.
    pub open spec fn evicts_to(self, post: OrchestratorState) -> bool {
        &&& self.agrees_outside_queue(post)
        &&& if self.retry_queue_is_full() && self.retry_attempts@.len() > 0 {
            exists|id: Seq<char>| #[trigger]
                self.is_oldest_retry(id) && self.drops_retry(id, post)
        } else {
            &&& post.retry_attempts == self.retry_attempts
            &&& post.claimed == self.claimed
        }
    }

    /// Whether exactly the running and the retrying issues are claimed, and
    /// none is both.
    pub open spec fn claims_are_consistent(self) -> bool {
        &&& self.claimed@ == self.running@.dom().union(self.retry_attempts@.dom())
        &&& self.running@.dom().disjoint(self.retry_attempts@.dom())
    }

    /// The seconds of runtime as of `now`, active sessions included.
    pub open spec fn seconds_as_of(self, now: UnixTime) -> int {
        self.agent_totals.seconds_running + active_seconds(self.running@, now)
    }

    /// Whether the seconds of runtime fit their counter whatever the clock shows.
    pub open spec fn seconds_always_fit(self) -> bool {
        forall|now: UnixTime| #[trigger]
            now.is_clock_reading() ==> self.seconds_as_of(now) <= u64::MAX
    }

    /// Whether `snapshot` shows this state as of `now` in UTC, and at the reading
    /// `tick` of the monotonic clock.
    pub open spec fn is_shown_by(
        self,
        snapshot: RuntimeSnapshot,
        now: UnixTime,
        tick: i128,
    ) -> bool {
        &&& snapshot.generated_at@ == now
        &&& snapshot.running_count == self.running@.len()
        &&& snapshot.retrying_count == self.retry_attempts@.len()
        &&& snapshot.completed_count == self.completed_count as usize
        &&& lists_running(snapshot.running@, self.running@, now)
        &&& lists_retrying(snapshot.retrying@, self.retry_attempts@)
        &&& snapshot.agent_totals.input_tokens == self.agent_totals.input_tokens
        &&& snapshot.agent_totals.output_tokens == self.agent_totals.output_tokens
        &&& snapshot.agent_totals.total_tokens == self.agent_totals.total_tokens
        &&& snapshot.agent_totals.seconds_running == self.seconds_as_of(now)
        &&& snapshot.rate_limits == self.rate_limits
        &&& snapshot.tracker_failures == self.consecutive_tracker_failures
        &&& snapshot.tracker_backoff == backs_off(self.skip_ticks_until, tick)
    }

    /// Create new state from config
    pub fn new(config: &AppConfig) -> (state: Self)
        ensures
            state.poll_interval_ms == config.polling.interval_ms,
            state.max_concurrent_agents == config.agent.max_concurrent_agents,
            state.running@ == Map::<Seq<char>, RunningEntry>::empty(),
            state.claimed@ == Set::<Seq<char>>::empty(),
            state.retry_attempts@ == Map::<Seq<char>, RetryEntry>::empty(),
            state.completed_count == 0,
            state.agent_totals == (TokenTotals {
                input_tokens: 0,
                output_tokens: 0,
                total_tokens: 0,
                seconds_running: 0,
            }),
            state.rate_limits is None,
            state.consecutive_tracker_failures == 0,
            state.skip_ticks_until is None,
            state.max_retry_queue_size == config.agent.max_retry_queue_size,
            state.claims_are_consistent(),
            state.seconds_always_fit(),
    {
        let state = OrchestratorState {
            poll_interval_ms: config.polling.interval_ms,
            max_concurrent_agents: config.agent.max_concurrent_agents,
            running: IssueMap::new(),
            claimed: StringHashSet::new(),
            retry_attempts: IssueMap::new(),
            completed_count: 0,
            agent_totals: TokenTotals::new(),
            rate_limits: None,
            consecutive_tracker_failures: 0,
            skip_ticks_until: None,
            max_retry_queue_size: config.agent.max_retry_queue_size,
            clock: MonotonicClock::start(),
        };
        assert(state.claims_are_consistent()) by {
            assert(state.claimed@ =~= state.running@.dom().union(state.retry_attempts@.dom()));
        }
        state
    }

    /// The issue whose retry is due first, if there is one.
    fn oldest_retry(&self) -> (oldest: Option<&String>)
        ensures
            oldest is Some <==> self.retry_attempts@.len() > 0,
            oldest matches Some(id) ==> self.is_oldest_retry(id@),
    {
        let len: usize = self.retry_attempts.len();
        if len == 0 {
            return None;
        }
        let ghost ids = self.retry_attempts.ids();
        let (first_id, first) = self.retry_attempts.entry_at(0);
        let mut oldest: &String = first_id;
        let mut due_at: i128 = first.due_at;
        let mut i: usize = 1;
        while i < len
            invariant
                1 <= i <= len,
                len == self.retry_attempts@.len(),
                len == ids.len(),
                ids == self.retry_attempts.ids(),
                self.retry_attempts@.contains_key(oldest@),
                due_at == self.retry_attempts@[oldest@].due_at,
                forall|j: int|
                    0 <= j < i ==> due_at <= self.retry_attempts@[#[trigger] ids[j]].due_at,
            decreases len - i,
        {
            let (id, entry) = self.retry_attempts.entry_at(i);
            if entry.due_at < due_at {
                oldest = id;
                due_at = entry.due_at;
            }
            i += 1;
        }
        assert forall|other: Seq<char>| #[trigger]
            self.retry_attempts@.contains_key(other) implies self.retry_attempts@[oldest@].due_at
            <= self.retry_attempts@[other].due_at by {
            assert(ids.contains(other));
            let j = ids.index_of(other);
            assert(ids[j] == other);
        }
        Some(oldest)
    }

    /// Evict the oldest retry entry if the queue is at capacity
    ///
    /// Returns the issue whose entry was evicted, if one was.
    pub fn evict_oldest_retry_if_full(&mut self) -> (evicted: Option<String>)
        ensures
            old(self).evicts_to(*final(self)),
            evicted is Some <==> old(self).retry_queue_is_full() && old(self).retry_attempts@.len()
                > 0,
            evicted is Some <==> old(self).retry_attempts@.len() >= old(self).max_retry_queue_size
                && old(self).retry_attempts@.len() > 0,
            evicted is None ==> final(self).retry_attempts == old(self).retry_attempts,
            evicted is None ==> final(self).claimed == old(self).claimed,
            evicted matches Some(id) ==> old(self).is_oldest_retry(id@) && old(self).drops_retry(
                id@,
                *final(self),
            ),
    {
        if self.retry_attempts.len() < self.max_retry_queue_size {
            return None;
        }
        let oldest_id = match self.oldest_retry() {
            Some(id) => id.clone(),
            None => {
                return None;
            },
        };
        self.retry_attempts.remove(oldest_id.as_str());
        self.claimed.remove(oldest_id.as_str());
        assert(old(self).is_oldest_retry(oldest_id@) && old(self).drops_retry(oldest_id@, *self));
        Some(oldest_id)
    }

    /// The running issues as of `now`, in the order of the walk.
    fn running_list(&self, now: &Timestamp) -> (list: Vec<RunningEntrySnapshot>)
        ensures
            lists_running(list@, self.running@, now@),
    {
        let len: usize = self.running.len();
        let ghost ids = self.running.ids();
        let mut list: Vec<RunningEntrySnapshot> = Vec::new();
        let mut i: usize = 0;
        while i < len
            invariant
                i <= len,
                len == self.running@.len(),
                len == ids.len(),
                ids == self.running.ids(),
                list@.len() == i,
                forall|j: int|
                    0 <= j < i ==> self.running@.contains_key(#[trigger] ids[j]) && shows_running(
                        list@[j],
                        ids[j],
                        self.running@[ids[j]],
                        now@,
                    ),
            decreases len - i,
        {
            let (id, entry) = self.running.entry_at(i);
            list.push(
                RunningEntrySnapshot {
                    issue_id: id.clone(),
                    identifier: entry.identifier.clone(),
                    session_id: entry.session_id.clone(),
                    turn_count: entry.turn_count,
                    input_tokens: entry.input_tokens,
                    output_tokens: entry.output_tokens,
                    total_tokens: entry.total_tokens,
                    last_event: entry.last_event.clone(),
                    last_event_message: entry.last_event_message.clone(),
                    started_at: entry.started_at,
                    millis_running: now.millis_since(&entry.started_at),
                },
            );
            i += 1;
        }
        assert(forall|j: int| 0 <= j < len ==> (#[trigger] list@[j]).issue_id@ == ids[j]);
        assert forall|id: Seq<char>| #[trigger] self.running@.contains_key(id) implies exists|j: int|
            0 <= j < list@.len() && (#[trigger] list@[j]).issue_id@ == id by {
            let j = ids.index_of(id);
            assert(ids.contains(id));
            assert(list@[j].issue_id@ == id);
        }
        list
    }

    /// The waiting retries, in the order of the walk.
    fn retrying_list(&self) -> (list: Vec<RetryingEntrySnapshot>)
        ensures
            lists_retrying(list@, self.retry_attempts@),
    {
        let len: usize = self.retry_attempts.len();
        let ghost ids = self.retry_attempts.ids();
        let mut list: Vec<RetryingEntrySnapshot> = Vec::new();
        let mut i: usize = 0;
        while i < len
            invariant
                i <= len,
                len == self.retry_attempts@.len(),
                len == ids.len(),
                ids == self.retry_attempts.ids(),
                list@.len() == i,
                forall|j: int|
                    0 <= j < i ==> self.retry_attempts@.contains_key(#[trigger] ids[j])
                        && shows_retrying(list@[j], ids[j], self.retry_attempts@[ids[j]]),
            decreases len - i,
        {
            let (id, entry) = self.retry_attempts.entry_at(i);
            list.push(
                RetryingEntrySnapshot {
                    issue_id: id.clone(),
                    attempt: entry.attempt,
                    error: entry.error.clone(),
                },
            );
            i += 1;
        }
        assert(forall|j: int| 0 <= j < len ==> (#[trigger] list@[j]).issue_id@ == ids[j]);
        assert forall|id: Seq<char>| #[trigger]
            self.retry_attempts@.contains_key(id) implies exists|j: int|
            0 <= j < list@.len() && (#[trigger] list@[j]).issue_id@ == id by {
            let j = ids.index_of(id);
            assert(ids.contains(id));
            assert(list@[j].issue_id@ == id);
        }
        list
    }

    /// The seconds that the active sessions have been running as of `now`.
    fn sum_active_seconds(&self, now: &Timestamp) -> (seconds: u128)
        ensures
            seconds == active_seconds(self.running@, now@),
    {
        let len: usize = self.running.len();
        let ghost ids = self.running.ids();
        let mut seconds: u128 = 0;
        let mut i: usize = 0;
        while i < len
            invariant
                i <= len,
                len == self.running@.len(),
                len == ids.len(),
                ids == self.running.ids(),
                seconds == seconds_of(ids.take(i as int), self.running@, now@),
                seconds <= i * i64::MAX,
            decreases len - i,
        {
            let (_, entry) = self.running.entry_at(i);
            let session: u64 = now.millis_since(&entry.started_at) / 1_000;
            proof {
                assert(ids.take(i + 1).drop_last() =~= ids.take(i as int));
                assert(ids.take(i + 1).last() == ids[i as int]);
                assert(i * i64::MAX + i64::MAX == (i + 1) * i64::MAX) by (nonlinear_arith);
                assert((i + 1) * i64::MAX <= u64::MAX * i64::MAX) by (nonlinear_arith)
                    requires
                        i + 1 <= u64::MAX,
                ;
            }
            seconds = seconds + session as u128;
            i += 1;
        }
        proof {
            assert(ids.take(len as int) =~= ids);
            assert(self.running@.dom() =~= ids.to_set()) by {
                assert forall|id: Seq<char>| self.running@.dom().contains(id)
                    == ids.to_set().contains(id) by {
                    assert(self.running@.contains_key(id) <==> ids.contains(id));
                }
            }
            lemma_seconds_in_any_order(ids, self.running@, now@);
        }
        seconds
    }

    /// The snapshot of this state as of `now` in UTC, and at the reading `tick`
    /// of the monotonic clock. There is none where the seconds of runtime,
    /// active sessions included, are more than their counter holds.
    pub fn snapshot_at(&self, now: Timestamp, tick: i128) -> (snapshot: Option<RuntimeSnapshot>)
        ensures
            snapshot is Some <==> self.seconds_as_of(now@) <= u64::MAX,
            snapshot matches Some(s) ==> self.is_shown_by(s, now@, tick),
    {
        let running = self.running_list(&now);
        let retrying = self.retrying_list();

        // Include active-session elapsed time so that agent_totals.seconds_running
        // reflects the aggregate runtime as of snapshot time, active sessions included.
        let mut agent_totals = self.agent_totals;
        let active_secs: u128 = self.sum_active_seconds(&now);
        if active_secs > (u64::MAX - agent_totals.seconds_running) as u128 {
            return None;
        }
        agent_totals.add_seconds(active_secs as u64);

        let tracker_backoff = match self.skip_ticks_until {
            Some(until) => tick < until,
            None => false,
        };
        Some(
            RuntimeSnapshot {
                generated_at: now,
                running_count: running.len(),
                retrying_count: retrying.len(),
                completed_count: self.completed_count as usize,
                running,
                retrying,
                agent_totals,
                rate_limits: self.rate_limits,
                tracker_failures: self.consecutive_tracker_failures,
                tracker_backoff,
            },
        )
    }

    /// Convert to a snapshot for observability, unless the seconds of runtime
    /// are more than their counter holds
    ///
    /// One reading of each clock serves the whole snapshot.
    pub fn try_to_snapshot(&self) -> (snapshot: Option<RuntimeSnapshot>)
        ensures
            match snapshot {
                Some(s) => exists|now: UnixTime, tick: i128|
                    now.is_clock_reading() && #[trigger] self.is_shown_by(s, now, tick),
                None => exists|now: UnixTime| #[trigger]
                    now.is_clock_reading() && self.seconds_as_of(now) > u64::MAX,
            },
            self.seconds_always_fit() ==> snapshot is Some,
    {
        let now = Timestamp::now();
        let tick: i128 = self.clock.now();
        self.snapshot_at(now, tick)
    }

    /// Convert to a snapshot for observability
    ///
    /// One reading of each clock serves the whole snapshot.
    pub fn to_snapshot(&self) -> (snapshot: RuntimeSnapshot)
        requires
            self.seconds_always_fit(),
        ensures
            exists|now: UnixTime, tick: i128|
                now.is_clock_reading() && #[trigger] self.is_shown_by(snapshot, now, tick),
    {
        self.try_to_snapshot().unwrap()
    }
}

/// The sum of the whole seconds that the sessions of `ids` have been running.
spec fn seconds_of(
    ids: Seq<Seq<char>>,
    running: Map<Seq<char>, RunningEntry>,
    now: UnixTime,
) -> int
    decreases ids.len(),
{
    if ids.len() == 0 {
        0
    } else {
        seconds_of(ids.drop_last(), running, now) + session_seconds(running[ids.last()], now)
    }
}

proof fn lemma_seconds_of_unused_id(
    ids: Seq<Seq<char>>,
    running: Map<Seq<char>, RunningEntry>,
    id: Seq<char>,
    now: UnixTime,
)
    requires
        !ids.contains(id),
    ensures
        seconds_of(ids, running.remove(id), now) == seconds_of(ids, running, now),
    decreases ids.len(),
{
    if ids.len() > 0 {
        assert(ids[ids.len() - 1] == ids.last());
        assert(!ids.drop_last().contains(id)) by {
            if ids.drop_last().contains(id) {
                let j = ids.drop_last().index_of(id);
                assert(ids[j] == id);
            }
        }
        lemma_seconds_of_unused_id(ids.drop_last(), running, id, now);
    }
}

/// Any running issue may be the one whose seconds are added first.
pub(crate) proof fn lemma_active_seconds_split(
    running: Map<Seq<char>, RunningEntry>,
    id: Seq<char>,
    now: UnixTime,
)
    requires
        running.dom().finite(),
        running.contains_key(id),
    ensures
        active_seconds(running, now) == session_seconds(running[id], now) + active_seconds(
            running.remove(id),
            now,
        ),
    decreases running.len(),
{
    let first = running.dom().choose();
    running.lemma_remove_key_len(id);
    if first != id {
        let rest = running.remove(first);
        running.lemma_remove_key_len(first);
        lemma_active_seconds_split(rest, id, now);
        lemma_active_seconds_split(running.remove(id), first, now);
        assert(rest.remove(id) =~= running.remove(id).remove(first));
    }
}

/// The sum over any list of the running issues is that of their sessions.
pub(crate) proof fn lemma_listed_seconds(
    list: Seq<RunningEntrySnapshot>,
    running: Map<Seq<char>, RunningEntry>,
    now: UnixTime,
    add_seconds: spec_fn(int, RunningEntrySnapshot) -> int,
)
    requires
        lists_running(list, running, now),
        forall|sum: int, listed: RunningEntrySnapshot| #[trigger]
            add_seconds(sum, listed) == sum + listed.millis_running as int / 1_000,
    ensures
        list.fold_left(0int, add_seconds) == active_seconds(running, now),
{
    let ids = Seq::new(list.len(), |i: int| list[i].issue_id@);
    assert forall|i: int, j: int| 0 <= i < j < ids.len() implies ids[i] != ids[j] by {
        assert(list[i].issue_id@ != list[j].issue_id@);
    }
    assert(running.dom() =~= ids.to_set()) by {
        assert forall|id: Seq<char>| running.dom().contains(id) == ids.to_set().contains(id) by {
            if running.contains_key(id) {
                let i = choose|i: int| 0 <= i < list.len() && (#[trigger] list[i]).issue_id@ == id;
                assert(ids[i] == id);
            }
            if ids.contains(id) {
                let i = ids.index_of(id);
                assert(list[i].issue_id@ == id);
            }
        }
    }
    lemma_seconds_in_any_order(ids, running, now);
    lemma_fold_follows_ids(list, running, now, add_seconds);
}

proof fn lemma_fold_follows_ids(
    list: Seq<RunningEntrySnapshot>,
    running: Map<Seq<char>, RunningEntry>,
    now: UnixTime,
    add_seconds: spec_fn(int, RunningEntrySnapshot) -> int,
)
    requires
        forall|i: int|
            0 <= i < list.len() ==> (#[trigger] list[i]).millis_running == elapsed_millis(
                now,
                running[list[i].issue_id@].started_at@,
            ),
        forall|sum: int, listed: RunningEntrySnapshot| #[trigger]
            add_seconds(sum, listed) == sum + listed.millis_running as int / 1_000,
    ensures
        list.fold_left(0int, add_seconds) == seconds_of(
            Seq::new(list.len(), |i: int| list[i].issue_id@),
            running,
            now,
        ),
    decreases list.len(),
{
    let ids = Seq::new(list.len(), |i: int| list[i].issue_id@);
    if list.len() > 0 {
        let rest = list.drop_last();
        assert(ids.drop_last() =~= Seq::new(rest.len(), |i: int| rest[i].issue_id@));
        assert forall|i: int| 0 <= i < rest.len() implies (#[trigger] rest[i]).millis_running
            == elapsed_millis(now, running[rest[i].issue_id@].started_at@) by {
            assert(list[i] == rest[i]);
        }
        lemma_fold_follows_ids(rest, running, now, add_seconds);
        assert(list[list.len() - 1] == list.last());
    }
}

proof fn lemma_seconds_in_any_order(
    ids: Seq<Seq<char>>,
    running: Map<Seq<char>, RunningEntry>,
    now: UnixTime,
)
    requires
        ids.no_duplicates(),
        running.dom() == ids.to_set(),
    ensures
        seconds_of(ids, running, now) == active_seconds(running, now),
    decreases ids.len(),
{
    vstd::seq_lib::seq_to_set_is_finite(ids);
    ids.unique_seq_to_set();
    if ids.len() > 0 {
        let last = ids.last();
        let rest = ids.drop_last();
        assert(ids[ids.len() - 1] == last);
        assert(ids.to_set().contains(last));
        assert(!rest.contains(last)) by {
            if rest.contains(last) {
                let j = rest.index_of(last);
                assert(ids[j] == last);
            }
        }
        assert(running.remove(last).dom() =~= rest.to_set()) by {
            assert forall|id: Seq<char>| running.remove(last).dom().contains(id)
                == rest.to_set().contains(id) by {
                if id != last && ids.contains(id) {
                    let j = ids.index_of(id);
                    assert(rest[j] == id);
                }
                if rest.contains(id) {
                    let j = rest.index_of(id);
                    assert(ids[j] == id);
                }
                assert(running.dom().contains(id) == ids.contains(id));
            }
        }
        lemma_active_seconds_split(running, last, now);
        lemma_seconds_of_unused_id(rest, running, last, now);
        lemma_seconds_in_any_order(rest, running.remove(last), now);
    }
}

} // verus!
