//! What holds of the orchestrator's state as a whole.

use crate::domain::RetryEntry;
use crate::observability::{
    retrying_views, running_views, RetryingEntrySnapshot, RetryingEntryView, RunningEntrySnapshot,
    RunningEntryView, RuntimeSnapshot,
};
use crate::orchestrator::state::{
    active_seconds, lemma_active_seconds_split, lemma_listed_seconds, lists_retrying,
    lists_running, session_seconds, OrchestratorState, RunningEntry,
};
use crate::timestamp::{
    elapsed_millis, law_elapsed_millis_fit_between, law_elapsed_time_does_not_shrink, nanos_between,
    UnixTime,
};
use vstd::prelude::*;

verus! {

/// More than any session's seconds, whatever the clock shows.
pub const SESSION_SECONDS_BOUND: u64 = 16_544_868_105_601;

/// While fewer retries wait than the queue may hold, eviction changes nothing.
pub proof fn law_no_eviction_below_capacity(pre: OrchestratorState, post: OrchestratorState)
    requires
        pre.evicts_to(post),
        pre.retry_attempts@.len() < pre.max_retry_queue_size,
    ensures
        post.retry_attempts == pre.retry_attempts,
        post.claimed == pre.claimed,
{
}

/// Once as many retries wait as the queue may hold, or more, eviction takes
/// out one of them, with its claim: one that no other is due before.
pub proof fn law_eviction_at_capacity_drops_an_oldest(
    pre: OrchestratorState,
    post: OrchestratorState,
)
    requires
        pre.evicts_to(post),
        pre.retry_attempts@.len() >= pre.max_retry_queue_size,
        pre.retry_attempts@.len() > 0,
    ensures
        exists|id: Seq<char>|
            {
                &&& #[trigger] pre.retry_attempts@.contains_key(id)
                &&& post.retry_attempts@ == pre.retry_attempts@.remove(id)
                &&& post.claimed@ == pre.claimed@.remove(id)
                &&& forall|other: Seq<char>| #[trigger]
                    pre.retry_attempts@.contains_key(other) ==> pre.retry_attempts@[id].due_at
                        <= pre.retry_attempts@[other].due_at
            },
{
    let victim = choose|victim: Seq<char>| #[trigger]
        pre.is_oldest_retry(victim) && pre.drops_retry(victim, post);
    assert(pre.retry_attempts@.contains_key(victim));
}

/// An empty queue stays as it is, whatever it may hold.
pub proof fn law_eviction_of_an_empty_queue(pre: OrchestratorState, post: OrchestratorState)
    requires
        pre.evicts_to(post),
        pre.retry_attempts@ == Map::<Seq<char>, RetryEntry>::empty(),
    ensures
        post.retry_attempts == pre.retry_attempts,
        post.claimed == pre.claimed,
{
}

/// Eviction touches nothing but the retry queue and the claims.
pub proof fn law_eviction_leaves_the_rest(pre: OrchestratorState, post: OrchestratorState)
    requires
        pre.evicts_to(post),
    ensures
        post == (OrchestratorState {
            retry_attempts: post.retry_attempts,
            claimed: post.claimed,
            ..pre
        }),
{
}

/// Where the claims are consistent, an issue is claimed if and only if it runs
/// or waits, and no issue does both; and where that holds, they are consistent.
pub proof fn law_claims_are_running_and_retrying_issues(state: OrchestratorState)
    ensures
        state.claims_are_consistent() <==> (forall|id: Seq<char>| #[trigger]
            state.claimed@.contains(id) <==> (state.running@.contains_key(id)
                || state.retry_attempts@.contains_key(id))) && (forall|id: Seq<char>| #[trigger]
            state.running@.contains_key(id) ==> !state.retry_attempts@.contains_key(id)),
{
    let both = state.running@.dom().union(state.retry_attempts@.dom());
    if state.claims_are_consistent() {
        assert forall|id: Seq<char>| #[trigger] state.claimed@.contains(id) <==> (
        state.running@.contains_key(id) || state.retry_attempts@.contains_key(id)) by {
            assert(both.contains(id) <==> state.claimed@.contains(id));
        }
    }
    if (forall|id: Seq<char>| #[trigger]
        state.claimed@.contains(id) <==> (state.running@.contains_key(id)
            || state.retry_attempts@.contains_key(id))) && (forall|id: Seq<char>| #[trigger]
        state.running@.contains_key(id) ==> !state.retry_attempts@.contains_key(id)) {
        assert(state.claimed@ =~= both);
        assert forall|id: Seq<char>| state.running@.dom().contains(id) implies
            !state.retry_attempts@.dom().contains(id) by {
            assert(state.running@.contains_key(id));
        }
    }
}

/// An entry that starts is blank in every field but its start and its token.
pub proof fn law_fresh_entry_is_blank(entry: RunningEntry)
    ensures
        entry.is_fresh() <==> {
            &&& entry.task_handle is None
            &&& entry.identifier@.len() == 0
            &&& entry.issue.id@.len() == 0
            &&& entry.issue.identifier@.len() == 0
            &&& entry.issue.title@.len() == 0
            &&& entry.session_id is None
            &&& entry.agent_pid is None
            &&& entry.last_event is None
            &&& entry.last_event_timestamp is None
            &&& entry.last_event_message is None
            &&& entry.input_tokens == 0
            &&& entry.output_tokens == 0
            &&& entry.total_tokens == 0
            &&& entry.last_reported_input == 0
            &&& entry.last_reported_output == 0
            &&& entry.last_reported_total == 0
            &&& entry.turn_count == 0
            &&& entry.consecutive_failures == 0
            &&& entry.workspace_path is None
        },
{
    assert(entry.identifier@.len() == 0 ==> entry.identifier@ =~= Seq::<char>::empty());
    assert(entry.issue.id@.len() == 0 ==> entry.issue.id@ =~= Seq::<char>::empty());
    assert(entry.issue.identifier@.len() == 0 ==> entry.issue.identifier@ =~= Seq::<
        char,
    >::empty());
    assert(entry.issue.title@.len() == 0 ==> entry.issue.title@ =~= Seq::<char>::empty());
}

/// With no issue running, the seconds of runtime are the recorded ones.
pub proof fn law_seconds_without_sessions(state: OrchestratorState, now: UnixTime)
    requires
        state.running@ == Map::<Seq<char>, RunningEntry>::empty(),
    ensures
        state.seconds_as_of(now) == state.agent_totals.seconds_running,
{
}

/// One more running issue adds the whole seconds since its start, neither one
/// less nor one more, and none where the start is still to come. (Leap seconds
/// are left out.)
pub proof fn law_session_adds_its_whole_seconds(
    state: OrchestratorState,
    with_session: OrchestratorState,
    id: Seq<char>,
    entry: RunningEntry,
    now: UnixTime,
)
    requires
        !state.running@.contains_key(id),
        with_session.running@ == state.running@.insert(id, entry),
        with_session.agent_totals.seconds_running == state.agent_totals.seconds_running,
        0 <= entry.started_at@.nanos < 1_000_000_000,
        0 <= now.nanos < 1_000_000_000,
    ensures
        ({
            let start = entry.started_at@;
            let nanos = (now.secs - start.secs) * 1_000_000_000 + (now.nanos - start.nanos);
            let added = with_session.seconds_as_of(now) - state.seconds_as_of(now);
            &&& nanos >= 0 ==> 1_000_000_000 * added <= nanos < 1_000_000_000 * (added + 1)
            &&& nanos < 0 ==> added == 0
        }),
{
    with_session.running.lemma_is_finite();
    lemma_active_seconds_split(with_session.running@, id, now);
    assert(with_session.running@.remove(id) =~= state.running@);
    law_elapsed_millis_fit_between(entry.started_at@, now);
}

/// One more running issue adds the whole seconds of the milliseconds since its
/// start, leap seconds counted.
pub proof fn law_session_adds_the_seconds_of_its_millis(
    state: OrchestratorState,
    with_session: OrchestratorState,
    id: Seq<char>,
    entry: RunningEntry,
    now: UnixTime,
)
    requires
        !state.running@.contains_key(id),
        with_session.running@ == state.running@.insert(id, entry),
        with_session.agent_totals.seconds_running == state.agent_totals.seconds_running,
    ensures
        ({
            let added = with_session.seconds_as_of(now) - state.seconds_as_of(now);
            1_000 * added <= elapsed_millis(now, entry.started_at@) < 1_000 * (added + 1)
        }),
{
    with_session.running.lemma_is_finite();
    lemma_active_seconds_split(with_session.running@, id, now);
    assert(with_session.running@.remove(id) =~= state.running@);
}

/// A snapshot of a state with one running issue shows the recorded seconds and
/// the whole seconds since that issue's start. (Leap seconds are left out.)
pub proof fn law_snapshot_of_one_session(
    state: OrchestratorState,
    snapshot: RuntimeSnapshot,
    now: UnixTime,
    tick: i128,
    id: Seq<char>,
    entry: RunningEntry,
)
    requires
        state.is_shown_by(snapshot, now, tick),
        state.running@ == Map::<Seq<char>, RunningEntry>::empty().insert(id, entry),
        0 <= entry.started_at@.nanos < 1_000_000_000,
        0 <= now.nanos < 1_000_000_000,
    ensures
        ({
            let start = entry.started_at@;
            let nanos = (now.secs - start.secs) * 1_000_000_000 + (now.nanos - start.nanos);
            let n = snapshot.agent_totals.seconds_running - state.agent_totals.seconds_running;
            &&& nanos >= 0 ==> 1_000_000_000 * n <= nanos < 1_000_000_000 * (n + 1)
            &&& nanos < 0 ==> n == 0
        }),
{
    state.running.lemma_is_finite();
    lemma_active_seconds_split(state.running@, id, now);
    assert(state.running@.remove(id) =~= Map::<Seq<char>, RunningEntry>::empty());
    law_elapsed_millis_fit_between(entry.started_at@, now);
}

/// The seconds of runtime that a snapshot shows are the recorded ones and, for
/// each issue that it lists as running, the whole seconds of the milliseconds
/// that it lists.
pub proof fn law_snapshot_seconds_are_those_listed(
    state: OrchestratorState,
    snapshot: RuntimeSnapshot,
    now: UnixTime,
    tick: i128,
)
    requires
        state.is_shown_by(snapshot, now, tick),
    ensures
        snapshot.agent_totals.seconds_running == snapshot.running@.fold_left(
            state.agent_totals.seconds_running as int,
            |sum: int, listed: RunningEntrySnapshot| sum + listed.millis_running as int / 1_000,
        ),
{
    let add_seconds = |sum: int, listed: RunningEntrySnapshot|
        sum + listed.millis_running as int / 1_000;
    lemma_listed_seconds(snapshot.running@, state.running@, now, add_seconds);
    lemma_fold_from_start(
        snapshot.running@,
        state.agent_totals.seconds_running as int,
        add_seconds,
    );
}

proof fn lemma_fold_from_start(
    list: Seq<RunningEntrySnapshot>,
    start: int,
    add_seconds: spec_fn(int, RunningEntrySnapshot) -> int,
)
    requires
        forall|sum: int, listed: RunningEntrySnapshot| #[trigger]
            add_seconds(sum, listed) == sum + listed.millis_running as int / 1_000,
    ensures
        list.fold_left(start, add_seconds) == start + list.fold_left(0int, add_seconds),
    decreases list.len(),
{
    if list.len() > 0 {
        lemma_fold_from_start(list.drop_last(), start, add_seconds);
    }
}

/// The seconds of runtime of a snapshot are those that decide whether one can
/// be taken.
pub proof fn law_snapshot_shows_the_seconds_as_of_now(
    state: OrchestratorState,
    snapshot: RuntimeSnapshot,
    now: UnixTime,
    tick: i128,
)
    requires
        state.is_shown_by(snapshot, now, tick),
    ensures
        snapshot.agent_totals.seconds_running == state.seconds_as_of(now),
{
}

/// The seconds always fit if and only if they fit at every nanosecond from the
/// epoch on.
pub proof fn law_seconds_always_fit(state: OrchestratorState)
    ensures
        state.seconds_always_fit() <==> forall|now: UnixTime|
            0 <= now.secs <= 8_210_266_876_799 && 0 <= now.nanos < 1_000_000_000
                ==> #[trigger] state.seconds_as_of(now) <= u64::MAX,
{
    if state.seconds_always_fit() {
        assert forall|now: UnixTime|
            0 <= now.secs <= 8_210_266_876_799 && 0 <= now.nanos
                < 1_000_000_000 implies #[trigger] state.seconds_as_of(now) <= u64::MAX by {
            assert(now.is_clock_reading());
        }
    }
}

/// Each running issue is listed once, with what its entry holds and with the
/// milliseconds since its start that are over. (Leap seconds are left out of
/// the last.)
pub proof fn law_snapshot_lists_each_running_issue(
    state: OrchestratorState,
    snapshot: RuntimeSnapshot,
    now: UnixTime,
    tick: i128,
    id: Seq<char>,
)
    requires
        state.is_shown_by(snapshot, now, tick),
        state.running@.contains_key(id),
    ensures
        exists|i: int|
            {
                let entry = state.running@[id];
                let listed = #[trigger] snapshot.running@[i];
                let start = entry.started_at@;
                let nanos = (now.secs - start.secs) * 1_000_000_000 + (now.nanos - start.nanos);
                &&& 0 <= i < snapshot.running@.len()
                &&& listed.issue_id@ == id
                &&& listed.identifier@ == entry.identifier@
                &&& listed.session_id == entry.session_id
                &&& listed.turn_count == entry.turn_count
                &&& listed.input_tokens == entry.input_tokens
                &&& listed.output_tokens == entry.output_tokens
                &&& listed.total_tokens == entry.total_tokens
                &&& listed.last_event == entry.last_event
                &&& listed.last_event_message == entry.last_event_message
                &&& listed.started_at == entry.started_at
                &&& listed.millis_running == elapsed_millis(now, start)
                &&& 0 <= start.nanos < 1_000_000_000 && 0 <= now.nanos < 1_000_000_000 && nanos >= 0
                    ==> 1_000_000 * listed.millis_running <= nanos < 1_000_000 * (
                listed.millis_running + 1)
                &&& 0 <= start.nanos < 1_000_000_000 && 0 <= now.nanos < 1_000_000_000 && nanos < 0
                    ==> listed.millis_running == 0
                &&& forall|j: int|
                    0 <= j < snapshot.running@.len() && j != i ==> (
                    #[trigger] snapshot.running@[j]).issue_id@ != id
            },
{
    let i = choose|i: int|
        0 <= i < snapshot.running@.len() && (#[trigger] snapshot.running@[i]).issue_id@ == id;
    if 0 <= state.running@[id].started_at@.nanos < 1_000_000_000 && 0 <= now.nanos
        < 1_000_000_000 {
        law_elapsed_millis_fit_between(state.running@[id].started_at@, now);
    }
    assert forall|j: int| 0 <= j < snapshot.running@.len() && j != i implies (
    #[trigger] snapshot.running@[j]).issue_id@ != id by {
        assert(snapshot.running@[i].issue_id@ == id);
    }
    assert(snapshot.running@[i].issue_id@ == id);
}

/// Each waiting retry is listed once, with what its entry holds.
pub proof fn law_snapshot_lists_each_retry(
    state: OrchestratorState,
    snapshot: RuntimeSnapshot,
    now: UnixTime,
    tick: i128,
    id: Seq<char>,
)
    requires
        state.is_shown_by(snapshot, now, tick),
        state.retry_attempts@.contains_key(id),
    ensures
        exists|i: int|
            {
                let entry = state.retry_attempts@[id];
                let listed = #[trigger] snapshot.retrying@[i];
                &&& 0 <= i < snapshot.retrying@.len()
                &&& listed.issue_id@ == id
                &&& listed.attempt == entry.attempt
                &&& listed.error == entry.error
                &&& forall|j: int|
                    0 <= j < snapshot.retrying@.len() && j != i ==> (
                    #[trigger] snapshot.retrying@[j]).issue_id@ != id
            },
{
    let i = choose|i: int|
        0 <= i < snapshot.retrying@.len() && (#[trigger] snapshot.retrying@[i]).issue_id@ == id;
    assert forall|j: int| 0 <= j < snapshot.retrying@.len() && j != i implies (
    #[trigger] snapshot.retrying@[j]).issue_id@ != id by {
        assert(snapshot.retrying@[i].issue_id@ == id);
    }
    assert(snapshot.retrying@[i].issue_id@ == id);
}

/// Nothing is listed that does not run or wait, and as many entries are listed
/// and counted as there are issues that do.
pub proof fn law_snapshot_lists_nothing_else(
    state: OrchestratorState,
    snapshot: RuntimeSnapshot,
    now: UnixTime,
    tick: i128,
)
    requires
        state.is_shown_by(snapshot, now, tick),
    ensures
        forall|i: int|
            0 <= i < snapshot.running@.len() ==> state.running@.contains_key(
                (#[trigger] snapshot.running@[i]).issue_id@,
            ),
        forall|i: int|
            0 <= i < snapshot.retrying@.len() ==> state.retry_attempts@.contains_key(
                (#[trigger] snapshot.retrying@[i]).issue_id@,
            ),
        snapshot.running_count == state.running@.len(),
        snapshot.running@.len() == state.running@.len(),
        snapshot.retrying_count == state.retry_attempts@.len(),
        snapshot.retrying@.len() == state.retry_attempts@.len(),
{
}

/// A snapshot carries the counters of the state as they are, and the time at
/// which it was taken.
pub proof fn law_snapshot_carries_the_counters(
    state: OrchestratorState,
    snapshot: RuntimeSnapshot,
    now: UnixTime,
    tick: i128,
)
    requires
        state.is_shown_by(snapshot, now, tick),
    ensures
        snapshot.generated_at@.secs == now.secs,
        snapshot.generated_at@.nanos == now.nanos,
        state.completed_count <= usize::MAX ==> snapshot.completed_count == state.completed_count,
        snapshot.completed_count == state.completed_count as usize,
        snapshot.agent_totals.input_tokens == state.agent_totals.input_tokens,
        snapshot.agent_totals.output_tokens == state.agent_totals.output_tokens,
        snapshot.agent_totals.total_tokens == state.agent_totals.total_tokens,
        snapshot.rate_limits == state.rate_limits,
        snapshot.tracker_failures == state.consecutive_tracker_failures,
{
}

/// A queue within its capacity has room for one more retry once it has been
/// evicted from. (A capacity of zero has no room for any.)
pub proof fn law_eviction_makes_room(
    pre: OrchestratorState,
    post: OrchestratorState,
    id: Seq<char>,
    entry: RetryEntry,
)
    requires
        pre.evicts_to(post),
        pre.retry_attempts@.len() <= pre.max_retry_queue_size,
        pre.max_retry_queue_size > 0,
    ensures
        post.retry_attempts@.len() < post.max_retry_queue_size,
        post.retry_attempts@.insert(id, entry).len() <= post.max_retry_queue_size,
{
    pre.retry_attempts.lemma_is_finite();
    if pre.retry_queue_is_full() {
        let victim = choose|victim: Seq<char>| #[trigger]
            pre.is_oldest_retry(victim) && pre.drops_retry(victim, post);
        pre.retry_attempts@.lemma_remove_key_len(victim);
    }
    assert(post.retry_attempts@.insert(id, entry).dom() =~= post.retry_attempts@.dom().insert(id));
}

/// Eviction never drops a retry that is due after another one, and leaves
/// what it keeps as it was.
pub proof fn law_eviction_spares_younger_retries(
    pre: OrchestratorState,
    post: OrchestratorState,
    older: Seq<char>,
    younger: Seq<char>,
)
    requires
        pre.evicts_to(post),
        pre.retry_attempts@.contains_key(older),
        pre.retry_attempts@.contains_key(younger),
        pre.retry_attempts@[older].due_at < pre.retry_attempts@[younger].due_at,
    ensures
        post.retry_attempts@.contains_key(younger),
        post.retry_attempts@[younger] == pre.retry_attempts@[younger],
        pre.claimed@.contains(younger) ==> post.claimed@.contains(younger),
{
    if pre.retry_queue_is_full() && pre.retry_attempts@.len() > 0 {
        let victim = choose|victim: Seq<char>| #[trigger]
            pre.is_oldest_retry(victim) && pre.drops_retry(victim, post);
        assert(pre.retry_attempts@[victim].due_at <= pre.retry_attempts@[older].due_at);
    }
}

/// Eviction drops at most one retry, and only from a full queue.
pub proof fn law_eviction_drops_at_most_one(pre: OrchestratorState, post: OrchestratorState)
    requires
        pre.evicts_to(post),
    ensures
        post.retry_attempts@.submap_of(pre.retry_attempts@),
        post.retry_attempts@.len() == pre.retry_attempts@.len() - if pre.retry_queue_is_full()
            && pre.retry_attempts@.len() > 0 {
            1int
        } else {
            0int
        },
        !pre.retry_queue_is_full() ==> post.retry_attempts == pre.retry_attempts && post.claimed
            == pre.claimed,
{
    pre.retry_attempts.lemma_is_finite();
    if pre.retry_queue_is_full() && pre.retry_attempts@.len() > 0 {
        let victim = choose|victim: Seq<char>| #[trigger]
            pre.is_oldest_retry(victim) && pre.drops_retry(victim, post);
        pre.retry_attempts@.lemma_remove_key_len(victim);
    }
}

/// The claims stay those of the running and the retrying issues: with the
/// evicted retry goes its claim, and no other. (An issue that is running while
/// it waits for a retry would lose the claim that it runs under.)
pub proof fn law_eviction_keeps_claims_consistent(pre: OrchestratorState, post: OrchestratorState)
    requires
        pre.evicts_to(post),
        pre.claims_are_consistent(),
    ensures
        post.claims_are_consistent(),
{
    if pre.retry_queue_is_full() && pre.retry_attempts@.len() > 0 {
        let victim = choose|victim: Seq<char>| #[trigger]
            pre.is_oldest_retry(victim) && pre.drops_retry(victim, post);
        assert(pre.running@.dom().disjoint(pre.retry_attempts@.dom()));
        assert(!pre.running@.dom().contains(victim));
        assert(post.claimed@ =~= post.running@.dom().union(post.retry_attempts@.dom()));
    }
}

/// Every issue that eviction drops from the queue is no longer claimed.
pub proof fn law_evicted_issue_is_released(
    pre: OrchestratorState,
    post: OrchestratorState,
    id: Seq<char>,
)
    requires
        pre.evicts_to(post),
        pre.retry_attempts@.contains_key(id),
        !post.retry_attempts@.contains_key(id),
    ensures
        pre.is_oldest_retry(id),
        !post.claimed@.contains(id),
        pre.retry_queue_is_full(),
{
}

proof fn lemma_session_seconds_bound(entry: RunningEntry, now: UnixTime)
    requires
        entry.started_at@.valid(),
        now.valid(),
    ensures
        0 <= session_seconds(entry, now) <= SESSION_SECONDS_BOUND,
{
    let nanos = nanos_between(now, entry.started_at@);
    assert(nanos <= 16_544_868_105_601 * 1_000_000_000);
    assert(elapsed_millis(now, entry.started_at@) <= 16_544_868_105_601 * 1_000);
}

proof fn lemma_active_seconds_bound(running: Map<Seq<char>, RunningEntry>, now: UnixTime)
    requires
        running.dom().finite(),
        now.valid(),
        forall|id: Seq<char>| #[trigger]
            running.contains_key(id) ==> running[id].started_at@.valid(),
    ensures
        0 <= active_seconds(running, now) <= running.len() * SESSION_SECONDS_BOUND,
    decreases running.len(),
{
    if running.len() > 0 {
        let id = running.dom().choose();
        assert(running.contains_key(id));
        running.lemma_remove_key_len(id);
        lemma_session_seconds_bound(running[id], now);
        assert forall|other: Seq<char>| #[trigger]
            running.remove(id).contains_key(other) implies running.remove(
            id,
        )[other].started_at@.valid() by {
            assert(running.contains_key(other));
        }
        lemma_active_seconds_bound(running.remove(id), now);
        let n = running.len() as int;
        assert((n - 1) * SESSION_SECONDS_BOUND + SESSION_SECONDS_BOUND == n * SESSION_SECONDS_BOUND)
            by (nonlinear_arith);
    }
}

/// A snapshot can be taken at any time while the recorded seconds leave room
/// for the longest session of each running issue.
pub proof fn law_seconds_fit_with_room_for_each_session(state: OrchestratorState)
    requires
        forall|id: Seq<char>| #[trigger]
            state.running@.contains_key(id) ==> state.running@[id].started_at@.valid(),
        state.agent_totals.seconds_running + state.running@.len() * SESSION_SECONDS_BOUND
            <= u64::MAX,
    ensures
        state.seconds_always_fit(),
{
    state.running.lemma_is_finite();
    assert forall|now: UnixTime| #[trigger] now.is_clock_reading() implies state.seconds_as_of(now)
        <= u64::MAX by {
        lemma_active_seconds_bound(state.running@, now);
    }
}

/// A snapshot never shows fewer seconds of runtime than have been recorded.
pub proof fn law_snapshot_counts_recorded_seconds(
    state: OrchestratorState,
    snapshot: RuntimeSnapshot,
    now: UnixTime,
    tick: i128,
)
    requires
        state.is_shown_by(snapshot, now, tick),
    ensures
        state.agent_totals.seconds_running <= snapshot.agent_totals.seconds_running,
        state.running@.len() == 0 ==> snapshot.agent_totals.seconds_running
            == state.agent_totals.seconds_running,
{
    state.running.lemma_is_finite();
    lemma_active_seconds_are_not_negative(state.running@, now);
}

proof fn lemma_active_seconds_are_not_negative(
    running: Map<Seq<char>, RunningEntry>,
    now: UnixTime,
)
    requires
        running.dom().finite(),
    ensures
        0 <= active_seconds(running, now),
    decreases running.len(),
{
    if running.len() > 0 {
        let id = running.dom().choose();
        running.lemma_remove_key_len(id);
        lemma_active_seconds_are_not_negative(running.remove(id), now);
    }
}

/// A snapshot counts the session of each running issue in full.
pub proof fn law_snapshot_counts_each_session(
    state: OrchestratorState,
    snapshot: RuntimeSnapshot,
    now: UnixTime,
    tick: i128,
    id: Seq<char>,
)
    requires
        state.is_shown_by(snapshot, now, tick),
        state.running@.contains_key(id),
    ensures
        state.agent_totals.seconds_running + session_seconds(state.running@[id], now)
            <= snapshot.agent_totals.seconds_running,
{
    state.running.lemma_is_finite();
    lemma_active_seconds_split(state.running@, id, now);
    lemma_active_seconds_are_not_negative(state.running@.remove(id), now);
}

proof fn lemma_active_seconds_do_not_shrink(
    running: Map<Seq<char>, RunningEntry>,
    now: UnixTime,
    later: UnixTime,
)
    requires
        running.dom().finite(),
        forall|id: Seq<char>| #[trigger]
            running.contains_key(id) ==> running[id].started_at@.valid()
                && !running[id].started_at@.in_leap_second(),
        now.valid(),
        later.valid(),
        !now.in_leap_second(),
        !later.in_leap_second(),
        now.not_after(later),
    ensures
        active_seconds(running, now) <= active_seconds(running, later),
    decreases running.len(),
{
    if running.len() > 0 {
        let id = running.dom().choose();
        let rest = running.remove(id);
        assert(running.contains_key(id));
        running.lemma_remove_key_len(id);
        law_elapsed_time_does_not_shrink(running[id].started_at@, now, later);
        assert forall|other: Seq<char>| #[trigger] rest.contains_key(other) implies
            rest[other].started_at@.valid() && !rest[other].started_at@.in_leap_second() by {
            assert(running.contains_key(other));
        }
        lemma_active_seconds_do_not_shrink(rest, now, later);
    }
}

/// A later snapshot of the same state shows no fewer seconds of runtime. (A
/// session that starts in a leap second is left out: that second counts only
/// until midnight.)
pub proof fn law_later_snapshot_shows_no_fewer_seconds(
    state: OrchestratorState,
    snapshot: RuntimeSnapshot,
    now: UnixTime,
    tick: i128,
    later_snapshot: RuntimeSnapshot,
    later: UnixTime,
    later_tick: i128,
)
    requires
        state.is_shown_by(snapshot, now, tick),
        state.is_shown_by(later_snapshot, later, later_tick),
        now.is_clock_reading(),
        later.is_clock_reading(),
        now.not_after(later),
        forall|id: Seq<char>| #[trigger]
            state.running@.contains_key(id) ==> state.running@[id].started_at@.valid()
                && !state.running@[id].started_at@.in_leap_second(),
    ensures
        snapshot.agent_totals.seconds_running <= later_snapshot.agent_totals.seconds_running,
{
    state.running.lemma_is_finite();
    lemma_active_seconds_do_not_shrink(state.running@, now, later);
}

proof fn lemma_same_elements<A>(a: Seq<A>, b: Seq<A>)
    requires
        a.no_duplicates(),
        b.no_duplicates(),
        forall|x: A| #[trigger] a.contains(x) <==> b.contains(x),
    ensures
        a.to_multiset() == b.to_multiset(),
{
    a.to_multiset_ensures();
    b.to_multiset_ensures();
    a.lemma_multiset_has_no_duplicates();
    b.lemma_multiset_has_no_duplicates();
    assert forall|x: A| a.to_multiset().count(x) == b.to_multiset().count(x) by {
        assert(a.contains(x) <==> b.contains(x));
        assert(a.to_multiset().contains(x) <==> a.to_multiset().count(x) > 0);
        assert(b.to_multiset().contains(x) <==> b.to_multiset().count(x) > 0);
    }
    assert(a.to_multiset() =~= b.to_multiset());
}

/// What `a` says of the running issues, `b` says too.
proof fn lemma_running_entries_are_shared(
    a: Seq<RunningEntrySnapshot>,
    b: Seq<RunningEntrySnapshot>,
    running: Map<Seq<char>, RunningEntry>,
    now: UnixTime,
)
    requires
        lists_running(a, running, now),
        lists_running(b, running, now),
    ensures
        running_views(a).no_duplicates(),
        forall|x: RunningEntryView|
            running_views(a).contains(x)
                ==> #[trigger] running_views(b).contains(x),
{
    let shown_a = running_views(a);
    let shown_b = running_views(b);
    assert forall|i: int, j: int| 0 <= i < j < shown_a.len() implies shown_a[i] != shown_a[j] by {
        assert(a[i].issue_id@ != a[j].issue_id@);
    }
    assert forall|x: RunningEntryView| shown_a.contains(x) implies #[trigger] shown_b.contains(
        x,
    ) by {
        let i = shown_a.index_of(x);
        let id = a[i].issue_id@;
        assert(running.contains_key(id));
        let j = choose|j: int| 0 <= j < b.len() && (#[trigger] b[j]).issue_id@ == id;
        assert(shown_b[j] == x);
    }
}

/// What `a` says of the waiting retries, `b` says too.
proof fn lemma_retrying_entries_are_shared(
    a: Seq<RetryingEntrySnapshot>,
    b: Seq<RetryingEntrySnapshot>,
    retry_attempts: Map<Seq<char>, RetryEntry>,
)
    requires
        lists_retrying(a, retry_attempts),
        lists_retrying(b, retry_attempts),
    ensures
        retrying_views(a).no_duplicates(),
        forall|x: RetryingEntryView|
            retrying_views(a).contains(x)
                ==> #[trigger] retrying_views(b).contains(x),
{
    let shown_a = retrying_views(a);
    let shown_b = retrying_views(b);
    assert forall|i: int, j: int| 0 <= i < j < shown_a.len() implies shown_a[i] != shown_a[j] by {
        assert(a[i].issue_id@ != a[j].issue_id@);
    }
    assert forall|x: RetryingEntryView| shown_a.contains(x) implies #[trigger] shown_b.contains(
        x,
    ) by {
        let i = shown_a.index_of(x);
        let id = a[i].issue_id@;
        assert(retry_attempts.contains_key(id));
        let j = choose|j: int| 0 <= j < b.len() && (#[trigger] b[j]).issue_id@ == id;
        assert(shown_b[j] == x);
    }
}

/// Two snapshots of one state at the same readings of the clocks say the same,
/// up to the order of their lists: taking the first leaves nothing behind that
/// the second would count again.
pub proof fn law_snapshots_at_one_time_agree(
    state: OrchestratorState,
    snapshot: RuntimeSnapshot,
    other: RuntimeSnapshot,
    now: UnixTime,
    tick: i128,
)
    requires
        state.is_shown_by(snapshot, now, tick),
        state.is_shown_by(other, now, tick),
    ensures
        snapshot.agrees_with(other),
{
    lemma_running_entries_are_shared(snapshot.running@, other.running@, state.running@, now);
    lemma_running_entries_are_shared(other.running@, snapshot.running@, state.running@, now);
    lemma_same_elements(
        running_views(snapshot.running@),
        running_views(other.running@),
    );
    lemma_retrying_entries_are_shared(snapshot.retrying@, other.retrying@, state.retry_attempts@);
    lemma_retrying_entries_are_shared(other.retrying@, snapshot.retrying@, state.retry_attempts@);
    lemma_same_elements(
        retrying_views(snapshot.retrying@),
        retrying_views(other.retrying@),
    );
}

/// A snapshot shows tracker backoff before the reading until which ticks are
/// skipped, and no longer from that reading on.
pub proof fn law_backoff_ends_at_its_reading(
    state: OrchestratorState,
    snapshot: RuntimeSnapshot,
    now: UnixTime,
    tick: i128,
    until: i128,
)
    requires
        state.is_shown_by(snapshot, now, tick),
        state.skip_ticks_until == Some(until),
    ensures
        snapshot.tracker_backoff <==> tick < until,
{
}

/// While no ticks are to be skipped, a snapshot shows no tracker backoff.
pub proof fn law_no_backoff_without_skipped_ticks(
    state: OrchestratorState,
    snapshot: RuntimeSnapshot,
    now: UnixTime,
    tick: i128,
)
    requires
        state.is_shown_by(snapshot, now, tick),
        state.skip_ticks_until is None,
    ensures
        !snapshot.tracker_backoff,
{
}

/// A state in which nothing runs or waits is shown with empty lists.
pub proof fn law_idle_state_shows_nothing(
    state: OrchestratorState,
    snapshot: RuntimeSnapshot,
    now: UnixTime,
    tick: i128,
)
    requires
        state.is_shown_by(snapshot, now, tick),
        state.running@ == Map::<Seq<char>, RunningEntry>::empty(),
        state.retry_attempts@ == Map::<Seq<char>, RetryEntry>::empty(),
    ensures
        snapshot.running_count == 0,
        snapshot.retrying_count == 0,
        snapshot.running@.len() == 0,
        snapshot.retrying@.len() == 0,
        snapshot.agent_totals == state.agent_totals,
{
}

/// The counts of a snapshot are the lengths of its lists.
pub proof fn law_snapshot_counts_its_lists(
    state: OrchestratorState,
    snapshot: RuntimeSnapshot,
    now: UnixTime,
    tick: i128,
)
    requires
        state.is_shown_by(snapshot, now, tick),
    ensures
        snapshot.running_count == snapshot.running@.len(),
        snapshot.retrying_count == snapshot.retrying@.len(),
{
}

} // verus!
