//! What the observability endpoints answer.
//!
//! A handler sends a request to the orchestrator over a channel and may wait
//! for the reply. It reports the arrival of the HTTP request and then what came
//! of each step, and is told each time what to do next.

use crate::observability::RuntimeSnapshot;
use vstd::prelude::*;

verus! {

/// A request that a handler sends to the orchestrator
#[derive(Debug, Clone, Copy, PartialEq, Eq, Structural)]
pub enum OrchestratorRequest {
    /// Asks for a snapshot
    Snapshot,
    /// Asks for an immediate poll
    Refresh,
}

/// What happened to the handler
pub enum ChannelEvent<T> {
    /// The HTTP request arrived
    Arrived,
    /// The request was handed over
    Sent,
    /// The orchestrator no longer takes requests
    SendFailed,
    /// The orchestrator replied
    Replied(T),
    /// The orchestrator dropped the request without a reply
    ReplyDropped,
}

/// What the handler does next
pub enum Action<R> {
    /// Send a request to the orchestrator
    Send(OrchestratorRequest),
    /// Wait for the orchestrator's reply
    AwaitReply,
    /// Answer the HTTP request
    Respond(R),
}

/// Status of an HTTP response
#[derive(Debug, Clone, Copy, PartialEq, Eq, Structural)]
pub enum HttpStatus {
    Success,
    ServiceUnavailable,
}

impl HttpStatus {
    /// The status code.
    pub open spec fn spec_code(self) -> u16 {
        match self {
            HttpStatus::Success => 200,
            HttpStatus::ServiceUnavailable => 503,
        }
    }

    /// The status code.
    pub fn code(self) -> (code: u16)
        ensures
            code == self.spec_code(),
            self is Success ==> code == 200,
            self is ServiceUnavailable ==> code == 503,
    {
        match self {
            HttpStatus::Success => 200,
            HttpStatus::ServiceUnavailable => 503,
        }
    }
}

/// Whether `action` is what `GET /api/status` does after `event`: ask the
/// orchestrator for a snapshot, wait once the request is sent, and answer with
/// the orchestrator's snapshot, or with a blank one where none can be had.
pub open spec fn is_status_action(
    event: ChannelEvent<RuntimeSnapshot>,
    action: Action<(HttpStatus, RuntimeSnapshot)>,
) -> bool {
    match event {
        ChannelEvent::Arrived => action == Action::<(HttpStatus, RuntimeSnapshot)>::Send(
            OrchestratorRequest::Snapshot,
        ),
        ChannelEvent::Sent => action is AwaitReply,
        ChannelEvent::Replied(snapshot) => action == Action::Respond((HttpStatus::Success, snapshot)),
        ChannelEvent::SendFailed | ChannelEvent::ReplyDropped => action matches Action::Respond(
            (status, snapshot),
        ) && status == HttpStatus::Success && snapshot.is_blank(),
    }
}

/// What `POST /api/refresh` does after `event`: ask the orchestrator for a
/// poll, wait once the request is sent, refuse where it cannot be sent, and
/// confirm when the wait is over, whether or not a reply came.
pub open spec fn refresh_action(event: ChannelEvent<()>) -> Action<HttpStatus> {
    match event {
        ChannelEvent::Arrived => Action::Send(OrchestratorRequest::Refresh),
        ChannelEvent::Sent => Action::AwaitReply,
        ChannelEvent::SendFailed => Action::Respond(HttpStatus::ServiceUnavailable),
        ChannelEvent::Replied(_) | ChannelEvent::ReplyDropped => Action::Respond(HttpStatus::Success),
    }
}

/// Whether `event` can come of doing `action`.
pub open spec fn can_follow<T, R>(action: Action<R>, event: ChannelEvent<T>) -> bool {
    match action {
        Action::Send(_) => event is Sent || event is SendFailed,
        Action::AwaitReply => event is Replied || event is ReplyDropped,
        Action::Respond(_) => false,
    }
}

/// Whether `events` and `actions` can be what happens to a handler and what it
/// does, from the arrival of the HTTP request to the answer.
pub open spec fn is_exchange<T, R>(events: Seq<ChannelEvent<T>>, actions: Seq<Action<R>>) -> bool {
    &&& events.len() == actions.len()
    &&& events.len() > 0
    &&& events[0] is Arrived
    &&& forall|i: int|
        0 < i < events.len() ==> can_follow(actions[i - 1], #[trigger] events[i])
    &&& actions.last() is Respond
}

/// Whether `events` and `actions` can be an exchange of `GET /api/status`.
pub open spec fn is_status_exchange(
    events: Seq<ChannelEvent<RuntimeSnapshot>>,
    actions: Seq<Action<(HttpStatus, RuntimeSnapshot)>>,
) -> bool {
    &&& is_exchange(events, actions)
    &&& forall|i: int|
        0 <= i < events.len() ==> is_status_action(#[trigger] events[i], actions[i])
}

/// Whether `events` and `actions` can be an exchange of `POST /api/refresh`.
pub open spec fn is_refresh_exchange(
    events: Seq<ChannelEvent<()>>,
    actions: Seq<Action<HttpStatus>>,
) -> bool {
    &&& is_exchange(events, actions)
    &&& forall|i: int|
        0 <= i < events.len() ==> actions[i] == refresh_action(#[trigger] events[i])
}

/// Next step of `GET /api/status`
pub fn get_status(event: ChannelEvent<RuntimeSnapshot>) -> (action: Action<
    (HttpStatus, RuntimeSnapshot),
>)
    ensures
        is_status_action(event, action),
        action is Send <==> event is Arrived,
        action is AwaitReply <==> event is Sent,
        event matches ChannelEvent::Replied(reply) ==> action == Action::Respond(
            (HttpStatus::Success, reply),
        ),
{
    match event {
        ChannelEvent::Arrived => Action::Send(OrchestratorRequest::Snapshot),
        ChannelEvent::Sent => Action::AwaitReply,
        ChannelEvent::Replied(snapshot) => Action::Respond((HttpStatus::Success, snapshot)),
        // Orchestrator unreachable: answer with a blank snapshot
        ChannelEvent::SendFailed | ChannelEvent::ReplyDropped => Action::Respond(
            (HttpStatus::Success, RuntimeSnapshot::default()),
        ),
    }
}

/// Next step of `POST /api/refresh`
pub fn post_refresh(event: ChannelEvent<()>) -> (action: Action<HttpStatus>)
    ensures
        action == refresh_action(event),
        action is Send <==> event is Arrived,
        action is AwaitReply <==> event is Sent,
        action == Action::Respond(HttpStatus::ServiceUnavailable) <==> event is SendFailed,
{
    match event {
        ChannelEvent::Arrived => Action::Send(OrchestratorRequest::Refresh),
        ChannelEvent::Sent => Action::AwaitReply,
        ChannelEvent::SendFailed => Action::Respond(HttpStatus::ServiceUnavailable),
        ChannelEvent::Replied(_) | ChannelEvent::ReplyDropped => Action::Respond(HttpStatus::Success),
    }
}

/// Each step of a status request: a snapshot is asked for on arrival, the reply
/// awaited once the request is sent and passed on as it came. Where there is
/// none, every count and list of the answer is empty. Every answer succeeds.
pub proof fn law_status_steps(
    event: ChannelEvent<RuntimeSnapshot>,
    action: Action<(HttpStatus, RuntimeSnapshot)>,
)
    requires
        is_status_action(event, action),
    ensures
        event is Arrived <==> action is Send,
        action matches Action::Send(request) ==> request is Snapshot,
        event is Sent <==> action is AwaitReply,
        action matches Action::Respond((status, snapshot)) ==> status is Success,
        event matches ChannelEvent::Replied(reply) ==> action == Action::Respond(
            (HttpStatus::Success, reply),
        ),
        event is SendFailed || event is ReplyDropped ==> {
            &&& action matches Action::Respond((status, snapshot))
            &&& snapshot.running@.len() == 0
            &&& snapshot.retrying@.len() == 0
            &&& snapshot.running_count == 0
            &&& snapshot.retrying_count == 0
            &&& snapshot.completed_count == 0
            &&& snapshot.agent_totals.input_tokens == 0
            &&& snapshot.agent_totals.output_tokens == 0
            &&& snapshot.agent_totals.total_tokens == 0
            &&& snapshot.agent_totals.seconds_running == 0
            &&& snapshot.rate_limits is None
            &&& snapshot.tracker_failures == 0
            &&& !snapshot.tracker_backoff
            &&& snapshot.generated_at@.secs == 0
            &&& snapshot.generated_at@.nanos == 0
        },
{
}

/// Each step of a refresh request: a poll is asked for on arrival and the reply
/// awaited once the request is sent. The answer is a refusal where the request
/// could not be sent, and success once the wait is over.
pub proof fn law_refresh_steps(event: ChannelEvent<()>)
    ensures
        event is Arrived <==> refresh_action(event) is Send,
        refresh_action(event) matches Action::Send(request) ==> request is Refresh,
        event is Sent <==> refresh_action(event) is AwaitReply,
        event is SendFailed <==> refresh_action(event) == Action::Respond(
            HttpStatus::ServiceUnavailable,
        ),
        event is Replied || event is ReplyDropped <==> refresh_action(event) == Action::Respond(
            HttpStatus::Success,
        ),
{
}

/// Success and refusal are told apart by the codes 200 and 503.
pub proof fn law_status_codes(status: HttpStatus)
    ensures
        status.spec_code() == 200 <==> status is Success,
        status.spec_code() == 503 <==> status is ServiceUnavailable,
{
}

/// A send works or fails, a wait ends with a reply or without one, and after an
/// answer nothing follows.
pub proof fn law_what_can_follow<T, R>(action: Action<R>, event: ChannelEvent<T>)
    ensures
        action is Send ==> (can_follow(action, event) <==> event is Sent || event is SendFailed),
        action is AwaitReply ==> (can_follow(action, event) <==> event is Replied
            || event is ReplyDropped),
        action is Respond ==> !can_follow(action, event),
{
}

/// Whatever the orchestrator replies, a status request can run its course: the
/// request is sent, the reply awaited and passed on.
pub proof fn law_status_exchange_runs_its_course(reply: RuntimeSnapshot)
    ensures
        is_status_exchange(
            seq![ChannelEvent::Arrived, ChannelEvent::Sent, ChannelEvent::Replied(reply)],
            seq![
                Action::Send(OrchestratorRequest::Snapshot),
                Action::AwaitReply,
                Action::Respond((HttpStatus::Success, reply)),
            ],
        ),
{
}

/// A status request sends the orchestrator one request, for a snapshot, and
/// nothing else. It is answered once, with success: with the orchestrator's
/// snapshot as it came where one comes, and with a blank one otherwise.
pub proof fn law_status_exchange(
    events: Seq<ChannelEvent<RuntimeSnapshot>>,
    actions: Seq<Action<(HttpStatus, RuntimeSnapshot)>>,
)
    requires
        is_status_exchange(events, actions),
    ensures
        actions[0] == Action::<(HttpStatus, RuntimeSnapshot)>::Send(OrchestratorRequest::Snapshot),
        forall|i: int| 0 < i < actions.len() ==> !(#[trigger] actions[i] is Send),
        forall|i: int| 0 <= i < actions.len() - 1 ==> !(#[trigger] actions[i] is Respond),
        forall|i: int| 0 <= i < events.len() - 1 ==> !(#[trigger] events[i] is Replied),
        actions.last() matches Action::Respond((status, snapshot)) && status.spec_code() == 200 && (
        match events.last() {
            ChannelEvent::Replied(reply) => snapshot == reply,
            _ => snapshot.is_blank(),
        }),
{
    assert(is_status_action(events[0], actions[0]));
    assert(events[1] is Sent || events[1] is SendFailed);
    assert(is_status_action(events[1], actions[1]));
    if events[1] is Sent {
        assert(events[2] is Replied || events[2] is ReplyDropped);
        assert(is_status_action(events[2], actions[2]));
        assert(events.len() == 3) by {
            if events.len() > 3 {
                assert(can_follow(actions[2], events[3]));
            }
        }
    } else {
        assert(events.len() == 2) by {
            if events.len() > 2 {
                assert(can_follow(actions[1], events[2]));
            }
        }
    }
    assert forall|i: int| 0 < i < actions.len() implies !(#[trigger] actions[i] is Send) by {
        assert(i == 1 || i == 2);
    }
    assert forall|i: int| 0 <= i < actions.len() - 1 implies !(#[trigger] actions[i] is Respond) by {
        assert(i == 0 || i == 1);
    }
    assert forall|i: int| 0 <= i < events.len() - 1 implies !(#[trigger] events[i] is Replied) by {
        assert(i == 0 || i == 1);
    }
}

/// A refresh request sends the orchestrator one request, for a poll, and
/// nothing else. It is answered once: refused exactly where that request cannot
/// be sent, and confirmed otherwise, also where no reply comes.
pub proof fn law_refresh_exchange(events: Seq<ChannelEvent<()>>, actions: Seq<Action<HttpStatus>>)
    requires
        is_refresh_exchange(events, actions),
    ensures
        actions[0] == Action::<HttpStatus>::Send(OrchestratorRequest::Refresh),
        forall|i: int| 0 < i < actions.len() ==> !(#[trigger] actions[i] is Send),
        forall|i: int| 0 <= i < actions.len() - 1 ==> !(#[trigger] actions[i] is Respond),
        events.len() > 1,
        actions.last() matches Action::Respond(status) && (status.spec_code() == 503
            <==> events[1] is SendFailed) && (status.spec_code() == 200 <==> events[1] is Sent),
{
    assert(actions[0] == refresh_action(events[0]));
    assert(events[1] is Sent || events[1] is SendFailed);
    assert(actions[1] == refresh_action(events[1]));
    if events[1] is Sent {
        assert(events[2] is Replied || events[2] is ReplyDropped);
        assert(actions[2] == refresh_action(events[2]));
        assert(events.len() == 3) by {
            if events.len() > 3 {
                assert(can_follow(actions[2], events[3]));
            }
        }
    } else {
        assert(events.len() == 2) by {
            if events.len() > 2 {
                assert(can_follow(actions[1], events[2]));
            }
        }
    }
    assert forall|i: int| 0 < i < actions.len() implies !(#[trigger] actions[i] is Send) by {
        assert(i == 1 || i == 2);
    }
    assert forall|i: int| 0 <= i < actions.len() - 1 implies !(#[trigger] actions[i] is Respond) by {
        assert(i == 0 || i == 1);
    }
}

} // verus!
