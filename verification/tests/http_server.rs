use symphony::config::AppConfig;
use symphony::http_server::{
    get_status, post_refresh, Action, ChannelEvent, HttpStatus, OrchestratorRequest,
};
use symphony::observability::RuntimeSnapshot;
use symphony::orchestrator::state::OrchestratorState;

fn status_response(event: ChannelEvent<RuntimeSnapshot>) -> (HttpStatus, RuntimeSnapshot) {
    match get_status(event) {
        Action::Respond(response) => response,
        _ => panic!("no response yet"),
    }
}

#[test]
fn status_waits_for_the_reply() {
    assert!(matches!(get_status(ChannelEvent::Sent), Action::AwaitReply));
}

#[test]
fn status_answers_with_the_reply() {
    let mut state = OrchestratorState::new(&AppConfig::default());
    state.completed_count = 7;
    let (status, snapshot) = status_response(ChannelEvent::Replied(state.to_snapshot()));
    assert_eq!(status.code(), 200);
    assert_eq!(snapshot.completed_count, 7);
}

#[test]
fn status_is_blank_when_the_orchestrator_is_unreachable() {
    for event in [ChannelEvent::SendFailed, ChannelEvent::ReplyDropped] {
        let (status, snapshot) = status_response(event);
        assert_eq!(status.code(), 200);
        assert_eq!(snapshot.generated_at.unix_secs(), 0);
        assert_eq!(snapshot.running_count, 0);
        assert_eq!(snapshot.retrying_count, 0);
        assert_eq!(snapshot.completed_count, 0);
        assert!(snapshot.running.is_empty());
        assert!(snapshot.retrying.is_empty());
        assert_eq!(snapshot.agent_totals.seconds_running, 0);
        assert!(snapshot.rate_limits.is_none());
        assert_eq!(snapshot.tracker_failures, 0);
        assert!(!snapshot.tracker_backoff);
    }
}

#[test]
fn refresh_waits_then_confirms() {
    assert!(matches!(post_refresh(ChannelEvent::Sent), Action::AwaitReply));
    assert!(matches!(
        post_refresh(ChannelEvent::Replied(())),
        Action::Respond(HttpStatus::Success)
    ));
    assert!(matches!(
        post_refresh(ChannelEvent::ReplyDropped),
        Action::Respond(HttpStatus::Success)
    ));
}

#[test]
fn refresh_is_refused_when_the_orchestrator_is_unreachable() {
    match post_refresh(ChannelEvent::SendFailed) {
        Action::Respond(status) => assert_eq!(status.code(), 503),
        _ => panic!("nothing to wait for"),
    }
}

#[test]
fn each_endpoint_first_sends_its_own_request() {
    assert!(matches!(
        get_status(ChannelEvent::Arrived),
        Action::Send(OrchestratorRequest::Snapshot)
    ));
    assert!(matches!(
        post_refresh(ChannelEvent::Arrived),
        Action::Send(OrchestratorRequest::Refresh)
    ));
}

#[test]
fn an_exchange_sends_once_and_answers_once() {
    for (send_works, reply_comes, code) in
        [(true, true, 200), (true, false, 200), (false, true, 503), (false, false, 503)]
    {
        let mut sends = 0;
        let mut event = ChannelEvent::Arrived;
        let status = loop {
            event = match post_refresh(event) {
                Action::Send(request) => {
                    assert_eq!(request, OrchestratorRequest::Refresh);
                    sends += 1;
                    if send_works { ChannelEvent::Sent } else { ChannelEvent::SendFailed }
                }
                Action::AwaitReply if reply_comes => ChannelEvent::Replied(()),
                Action::AwaitReply => ChannelEvent::ReplyDropped,
                Action::Respond(status) => {
                    break status;
                }
            };
        };
        assert_eq!(sends, 1);
        assert_eq!(status.code(), code);
    }
}
