use openai_api::http::FetchOutcome;
use openai_api::poll::decode_run_fetch;
use openai_api::poll::poll_run_trace;
use openai_api::poll::status_is_waiting;
use openai_api::poll::PollDecision;
use openai_api::poll::PollError;
use openai_api::poll::PollPolicy;
use openai_api::poll::RunFetch;
use openai_api::poll::RunPoller;

fn status_body(status: &str) -> FetchOutcome {
    let mut body = String::from("{\"status\":\"");
    body.push_str(status);
    body.push_str("\"}");
    FetchOutcome::Body(body)
}

fn decoded_trace(outcomes: Vec<FetchOutcome>) -> Vec<RunFetch> {
    let mut events = Vec::new();
    for outcome in &outcomes {
        events.push(decode_run_fetch(outcome));
    }
    events
}

#[test]
fn waiting_statuses_are_exactly_the_two_sentinels() {
    assert!(status_is_waiting("queued"));
    assert!(status_is_waiting("in_progress"));
    assert!(!status_is_waiting("completed"));
    assert!(!status_is_waiting("failed"));
    assert!(!status_is_waiting("cancelled"));
    assert!(!status_is_waiting("expired"));
    assert!(!status_is_waiting(""));
    assert!(!status_is_waiting("Queued"));
    assert!(!status_is_waiting("queued "));
}

#[test]
fn poll_returns_terminal_status_after_three_fetches() {
    let events = decoded_trace(vec![
        status_body("queued"),
        status_body("in_progress"),
        status_body("completed"),
    ]);
    let (outcome, fetches) = poll_run_trace(&events).expect("trace settles");
    assert_eq!(outcome.expect("status"), "completed");
    assert_eq!(fetches, 3);
}

#[test]
fn poll_returns_immediately_on_first_terminal_status() {
    let events = decoded_trace(vec![status_body("failed"), status_body("completed")]);
    let (outcome, fetches) = poll_run_trace(&events).expect("trace settles");
    assert_eq!(outcome.expect("status"), "failed");
    assert_eq!(fetches, 1);
}

#[test]
fn poll_accepts_unknown_status_as_terminal() {
    let events = decoded_trace(vec![status_body("queued"), status_body("requires_action")]);
    let (outcome, fetches) = poll_run_trace(&events).expect("trace settles");
    assert_eq!(outcome.expect("status"), "requires_action");
    assert_eq!(fetches, 2);
}

#[test]
fn poll_stops_on_transport_failure_without_further_fetches() {
    let events = decoded_trace(vec![
        status_body("queued"),
        FetchOutcome::TransportFailure,
        status_body("completed"),
    ]);
    let (outcome, fetches) = poll_run_trace(&events).expect("trace settles");
    assert_eq!(outcome.expect_err("failure"), PollError::Transport);
    assert_eq!(fetches, 2);
}

#[test]
fn poll_stops_on_decode_failure() {
    let events = decoded_trace(vec![
        status_body("in_progress"),
        FetchOutcome::Body(String::from("not json")),
    ]);
    let (outcome, fetches) = poll_run_trace(&events).expect("trace settles");
    assert_eq!(outcome.expect_err("failure"), PollError::Decode);
    assert_eq!(fetches, 2);
}

#[test]
fn body_without_string_status_is_a_decode_failure() {
    let events = decoded_trace(vec![FetchOutcome::Body(String::from("{\"status\": 7}"))]);
    let (outcome, fetches) = poll_run_trace(&events).expect("trace settles");
    assert_eq!(outcome.expect_err("failure"), PollError::Decode);
    assert_eq!(fetches, 1);
}

#[test]
fn poll_of_all_waiting_trace_is_exhausted() {
    let events = decoded_trace(vec![status_body("queued"), status_body("queued")]);
    assert!(poll_run_trace(&events).is_none());
}

#[test]
fn poll_of_empty_trace_is_exhausted() {
    let events: Vec<RunFetch> = Vec::new();
    assert!(poll_run_trace(&events).is_none());
}

#[test]
fn poller_continues_on_waiting_and_finishes_on_terminal() {
    let mut poller = RunPoller::new(PollPolicy { max_attempts: 10, delay_ms: 1000 });
    assert!(poller.can_fetch());
    let first = poller.on_fetch(&status_body("queued"));
    assert!(matches!(first, PollDecision::Continue));
    assert!(poller.can_fetch());
    let second = poller.on_fetch(&status_body("completed"));
    match second {
        PollDecision::Finished(status) => assert_eq!(status, "completed"),
        other => panic!("expected a finished poll, got {:?}", other),
    }
}

#[test]
fn poller_fails_on_transport_failure() {
    let mut poller = RunPoller::new(PollPolicy { max_attempts: 10, delay_ms: 1000 });
    let decision = poller.on_fetch(&FetchOutcome::TransportFailure);
    assert!(matches!(decision, PollDecision::Failed(PollError::Transport)));
}

#[test]
fn poller_fails_on_decode_failure() {
    let mut poller = RunPoller::new(PollPolicy { max_attempts: 10, delay_ms: 1000 });
    let decision = poller.on_fetch(&FetchOutcome::Body(String::from("{}")));
    assert!(matches!(decision, PollDecision::Failed(PollError::Decode)));
}

#[test]
fn poller_exhausts_its_attempt_bound_while_waiting() {
    let mut poller = RunPoller::new(PollPolicy { max_attempts: 2, delay_ms: 0 });
    let first = poller.on_fetch(&status_body("queued"));
    assert!(matches!(first, PollDecision::Continue));
    let second = poller.on_fetch(&status_body("in_progress"));
    assert!(matches!(second, PollDecision::Failed(PollError::AttemptsExhausted)));
    assert!(!poller.can_fetch());
}

#[test]
fn poller_finishes_on_the_last_allowed_attempt() {
    let mut poller = RunPoller::new(PollPolicy { max_attempts: 1, delay_ms: 0 });
    let decision = poller.on_fetch(&status_body("cancelled"));
    match decision {
        PollDecision::Finished(status) => assert_eq!(status, "cancelled"),
        other => panic!("expected a finished poll, got {:?}", other),
    }
}
