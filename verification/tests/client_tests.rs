//! Tests of the client's timeout/retry/reconnect protocol and the
//! protocol-version compatibility check.

use deepwell_rpc::client::{AttemptEvent, CallError, Client, TransportError, RETRY_ATTEMPTS};

fn client() -> Client {
    Client::new("127.0.0.1:2747".to_string(), 250)
}

fn timeout_reconnect_ok<T>() -> AttemptEvent<T> {
    AttemptEvent::TimedOut { reconnect: Ok(()) }
}

#[test]
fn success_on_first_attempt() {
    let mut client = client();
    let mut events: Vec<AttemptEvent<u64>> = vec![AttemptEvent::Response(7)];
    for _ in 1..RETRY_ATTEMPTS {
        events.push(AttemptEvent::Response(0));
    }
    let (outcome, attempts) = client.run_retry(events);
    match outcome {
        Ok(v) => assert_eq!(v, 7),
        Err(_) => panic!("expected the first response"),
    }
    assert_eq!(attempts, 1);
}

#[test]
fn success_on_fifth_attempt_after_four_timeouts() {
    let mut client = client();
    let mut events: Vec<AttemptEvent<u64>> = Vec::new();
    for _ in 0..4 {
        events.push(timeout_reconnect_ok());
    }
    events.push(AttemptEvent::Response(7));
    let (outcome, attempts) = client.run_retry(events);
    match outcome {
        Ok(v) => assert_eq!(v, 7),
        Err(_) => panic!("expected the fifth response"),
    }
    assert_eq!(attempts, 5);
}

#[test]
fn five_timeouts_fail_with_timeout_error_after_exactly_five_attempts() {
    let mut client = client();
    let mut events: Vec<AttemptEvent<u64>> = Vec::new();
    for _ in 0..RETRY_ATTEMPTS {
        events.push(timeout_reconnect_ok());
    }
    // A sixth answer would be available, but the budget is five.
    events.push(AttemptEvent::Response(7));
    let (outcome, attempts) = client.run_retry(events);
    assert!(matches!(outcome, Err(CallError::NotRespondingInTime)));
    assert_eq!(attempts, 5);
}

#[test]
fn failed_reconnection_aborts_immediately() {
    let mut client = client();
    let mut events: Vec<AttemptEvent<u64>> = vec![
        timeout_reconnect_ok(),
        AttemptEvent::TimedOut {
            reconnect: Err(TransportError { message: "connection refused".to_string() }),
        },
    ];
    for _ in 0..3 {
        events.push(AttemptEvent::Response(7));
    }
    let (outcome, attempts) = client.run_retry(events);
    match outcome {
        Err(CallError::Reconnect(error)) => assert_eq!(error.message, "connection refused"),
        _ => panic!("expected the reconnection error"),
    }
    // The failure came on the second attempt; no further attempt was made.
    assert_eq!(attempts, 2);
}

#[test]
fn protocol_version_mismatch_warns_but_succeeds() {
    let mut client = client();
    let mut events: Vec<AttemptEvent<String>> = Vec::new();
    for _ in 0..RETRY_ATTEMPTS {
        events.push(AttemptEvent::Response("1".to_string()));
    }
    let (outcome, mismatch_warned) = client.protocol(events);
    match outcome {
        Ok(version) => assert_eq!(version, "1"),
        Err(_) => panic!("the mismatch is advisory; the call must succeed"),
    }
    assert!(mismatch_warned);
}

#[test]
fn protocol_version_match_raises_no_warning() {
    let mut client = client();
    let mut events: Vec<AttemptEvent<String>> = Vec::new();
    for _ in 0..RETRY_ATTEMPTS {
        events.push(AttemptEvent::Response(deepwell_rpc::PROTOCOL_VERSION.to_string()));
    }
    let (outcome, mismatch_warned) = client.protocol(events);
    match outcome {
        Ok(version) => assert_eq!(version, "0"),
        Err(_) => panic!("expected the response"),
    }
    assert!(!mismatch_warned);
}

#[test]
fn typed_calls_issue_their_request_and_outcome() {
    let mut client = client();
    let mut events = vec![AttemptEvent::Response(Ok(3u64))];
    for _ in 1..RETRY_ATTEMPTS {
        events.push(timeout_reconnect_ok());
    }
    let (request, outcome) = client.create_user(
        "a".to_string(),
        "a@example.com".to_string(),
        "pw".to_string(),
        events,
    );
    match request {
        deepwell_rpc::api::Request::CreateUser { name, email, password } => {
            assert_eq!(name, "a");
            assert_eq!(email, "a@example.com");
            assert_eq!(password, "pw");
        }
        _ => panic!("wrong request issued"),
    }
    match outcome {
        Ok(Ok(id)) => assert_eq!(id, 3),
        _ => panic!("expected the response"),
    }
}

#[test]
fn ping_returns_the_token() {
    let mut client = client();
    let mut events: Vec<AttemptEvent<String>> = Vec::new();
    for _ in 0..RETRY_ATTEMPTS {
        events.push(AttemptEvent::Response("pong!".to_string()));
    }
    match client.ping(events) {
        Ok(token) => assert_eq!(token, "pong!"),
        Err(_) => panic!("expected the response"),
    }
}
