use agent::errors::AgentError;
use agent::networks::{backend_result, classify_status, response_outcome, BackendClient, SendStep, StatusClass};

fn backend_message(r: Result<(), AgentError>) -> String {
    match r {
        Err(AgentError::BackendError(m)) => m,
        Ok(()) => panic!("expected an error"),
        Err(_) => panic!("expected BackendError"),
    }
}

#[test]
fn new_client_settings() {
    let c = BackendClient::new("http://localhost:8000".to_string());
    assert_eq!(c.base_url(), "http://localhost:8000");
    assert_eq!(c.retry_count(), 3);
}

#[test]
fn with_retry_changes_only_the_count() {
    let c = BackendClient::new("http://b".to_string()).with_retry(5);
    assert_eq!(c.retry_count(), 5);
    assert_eq!(c.base_url(), "http://b");
}

#[test]
fn urls() {
    let c = BackendClient::new("http://b:1".to_string());
    assert_eq!(c.events_url(), "http://b:1/api/events");
    assert_eq!(c.health_url(), "http://b:1/health");
}

#[test]
fn clone_keeps_settings() {
    let c = BackendClient::new("http://b".to_string()).with_retry(7);
    let d = c.clone();
    assert_eq!(d.base_url(), "http://b");
    assert_eq!(d.retry_count(), 7);
}

#[test]
fn no_attempts_allowed_fails_at_once() {
    let c = BackendClient::new("http://b".to_string()).with_retry(0);
    match c.first_send_step() {
        SendStep::Done(r) => assert_eq!(backend_message(r), "Max retries exceeded"),
        _ => panic!("expected Done"),
    }
}

#[test]
fn first_step_is_attempt_one() {
    let c = BackendClient::new("http://b".to_string());
    assert!(matches!(c.first_send_step(), SendStep::Attempt(1)));
}

#[test]
fn success_ends_delivery() {
    let c = BackendClient::new("http://b".to_string());
    assert!(matches!(c.after_attempt(1, Ok(())), SendStep::Done(Ok(()))));
    assert!(matches!(c.after_attempt(3, Ok(())), SendStep::Done(Ok(()))));
}

#[test]
fn failures_back_off_then_give_up_with_last_error() {
    let c = BackendClient::new("http://b".to_string());
    let fail = |m: &str| Err(AgentError::BackendError(m.to_string()));
    assert!(matches!(
        c.after_attempt(1, fail("a")),
        SendStep::Retry { next_attempt: 2, delay_ms: 100 }
    ));
    assert!(matches!(
        c.after_attempt(2, fail("b")),
        SendStep::Retry { next_attempt: 3, delay_ms: 200 }
    ));
    match c.after_attempt(3, fail("c")) {
        SendStep::Done(r) => assert_eq!(backend_message(r), "c"),
        _ => panic!("expected Done"),
    }
}

#[test]
fn delivery_succeeds_iff_an_attempt_succeeds() {
    for outcomes in [[false, false, false], [false, true, false], [true, false, false], [false, false, true]] {
        let c = BackendClient::new("http://b".to_string());
        let mut step = c.first_send_step();
        let mut attempts = 0;
        let result = loop {
            step = match step {
                SendStep::Attempt(a) => {
                    attempts += 1;
                    let ok = outcomes[(a - 1) as usize];
                    let outcome = if ok { Ok(()) } else { Err(AgentError::BackendError("x".to_string())) };
                    c.after_attempt(a, outcome)
                }
                SendStep::Retry { next_attempt, .. } => SendStep::Attempt(next_attempt),
                SendStep::Done(r) => break r,
            };
        };
        let any = outcomes.iter().any(|&b| b);
        assert_eq!(result.is_ok(), any);
        let expected_attempts = outcomes.iter().position(|&b| b).map(|i| i + 1).unwrap_or(3);
        assert_eq!(attempts, expected_attempts);
    }
}

#[test]
fn status_classes() {
    assert_eq!(classify_status(200), StatusClass::Success);
    assert_eq!(classify_status(204), StatusClass::Success);
    assert_eq!(classify_status(299), StatusClass::Success);
    assert_eq!(classify_status(404), StatusClass::ClientError);
    assert_eq!(classify_status(400), StatusClass::ClientError);
    assert_eq!(classify_status(500), StatusClass::ServerError);
    assert_eq!(classify_status(599), StatusClass::ServerError);
    assert_eq!(classify_status(100), StatusClass::Other);
    assert_eq!(classify_status(302), StatusClass::Other);
    assert_eq!(classify_status(600), StatusClass::Other);
    assert_eq!(classify_status(999), StatusClass::Other);
}

#[test]
fn backend_result_messages() {
    assert!(backend_result(StatusClass::Success, "200 OK", "").is_ok());
    assert_eq!(
        backend_message(backend_result(StatusClass::ClientError, "404 Not Found", "nope")),
        "Client error: 404 Not Found - nope"
    );
    assert_eq!(
        backend_message(backend_result(StatusClass::ServerError, "502 Bad Gateway", "down")),
        "Server error: 502 Bad Gateway - down"
    );
    assert_eq!(
        backend_message(backend_result(StatusClass::Other, "302 Found", "ignored")),
        "Unexpected status: 302 Found"
    );
}

#[test]
fn response_outcomes() {
    assert!(response_outcome(200, "").is_ok());
    assert!(response_outcome(201, "whatever").is_ok());
    assert_eq!(backend_message(response_outcome(404, "nope")), "Client error: 404 Not Found - nope");
    assert_eq!(
        backend_message(response_outcome(503, "busy")),
        "Server error: 503 Service Unavailable - busy"
    );
    assert_eq!(backend_message(response_outcome(302, "")), "Unexpected status: 302 Found");
    assert_eq!(
        backend_message(response_outcome(799, "")),
        "Unexpected status: 799 <unknown status code>"
    );
}
