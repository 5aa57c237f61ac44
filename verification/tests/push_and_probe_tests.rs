use server_assistant::error::AssistantError;
use server_assistant::probe::{probe_request_body, probe_url, probe_verdict};
use server_assistant::push::{health_notification_body, push_decision, PushDecision, PushOutcome};

#[test]
fn probe_targets_the_completions_endpoint() {
    assert_eq!(
        probe_url(&"localhost:8080".to_string()),
        "http://localhost:8080/v1/chat/completions"
    );
}

#[test]
fn probe_payload_carries_the_synthetic_marker() {
    let body = probe_request_body();
    assert_eq!(
        body,
        "{\"messages\":[{\"role\":\"user\",\"content\":\"Who are you? <server-health>\"}],\"model\":\"Phi-3-mini-4k-instruct\",\"stream\":false}"
    );
    assert!(body.contains("<server-health>"));
}

#[test]
fn probe_verdict_is_success_status_only() {
    assert!(probe_verdict(Some(200)));
    assert!(probe_verdict(Some(204)));
    assert!(probe_verdict(Some(299)));
    assert!(!probe_verdict(Some(199)));
    assert!(!probe_verdict(Some(300)));
    assert!(!probe_verdict(Some(500)));
    assert!(!probe_verdict(None));
}

#[test]
fn delivery_stops_on_success() {
    assert_eq!(push_decision(1, PushOutcome::Success), PushDecision::Done);
    assert_eq!(push_decision(3, PushOutcome::Success), PushDecision::Done);
}

#[test]
fn delivery_retries_until_the_bound() {
    assert_eq!(push_decision(1, PushOutcome::TransportFailure), PushDecision::Retry);
    assert_eq!(push_decision(2, PushOutcome::TransportFailure), PushDecision::Retry);
    assert_eq!(push_decision(1, PushOutcome::HttpFailure), PushDecision::Retry);
    assert_eq!(push_decision(2, PushOutcome::HttpFailure), PushDecision::Retry);
}

#[test]
fn delivery_gives_up_after_three_attempts() {
    assert_eq!(
        push_decision(3, PushOutcome::TransportFailure),
        PushDecision::GiveUpTransport
    );
    assert_eq!(push_decision(3, PushOutcome::HttpFailure), PushDecision::GiveUpStatus);
    assert_eq!(
        push_decision(4, PushOutcome::TransportFailure),
        PushDecision::GiveUpTransport
    );
}

#[test]
fn health_notification_is_the_exact_json_document() {
    assert_eq!(health_notification_body(true), "{\"health\":true}");
    assert_eq!(health_notification_body(false), "{\"health\":false}");
}

#[test]
fn error_messages_name_their_cause() {
    assert_eq!(
        AssistantError::SocketAddr("bad".to_string()).message(),
        "Failed to parse socket address: bad"
    );
    assert_eq!(AssistantError::ArgumentError("no dir".to_string()).message(), "no dir");
    assert_eq!(
        AssistantError::ServerDownError("timeout".to_string()).message(),
        "Failed to send request for checking API server health: timeout"
    );
    assert_eq!(AssistantError::Operation("oops".to_string()).message(), "oops");
}

#[test]
fn only_server_down_counts_as_down_evidence() {
    assert!(AssistantError::ServerDownError("x".to_string()).is_server_down());
    assert!(!AssistantError::Operation("x".to_string()).is_server_down());
    assert!(!AssistantError::SocketAddr("x".to_string()).is_server_down());
    assert!(!AssistantError::ArgumentError("x".to_string()).is_server_down());
}
