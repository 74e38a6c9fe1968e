//! Scenario tests for the call engine: the bounded retry loop, the session
//! token's lifecycle, and the request headers.

use transmission_rpc::client::{
    run_call, CallOutcome, SessionManager, TransClient, WireReply,
};
use transmission_rpc::json::JsonValue;
use transmission_rpc::sync::SharableTransClient;
use transmission_rpc::types::BasicAuth;
use transmission_rpc::{TransError, MAX_RETRIES};

fn delivered() -> WireReply {
    WireReply::Delivered(JsonValue::Obj(vec![]))
}

fn conflict(token: &str) -> WireReply {
    WireReply::Conflict(Some(token.to_string()))
}

#[test]
fn call_succeeds_after_four_conflicts_with_last_token() {
    let mut session = SessionManager::new();
    let replies = vec![
        conflict("t1"),
        conflict("t2"),
        conflict("t3"),
        conflict("t4"),
        delivered(),
    ];
    let (sent, outcome) = run_call(&mut session, replies);
    assert!(matches!(outcome, CallOutcome::Delivered(_)));
    assert_eq!(sent.len(), 5);
    assert_eq!(sent[0], None);
    assert_eq!(sent[1], Some("t1".to_string()));
    assert_eq!(sent[4], Some("t4".to_string()));
    assert_eq!(session.current_token(), Some("t4".to_string()));
}

#[test]
fn call_fails_after_five_conflicts_and_sends_no_sixth_request() {
    let mut session = SessionManager::new();
    let replies = vec![
        conflict("t1"),
        conflict("t2"),
        conflict("t3"),
        conflict("t4"),
        conflict("t5"),
        delivered(),
    ];
    let (sent, outcome) = run_call(&mut session, replies);
    assert!(matches!(
        outcome,
        CallOutcome::Failed(TransError::MaxRetriesReached)
    ));
    assert_eq!(sent.len(), MAX_RETRIES);
    // The token of the fifth conflict was still observed.
    assert_eq!(session.current_token(), Some("t5".to_string()));
}

#[test]
fn conflict_without_header_fails_at_once_with_budget_left() {
    let mut session = SessionManager::new();
    let replies = vec![conflict("t1"), WireReply::Conflict(None), delivered()];
    let (sent, outcome) = run_call(&mut session, replies);
    assert!(matches!(
        outcome,
        CallOutcome::Failed(TransError::NoSessionIdReceived)
    ));
    assert_eq!(sent.len(), 2);
    assert_eq!(session.current_token(), Some("t1".to_string()));
}

#[test]
fn token_carries_across_calls_on_the_same_client() {
    let mut client = TransClient::new("http://localhost:9091/transmission/rpc".to_string());
    let (sent1, outcome1) = client.call_transcript(vec![conflict("session-a"), delivered()]);
    assert!(matches!(outcome1, CallOutcome::Delivered(_)));
    assert_eq!(sent1, vec![None, Some("session-a".to_string())]);

    // The next call's first request already carries the observed token.
    let (sent2, outcome2) = client.call_transcript(vec![delivered()]);
    assert!(matches!(outcome2, CallOutcome::Delivered(_)));
    assert_eq!(sent2, vec![Some("session-a".to_string())]);

    // A newer token supersedes the old one.
    let (sent3, _) = client.call_transcript(vec![conflict("session-b"), delivered()]);
    assert_eq!(
        sent3,
        vec![Some("session-a".to_string()), Some("session-b".to_string())]
    );
    assert_eq!(client.current_token(), Some("session-b".to_string()));
}

#[test]
fn delivered_body_is_handed_back_unchanged() {
    let mut session = SessionManager::new();
    let body = JsonValue::Obj(vec![(
        "result".to_string(),
        JsonValue::Str("success".to_string()),
    )]);
    let (_, outcome) = run_call(&mut session, vec![WireReply::Delivered(body)]);
    match outcome {
        CallOutcome::Delivered(v) => {
            assert_eq!(
                v,
                JsonValue::Obj(vec![(
                    "result".to_string(),
                    JsonValue::Str("success".to_string()),
                )])
            );
        }
        _ => panic!("expected a delivered body"),
    }
}

#[test]
fn headers_without_auth_or_token() {
    let client = TransClient::new("http://localhost:9091".to_string());
    let headers = client.request_headers();
    assert_eq!(
        headers,
        vec![("Content-Type".to_string(), "application/json".to_string())]
    );
}

#[test]
fn headers_carry_basic_auth_and_session_token() {
    let mut client = TransClient::with_auth(
        "http://localhost:9091".to_string(),
        BasicAuth {
            user: "user".to_string(),
            password: "password".to_string(),
        },
    );
    client.handle_conflict(Some("tok-1".to_string())).unwrap();
    let headers = client.request_headers();
    assert_eq!(headers.len(), 3);
    assert_eq!(headers[0].0, "Content-Type");
    assert_eq!(headers[0].1, "application/json");
    assert_eq!(headers[1].0, "Authorization");
    // base64 of "user:password", as any basic-auth peer expects.
    assert_eq!(headers[1].1, "Basic dXNlcjpwYXNzd29yZA==");
    assert_eq!(headers[2].0, "X-Transmission-Session-Id");
    assert_eq!(headers[2].1, "tok-1");
}

#[test]
fn handle_conflict_without_header_is_fatal_and_keeps_token() {
    let mut client = TransClient::new("http://localhost:9091".to_string());
    client.handle_conflict(Some("tok-1".to_string())).unwrap();
    let r = client.handle_conflict(None);
    assert_eq!(r, Err(TransError::NoSessionIdReceived));
    assert_eq!(client.current_token(), Some("tok-1".to_string()));
}

#[test]
fn session_manager_only_ever_replaces_its_token() {
    let mut session = SessionManager::new();
    assert_eq!(session.current_token(), None);
    session.observe("one".to_string());
    assert_eq!(session.current_token(), Some("one".to_string()));
    session.observe("two".to_string());
    assert_eq!(session.current_token(), Some("two".to_string()));
}

#[test]
fn trans_error_messages() {
    assert_eq!(
        TransError::MaxRetriesReached.message(),
        "Max retries reached!"
    );
    assert_eq!(
        TransError::NoSessionIdReceived.message(),
        "No session id received!"
    );
}

#[test]
fn sharable_client_runs_the_same_retry_loop() {
    let client = SharableTransClient::new("http://localhost:9091".to_string());
    let (sent, outcome) = client.call_transcript(vec![conflict("s1"), delivered()]);
    assert!(matches!(outcome, CallOutcome::Delivered(_)));
    assert_eq!(sent.len(), 2);
    assert_eq!(sent[1], Some("s1".to_string()));
    assert_eq!(client.current_token(), Some("s1".to_string()));

    let (sent2, outcome2) = client.call_transcript(vec![
        conflict("s2"),
        conflict("s3"),
        conflict("s4"),
        conflict("s5"),
        conflict("s6"),
    ]);
    assert!(matches!(
        outcome2,
        CallOutcome::Failed(TransError::MaxRetriesReached)
    ));
    assert_eq!(sent2.len(), MAX_RETRIES);
}

#[test]
fn sharable_client_headers_use_the_locked_token() {
    let client = SharableTransClient::with_auth(
        "http://localhost:9091".to_string(),
        BasicAuth {
            user: "user".to_string(),
            password: "password".to_string(),
        },
    );
    client.observe("tok-9".to_string());
    let headers = client.request_headers();
    assert_eq!(headers.len(), 3);
    assert_eq!(headers[1].1, "Basic dXNlcjpwYXNzd29yZA==");
    assert_eq!(
        headers[2],
        ("X-Transmission-Session-Id".to_string(), "tok-9".to_string())
    );
}

#[test]
fn transcript_that_runs_out_leaves_the_call_waiting() {
    let mut session = SessionManager::new();
    let (sent, outcome) = run_call(&mut session, vec![conflict("t1")]);
    assert!(matches!(outcome, CallOutcome::AwaitingReply));
    assert_eq!(sent.len(), 1);
}
