use catalysh::errors::CoreError;
use catalysh::executor::{
    retry_decision, run_paged_fetch, run_request, RemoteEvent, RetryDecision,
};

fn page(status: u16, items: &[&str]) -> RemoteEvent {
    RemoteEvent::Reply {
        status,
        items: items.iter().map(|s| s.to_string()).collect(),
    }
}

#[test]
fn success_returns_payload_with_one_request() {
    let script = vec![page(200, &["a", "b"])];
    let out = run_request(&script);
    assert_eq!(out.requests, 1);
    assert_eq!(out.reauths, 0);
    assert_eq!(out.result.unwrap(), vec!["a".to_string(), "b".to_string()]);
}

#[test]
fn retry_on_401_reauthenticates_once_and_returns_second_payload() {
    let script = vec![page(401, &[]), page(200, &["payload"])];
    let out = run_request(&script);
    assert_eq!(out.reauths, 1);
    assert_eq!(out.requests, 2);
    assert_eq!(out.result.unwrap(), vec!["payload".to_string()]);
}

#[test]
fn second_consecutive_401_is_authentication_failure() {
    let script = vec![page(401, &[]), page(401, &[])];
    let out = run_request(&script);
    assert_eq!(out.reauths, 1);
    assert_eq!(out.requests, 2);
    assert_eq!(out.result.unwrap_err(), CoreError::AuthenticationFailed);
}

#[test]
fn non_401_failure_is_surfaced_without_retry() {
    let script = vec![page(500, &[])];
    let out = run_request(&script);
    assert_eq!(out.requests, 1);
    assert_eq!(out.reauths, 0);
    assert_eq!(out.result.unwrap_err(), CoreError::RequestFailed(500));
}

#[test]
fn unreachable_remote_is_transport_error() {
    let script = vec![RemoteEvent::Unreachable];
    let out = run_request(&script);
    assert_eq!(out.result.unwrap_err(), CoreError::TransportError);
}

#[test]
fn pagination_stops_after_empty_page_and_concatenates() {
    let script = vec![
        page(200, &["d1", "d2"]),
        page(200, &["d3"]),
        page(200, &["d4", "d5"]),
        page(200, &[]),
    ];
    let out = run_paged_fetch(&script);
    assert_eq!(out.requests, 4); // three full pages plus the empty one
    assert_eq!(out.reauths, 0);
    assert_eq!(
        out.result.unwrap(),
        vec![
            "d1".to_string(),
            "d2".to_string(),
            "d3".to_string(),
            "d4".to_string(),
            "d5".to_string()
        ]
    );
}

#[test]
fn pagination_of_empty_listing_sends_one_request() {
    let script = vec![page(200, &[])];
    let out = run_paged_fetch(&script);
    assert_eq!(out.requests, 1);
    assert_eq!(out.result.unwrap(), Vec::<String>::new());
}

#[test]
fn pagination_recovers_from_one_401_mid_flight() {
    let script = vec![
        page(200, &["d1"]),
        page(401, &[]),
        page(200, &["d2"]),
        page(200, &[]),
    ];
    let out = run_paged_fetch(&script);
    assert_eq!(out.reauths, 1);
    assert_eq!(out.requests, 4);
    assert_eq!(out.result.unwrap(), vec!["d1".to_string(), "d2".to_string()]);
}

#[test]
fn pagination_surfaces_mid_flight_failure() {
    let script = vec![page(200, &["d1"]), page(502, &[])];
    let out = run_paged_fetch(&script);
    assert_eq!(out.result.unwrap_err(), CoreError::RequestFailed(502));
}

#[test]
fn retry_decision_mapping() {
    assert_eq!(retry_decision(200, false), RetryDecision::Accept);
    assert_eq!(retry_decision(299, true), RetryDecision::Accept);
    assert_eq!(retry_decision(401, false), RetryDecision::ReauthAndRetry);
    assert_eq!(
        retry_decision(401, true),
        RetryDecision::Fail(CoreError::AuthenticationFailed)
    );
    assert_eq!(
        retry_decision(404, false),
        RetryDecision::Fail(CoreError::RequestFailed(404))
    );
    assert_eq!(
        retry_decision(500, true),
        RetryDecision::Fail(CoreError::RequestFailed(500))
    );
}

#[test]
fn exhausted_script_reads_as_transport_failure() {
    let script: Vec<RemoteEvent> = Vec::new();
    let out = run_request(&script);
    assert_eq!(out.result.unwrap_err(), CoreError::TransportError);
}
