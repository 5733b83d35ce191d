use gen_axum::middleware::client::metrics::{
    client_request_labels, extend_labels_for_response, ClientOutcome, Metrics,
};
use gen_axum::middleware::logging::{
    client_authorization_field, client_error_status_field, client_host_field,
    client_response_logged, header_field, request_authorization_field, request_id_field,
    response_log_level, AuthorizationHeader, DebugOnlyLogger, LogLevel, Logger,
};
use gen_axum::middleware::reqwest_retry::{
    next_retry_count, records_retry_metrics, retry_count_after_decision, should_consult_policy, Retryable,
    RetryTransientMiddleware, MAXIMUM_NUMBER_OF_RETRIES,
};

fn labels(l: &[(&str, String)]) -> Vec<(String, String)> {
    l.iter().map(|(k, v)| (k.to_string(), v.clone())).collect()
}

fn pairs(l: &[(&str, &str)]) -> Vec<(String, String)> {
    l.iter().map(|(k, v)| (k.to_string(), v.to_string())).collect()
}

#[test]
fn client_labels_for_success() {
    let metrics = Metrics { name: "AClient".to_string() };
    let base = client_request_labels(metrics.name.clone(), "GET".to_string(), "/query".to_string());
    let extended = extend_labels_for_response(base, &ClientOutcome::Response { status: 200 });
    assert_eq!(
        labels(&extended),
        pairs(&[
            ("client", "AClient"),
            ("method", "GET"),
            ("request_path", "/query"),
            ("result", "ok"),
            ("status", "200"),
        ])
    );
}

#[test]
fn client_labels_for_failures() {
    let extended = extend_labels_for_response(vec![], &ClientOutcome::Response { status: 503 });
    assert_eq!(labels(&extended), pairs(&[("result", "error"), ("status", "503")]));
    let extended = extend_labels_for_response(vec![], &ClientOutcome::RequestError { status: Some(404) });
    assert_eq!(labels(&extended), pairs(&[("result", "error"), ("status", "404")]));
    let extended = extend_labels_for_response(vec![], &ClientOutcome::RequestError { status: None });
    assert_eq!(labels(&extended), pairs(&[("result", "error"), ("status", "none")]));
    let extended = extend_labels_for_response(vec![], &ClientOutcome::MiddlewareError);
    assert_eq!(labels(&extended), pairs(&[("result", "middleware_error"), ("status", "none")]));
}

#[test]
fn retry_middleware_holds_policy_and_name() {
    let middleware = RetryTransientMiddleware::new_with_policy(3u32, "YoMTVDocs".to_string());
    assert_eq!(middleware.client_name(), "YoMTVDocs");
    assert_eq!(*middleware.retry_policy(), 3);
}

#[test]
fn retry_decisions() {
    assert!(should_consult_policy(0, Some(Retryable::Transient)));
    assert!(should_consult_policy(9, Some(Retryable::Transient)));
    assert!(!should_consult_policy(10, Some(Retryable::Transient)));
    assert!(!should_consult_policy(0, Some(Retryable::Fatal)));
    assert!(!should_consult_policy(0, None));
    assert_eq!(retry_count_after_decision(0, true), Some(1));
    assert_eq!(retry_count_after_decision(4, false), None);
    assert_eq!(next_retry_count(0, Some(Retryable::Transient), true), Some(1));
    assert_eq!(next_retry_count(9, Some(Retryable::Transient), true), Some(10));
    assert_eq!(next_retry_count(10, Some(Retryable::Transient), true), None);
    assert_eq!(next_retry_count(3, Some(Retryable::Fatal), true), None);
    assert_eq!(next_retry_count(3, Some(Retryable::Transient), false), None);
    assert_eq!(next_retry_count(3, None, true), None);
    assert!(!records_retry_metrics(0));
    assert!(records_retry_metrics(1));
}

#[test]
fn retries_are_bounded() {
    let mut n = 0u32;
    let mut attempts = 1;
    loop {
        match next_retry_count(n, Some(Retryable::Transient), true) {
            Some(next) => {
                n = next;
                attempts += 1;
            }
            None => break,
        }
    }
    assert_eq!(n, MAXIMUM_NUMBER_OF_RETRIES);
    assert_eq!(attempts, MAXIMUM_NUMBER_OF_RETRIES + 1);
}

#[test]
fn log_levels() {
    assert_eq!(response_log_level(200), LogLevel::Debug);
    assert_eq!(response_log_level(299), LogLevel::Debug);
    assert_eq!(response_log_level(404), LogLevel::Info);
    assert_eq!(response_log_level(302), LogLevel::Info);
    assert_eq!(response_log_level(500), LogLevel::Warn);
    assert_eq!(response_log_level(599), LogLevel::Warn);
    let _ = (DebugOnlyLogger, Logger);
}

#[test]
fn authorization_is_redacted_outside_local() {
    let sensitive = || Some(AuthorizationHeader { value: b"Bearer x".to_vec(), sensitive: true });
    let plain = || Some(AuthorizationHeader { value: b"Bearer x".to_vec(), sensitive: false });
    assert_eq!(request_authorization_field(false, sensitive()), "<redacted>");
    assert_eq!(request_authorization_field(true, sensitive()), "Bearer x");
    assert_eq!(request_authorization_field(false, plain()), "Bearer x");
    assert_eq!(request_authorization_field(false, None), "null");
    assert_eq!(
        request_authorization_field(true, Some(AuthorizationHeader { value: b"\xff".to_vec(), sensitive: false })),
        "null"
    );
    assert_eq!(client_authorization_field(false, Some(b"Bearer x".to_vec())), "<redacted>");
    assert_eq!(client_authorization_field(true, Some(b"Bearer x".to_vec())), "Bearer x");
    assert_eq!(client_authorization_field(false, None), "null");
}

#[test]
fn header_fields() {
    assert_eq!(header_field(Some(b"curl/7.85.0".to_vec())), "curl/7.85.0");
    assert_eq!(header_field(None), "null");
    assert_eq!(request_id_field(None), None);
    assert_eq!(request_id_field(Some(b"abc".to_vec())), Some("abc".to_string()));
    assert_eq!(client_host_field(Some("example.com".to_string()), Some(b"other".to_vec())), "example.com");
    assert_eq!(client_host_field(None, Some(b"other".to_vec())), "other");
    assert_eq!(client_host_field(None, None), "null");
}

#[test]
fn client_response_logging() {
    assert!(!client_response_logged(200));
    assert!(client_response_logged(400));
    assert!(client_response_logged(599));
    assert!(!client_response_logged(600));
    assert_eq!(client_error_status_field(Some(502)), "502");
    assert_eq!(client_error_status_field(None), "none");
}
