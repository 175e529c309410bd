use suppressor::mw_api::{
    api_code_retryable, api_error_class, classify_api_failure, default_client_retry,
    is_fatal_auth_or_permission_error, is_transient, mediawiki_timestamp, parse_retry_after_seconds,
    parse_timestamp, rendered_error_class, retry_delay_seconds, revision_url, safe_error_message,
    ApiError, ApiTransportError, ClientError, ClientErrorKind, HttpFailure,
};

fn api(code: &str, status: Option<u16>, retry: Option<u64>) -> ClientError {
    let error = ApiError {
        code: code.to_string(),
        info: "Invalid timestamp value at rvstart".to_string(),
        http_status: status,
        content_type: Some("application/json; charset=utf-8".to_string()),
        retry_after_seconds: retry,
    };
    ClientError {
        rendered: error.message(),
        kind: ClientErrorKind::Api(error),
    }
}

fn other(rendered: &str) -> ClientError {
    ClientError {
        kind: ClientErrorKind::Other,
        rendered: rendered.to_string(),
    }
}

#[test]
fn mediawiki_timestamp_uses_utc_second_precision_without_fractionals() {
    let parsed = parse_timestamp("2026-04-25T08:58:18.582411Z").unwrap();
    assert_eq!(mediawiki_timestamp(parsed), "2026-04-25T08:58:18Z");
}

#[test]
fn api_json_errors_preserve_code_and_safe_metadata() {
    let snapshot = classify_api_failure(
        &api("badtimestamp", Some(200), None),
        "fetch-revisions",
        Some("Title"),
        None,
        1_777_000_000,
    );

    assert_eq!(snapshot.class, "api-json-error");
    assert_eq!(snapshot.api_code.as_deref(), Some("badtimestamp"));
    assert_eq!(snapshot.http_status, Some(200));
    assert!(!snapshot.retryable);
    assert_eq!(snapshot.sample_title.as_deref(), Some("Title"));
    assert_eq!(snapshot.occurred_at, Some(1_777_000_000));
}

#[test]
fn transport_errors_preserve_class_status_and_content_type() {
    let error = ApiTransportError {
        class: "non-json-response".to_string(),
        info: "Failed to decode JSON response".to_string(),
        http_status: Some(502),
        content_type: Some("text/html".to_string()),
        retry_after_seconds: Some(45),
        retryable: true,
    };
    let client = ClientError {
        rendered: error.message(),
        kind: ClientErrorKind::Transport(error),
    };

    let snapshot = classify_api_failure(&client, "fetch-revisions", None, Some(42), 0);

    assert_eq!(snapshot.class, "non-json-response");
    assert_eq!(snapshot.http_status, Some(502));
    assert_eq!(snapshot.content_type.as_deref(), Some("text/html"));
    assert_eq!(snapshot.retry_after_seconds, Some(45));
    assert!(snapshot.retryable);
    assert_eq!(snapshot.sample_revid, Some(42));
    assert!(is_transient(&client));
    assert_eq!(retry_delay_seconds(&client, 3), 45);
}

#[test]
fn api_errors_preserve_retry_after_seconds() {
    let snapshot = classify_api_failure(
        &api("ratelimited", Some(429), Some(30)),
        "fetch-revisions",
        Some("Title"),
        None,
        0,
    );

    assert_eq!(snapshot.api_code.as_deref(), Some("ratelimited"));
    assert_eq!(snapshot.http_status, Some(429));
    assert_eq!(snapshot.retry_after_seconds, Some(30));
    assert!(snapshot.retryable);
}

#[test]
fn classify_permission_failure_separately_from_auth_session() {
    let error = other(
        "Permission failure during revisiondelete: You don't have permission to delete or undelete specific revisions of pages.",
    );

    let snapshot = classify_api_failure(&error, "revisiondelete", Some("Fixture"), Some(42), 0);

    assert_eq!(snapshot.class, "permission");
    assert!(!snapshot.retryable);
    assert_eq!(snapshot.sample_revid, Some(42));
    assert!(is_fatal_auth_or_permission_error(&error));
    let session = classify_api_failure(&other("re-login failed: bad password"), "login", None, None, 0);
    assert_eq!(session.class, "auth-session");
    assert!(!session.retryable);
}

#[test]
fn parses_retry_after_seconds_header_value() {
    assert_eq!(parse_retry_after_seconds("120", 0), Some(120));
    assert_eq!(parse_retry_after_seconds(" 7 ", 0), Some(7));
    // Sat, 25 Apr 2026 17:05:00 GMT is 1_777_136_700.
    assert_eq!(
        parse_retry_after_seconds("Sat, 25 Apr 2026 17:05:00 GMT", 1_777_136_640),
        Some(60)
    );
    assert_eq!(
        parse_retry_after_seconds("Sat, 25 Apr 2026 17:05:00 GMT", 1_777_136_800),
        Some(0)
    );
    assert_eq!(parse_retry_after_seconds("soon", 0), None);
}

#[test]
fn error_classes_and_retry_rules() {
    assert_eq!(api_error_class("badtoken"), "auth-session");
    assert_eq!(api_error_class("cantdelete"), "permission");
    assert_eq!(api_error_class("badtimestamp"), "api-json-error");
    assert_eq!(rendered_error_class("Failed to decode JSON response: eof"), "decode-error");
    assert_eq!(rendered_error_class("CSRF refresh failed"), "auth-session");
    assert_eq!(rendered_error_class("boom"), "unknown");
    assert!(api_code_retryable("maxlag"));
    assert!(!api_code_retryable("badtoken"));
    assert!(is_fatal_auth_or_permission_error(&api("notloggedin", None, None)));
    assert!(!is_fatal_auth_or_permission_error(&api("maxlag", None, None)));
    assert_eq!(retry_delay_seconds(&other("x"), 1), 1);
    assert_eq!(retry_delay_seconds(&other("x"), 4), 8);
    assert_eq!(retry_delay_seconds(&other("x"), 0), 1);
    assert_eq!(retry_delay_seconds(&other("x"), 200), u64::MAX);
    let http = ClientError {
        kind: ClientErrorKind::Http(HttpFailure {
            timeout: true,
            connect: false,
            status: None,
            message: "operation timed out".to_string(),
        }),
        rendered: "operation timed out".to_string(),
    };
    assert!(is_transient(&http));
    assert_eq!(classify_api_failure(&http, "login", None, None, 0).class, "timeout");
    assert_eq!(default_client_retry().stream_backoff_max_ms, 10_000);
}

#[test]
fn revision_urls_and_messages() {
    assert_eq!(
        revision_url("be.wikipedia.org", 42),
        "https://be.wikipedia.org/wiki/Special:Diff/42"
    );
    assert_eq!(safe_error_message("  too\n many   spaces "), "too many spaces");
}
