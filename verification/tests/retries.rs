use suppressor::cache::PageMetadata;
use suppressor::mw_api::{
    find_revision, page_content_from, page_metadata_from, probe_from, revision_record_from_raw,
    revisions_from_raw, revisions_in_window, user_info_from, RawPage, RawPageRevision, RawRecentChange,
    RawRevision, RecentChangeWindow, RevisionRecord,
    api_retry_delay, classify_api_failure, classify_response, joined_revids, next_revdel_step,
    parse_retry_after_seconds, parse_timestamp, stream_since, ApiError, ApiTransportError, ClientError,
    ClientErrorKind, HttpFailure, ResponseBody, RevDelRetryState, RevDelRetryStep,
};
use suppressor::reconcile::ReconcileMode;
use suppressor::scheduler::{deferral_notice, next_nightly_delay_at, nightly_delay_with_offset, MetadataRecheck};
use suppressor::state::ApiFailureSnapshot;

const NOW: i64 = 1_777_000_000;

fn error_of(kind: ClientErrorKind) -> ClientError {
    let rendered = match &kind {
        ClientErrorKind::Api(e) => e.message(),
        ClientErrorKind::Transport(e) => e.message(),
        ClientErrorKind::Http(h) => h.message.clone(),
        ClientErrorKind::Other => "error".to_string(),
    };
    ClientError { kind, rendered }
}

fn decode_error(body: &str) -> String {
    serde_json::from_str::<serde_json::Value>(body).unwrap_err().to_string()
}

/// A response as the client reads it: status, content type, retry-after
/// header and body.
fn respond(status: u16, status_text: &str, content_type: &str, retry_after: Option<&str>, body: &str) -> Result<serde_json::Value, ClientError> {
    let retry_after_seconds = retry_after.and_then(|raw| parse_retry_after_seconds(raw, NOW));
    let parsed = serde_json::from_str::<serde_json::Value>(body);
    let shape = match &parsed {
        Err(_) => ResponseBody::Undecodable { decode_error: decode_error(body) },
        Ok(value) => ResponseBody::Decoded {
            has_error: value.get("error").is_some(),
            error_code: value["error"]["code"].as_str().map(str::to_string),
            error_info: value["error"]["info"].as_str().map(str::to_string),
        },
    };
    match classify_response(status, status_text, Some(content_type.to_string()), retry_after_seconds, shape) {
        Some(kind) => Err(error_of(kind)),
        None => Ok(parsed.unwrap()),
    }
}

#[test]
fn classifies_non_json_429_with_retry_after_header() {
    let error = respond(429, "429 Too Many Requests", "text/plain; charset=utf-8", Some("30"), "too many requests")
        .unwrap_err();
    let snapshot = classify_api_failure(&error, "fetch-revisions", Some("Title"), Some(42), NOW);
    assert_eq!(snapshot.class, "non-json-response");
    assert_eq!(snapshot.http_status, Some(429));
    assert!(snapshot.content_type.as_deref().is_some_and(|value| value.starts_with("text/plain")));
    assert_eq!(snapshot.retry_after_seconds, Some(30));
    assert!(snapshot.retryable);
    assert_eq!(snapshot.sample_title.as_deref(), Some("Title"));
    assert_eq!(snapshot.sample_revid, Some(42));
}

#[test]
fn classifies_json_decode_failures_from_json_content_type() {
    let error = respond(200, "200 OK", "application/json; charset=utf-8", None, "{not valid json").unwrap_err();
    let snapshot = classify_api_failure(&error, "fetch-page", None, None, NOW);
    assert_eq!(snapshot.class, "decode-error");
    assert_eq!(snapshot.http_status, Some(200));
    assert_eq!(snapshot.content_type.as_deref(), Some("application/json; charset=utf-8"));
    assert!(!snapshot.retryable);
}

#[test]
fn classifies_http_status_failures_even_when_body_is_json() {
    let error =
        respond(503, "503 Service Unavailable", "application/json", None, r#"{"batchcomplete":true}"#).unwrap_err();
    let snapshot = classify_api_failure(&error, "fetch-page", None, None, NOW);
    assert_eq!(snapshot.class, "http-status");
    assert_eq!(snapshot.http_status, Some(503));
    assert_eq!(snapshot.content_type.as_deref(), Some("application/json"));
    assert!(snapshot.retryable);
    match error.kind {
        ClientErrorKind::Transport(t) => {
            assert_eq!(t.info, "API request failed with HTTP status 503 Service Unavailable")
        }
        _ => panic!("an HTTP status failure is a transport failure"),
    }
}

#[test]
fn api_error_objects_become_api_errors() {
    let error = respond(200, "200 OK", "application/json", None, r#"{"error":{"code":"badtoken"}}"#).unwrap_err();
    match error.kind {
        ClientErrorKind::Api(e) => {
            assert_eq!(e.code, "badtoken");
            assert_eq!(e.info, "unknown");
            assert_eq!(e.http_status, Some(200));
        }
        _ => panic!("an error object is an API error"),
    }
    assert!(respond(200, "200 OK", "application/json", None, r#"{"query":{}}"#).is_ok());
}

#[test]
fn classifies_reqwest_timeout_errors() {
    let error = error_of(ClientErrorKind::Http(HttpFailure {
        timeout: true,
        connect: false,
        status: None,
        message: "operation timed out".to_string(),
    }));
    let snapshot = classify_api_failure(&error, "fetch-page", None, None, NOW);
    assert_eq!(snapshot.class, "timeout");
    assert!(snapshot.retryable);
    assert_eq!(snapshot.http_status, None);
}

#[test]
fn classifies_reqwest_network_errors() {
    let error = error_of(ClientErrorKind::Http(HttpFailure {
        timeout: false,
        connect: true,
        status: None,
        message: "error sending request".to_string(),
    }));
    let snapshot = classify_api_failure(&error, "fetch-page", None, None, NOW);
    assert_eq!(snapshot.class, "network");
    assert!(snapshot.retryable);
    assert_eq!(snapshot.http_status, None);
}

/// Runs a request under the client's retry rule; each attempt answers with
/// the next response.
fn with_retry(responses: Vec<Result<serde_json::Value, ClientError>>, max_retries: u32) -> (Result<serde_json::Value, ClientError>, usize) {
    let mut attempts: u32 = 0;
    let mut calls = 0;
    for response in responses {
        calls += 1;
        match response {
            Ok(value) => return (Ok(value), calls),
            Err(error) => {
                attempts += 1;
                if api_retry_delay(&error, attempts, max_retries).is_some() {
                    continue;
                }
                return (Err(error), calls);
            }
        }
    }
    panic!("ran out of responses");
}

#[test]
fn generic_get_retries_retry_after_non_json_429() {
    let limited = respond(429, "429 Too Many Requests", "text/plain; charset=utf-8", Some("0"), "too many requests");
    let ok = respond(200, "200 OK", "application/json", None, r#"{"query":{"tokens":{"logintoken":"login-token"}}}"#);
    let (result, calls) = with_retry(vec![limited, ok], 1);
    let token = result.unwrap()["query"]["tokens"]["logintoken"].as_str().unwrap().to_string();
    assert_eq!(token, "login-token");
    assert_eq!(calls, 2);
}

#[test]
fn generic_get_exhausts_retry_with_classified_non_json_429() {
    let limited = || respond(429, "429 Too Many Requests", "text/plain; charset=utf-8", Some("0"), "too many requests");
    let (result, calls) = with_retry(vec![limited(), limited(), limited()], 1);
    assert_eq!(calls, 2);
    let snapshot = classify_api_failure(&result.unwrap_err(), "recentchanges-poll", None, None, NOW);
    assert_eq!(snapshot.class, "non-json-response");
    assert_eq!(snapshot.http_status, Some(429));
    assert_eq!(snapshot.retry_after_seconds, Some(0));
    assert!(snapshot.retryable);
}

#[test]
fn retry_delay_only_for_transient_failures_within_budget() {
    let transient = error_of(ClientErrorKind::Http(HttpFailure {
        timeout: true,
        connect: false,
        status: None,
        message: "timeout".to_string(),
    }));
    assert_eq!(api_retry_delay(&transient, 1, 3), Some(1));
    assert_eq!(api_retry_delay(&transient, 3, 3), Some(4));
    assert_eq!(api_retry_delay(&transient, 4, 3), None);
    let permanent = error_of(ClientErrorKind::Other);
    assert_eq!(api_retry_delay(&permanent, 1, 3), None);
}

/// A hide request under the client's retry rule, with the token refresh and
/// re-login the daemon wires in; each request is answered by the token it
/// carried.
fn revision_delete_with_retry(
    answer: impl Fn(&str) -> Result<(), ClientError>,
    csrf: &mut String,
    max_retries: u32,
) -> (Result<(), ClientError>, usize, usize) {
    let mut state = RevDelRetryState::default();
    let mut refresh_calls = 0;
    let mut relogin_calls = 0;
    loop {
        match answer(csrf) {
            Ok(()) => return (Ok(()), refresh_calls, relogin_calls),
            Err(error) => match next_revdel_step(&mut state, &error, max_retries) {
                RevDelRetryStep::RefreshToken => {
                    refresh_calls += 1;
                    *csrf = "refreshed".to_string();
                }
                RevDelRetryStep::Relogin => {
                    relogin_calls += 1;
                    *csrf = "relogged".to_string();
                }
                RevDelRetryStep::RetryAfter { .. } => {}
                RevDelRetryStep::PermissionFailure { context } => {
                    let rendered = format!("{context}: {}", error.rendered);
                    return (Err(ClientError { kind: error.kind, rendered }), refresh_calls, relogin_calls);
                }
                RevDelRetryStep::Fail => return (Err(error), refresh_calls, relogin_calls),
            },
        }
    }
}

fn api_error(code: &str, info: &str, content_type: &str) -> ClientError {
    error_of(ClientErrorKind::Api(ApiError {
        code: code.to_string(),
        info: info.to_string(),
        http_status: Some(200),
        content_type: Some(content_type.to_string()),
        retry_after_seconds: None,
    }))
}

#[test]
fn revision_delete_with_retry_refreshes_badtoken_once_then_succeeds() {
    let mut csrf = "stale".to_string();
    let (result, refresh_calls, relogin_calls) = revision_delete_with_retry(
        |token| match token {
            "stale" => Err(api_error("badtoken", "bad csrf", "application/json")),
            "refreshed" => Ok(()),
            _ => panic!("unexpected token"),
        },
        &mut csrf,
        0,
    );
    result.unwrap();
    assert_eq!(csrf, "refreshed");
    assert_eq!(refresh_calls, 1);
    assert_eq!(relogin_calls, 0);
}

#[test]
fn revision_delete_with_retry_relogins_after_second_badtoken() {
    let mut csrf = "stale".to_string();
    let (result, refresh_calls, relogin_calls) = revision_delete_with_retry(
        |token| match token {
            "stale" => Err(api_error("badtoken", "bad csrf", "application/json")),
            "refreshed" => Err(api_error("badtoken", "still bad csrf", "application/json")),
            "relogged" => Ok(()),
            _ => panic!("unexpected token"),
        },
        &mut csrf,
        0,
    );
    result.unwrap();
    assert_eq!(csrf, "relogged");
    assert_eq!(refresh_calls, 1);
    assert_eq!(relogin_calls, 1);
}

#[test]
fn revision_delete_with_retry_stops_after_refresh_and_relogin_fail_to_fix_badtoken() {
    let mut csrf = "stale".to_string();
    let (result, refresh_calls, relogin_calls) = revision_delete_with_retry(
        |token| match token {
            "stale" => Err(api_error("badtoken", "bad csrf", "application/json")),
            "refreshed" => Err(api_error("badtoken", "still bad csrf", "application/json")),
            "relogged" => Err(api_error("badtoken", "session still broken", "application/json")),
            _ => panic!("unexpected token"),
        },
        &mut csrf,
        3,
    );
    let snapshot = classify_api_failure(&result.unwrap_err(), "revisiondelete", Some("Fixture"), Some(42), NOW);
    assert_eq!(csrf, "relogged");
    assert_eq!(refresh_calls, 1);
    assert_eq!(relogin_calls, 1);
    assert_eq!(snapshot.class, "auth-session");
    assert_eq!(snapshot.api_code.as_deref(), Some("badtoken"));
}

#[test]
fn revision_delete_with_retry_preserves_permission_error_metadata() {
    let mut csrf = "csrf".to_string();
    let (result, _, _) = revision_delete_with_retry(
        |_| Err(api_error("permissiondenied", "synthetic denied", "application/json; charset=utf-8")),
        &mut csrf,
        3,
    );
    let error = result.unwrap_err();
    assert!(error.rendered.starts_with("Permission failure during revisiondelete: synthetic denied"));
    let snapshot = classify_api_failure(&error, "revisiondelete", Some("Fixture"), Some(42), NOW);
    assert_eq!(snapshot.class, "permission");
    assert_eq!(snapshot.api_code.as_deref(), Some("permissiondenied"));
    assert_eq!(snapshot.http_status, Some(200));
    assert_eq!(snapshot.content_type.as_deref(), Some("application/json; charset=utf-8"));
    assert!(!snapshot.retryable);
}

#[test]
fn transient_hide_failures_back_off_doubling() {
    let mut state = RevDelRetryState::default();
    let transient = error_of(ClientErrorKind::Transport(ApiTransportError {
        class: "http-status".to_string(),
        info: "API request failed with HTTP status 502 Bad Gateway".to_string(),
        http_status: Some(502),
        content_type: None,
        retry_after_seconds: None,
        retryable: true,
    }));
    assert_eq!(next_revdel_step(&mut state, &transient, 3), RevDelRetryStep::RetryAfter { delay_seconds: 1 });
    assert_eq!(next_revdel_step(&mut state, &transient, 3), RevDelRetryStep::RetryAfter { delay_seconds: 2 });
    assert_eq!(next_revdel_step(&mut state, &transient, 3), RevDelRetryStep::RetryAfter { delay_seconds: 4 });
    assert_eq!(next_revdel_step(&mut state, &transient, 3), RevDelRetryStep::Fail);
    assert_eq!(state.attempts, 4);
}

#[test]
fn hide_ids_are_joined_with_bars() {
    assert_eq!(joined_revids(&vec![1, 22, 333]), "1|22|333");
    assert_eq!(joined_revids(&vec![42]), "42");
    assert_eq!(joined_revids(&Vec::new()), "");
}

#[test]
fn stream_looks_back_only_without_event_id() {
    assert_eq!(stream_since(None, Some(3600), NOW).as_deref(), Some("2026-04-24T02:06:40Z"));
    assert_eq!(stream_since(Some("evt"), Some(3600), NOW), None);
    assert_eq!(stream_since(None, None, NOW), None);
}

#[test]
fn nightly_delay_rolls_to_next_local_night_after_today_window_has_passed() {
    let now = parse_timestamp("2026-04-29T04:45:00Z").unwrap();
    let delay = next_nightly_delay_at(now, "Europe/Warsaw", "02:00", 180).unwrap();
    assert!(delay >= 19 * 3600 + 15 * 60);
    assert!(delay <= 22 * 3600 + 15 * 60);
}

#[test]
fn nightly_delay_stays_inside_expected_randomized_window() {
    let now = parse_timestamp("2026-04-28T21:00:00Z").unwrap();
    let delay = next_nightly_delay_at(now, "Europe/Warsaw", "02:00", 180).unwrap();
    assert!(delay >= 3 * 3600);
    assert!(delay <= 6 * 3600);
}

#[test]
fn nightly_delay_with_fixed_offset_is_exact() {
    let now = parse_timestamp("2026-04-28T21:00:00Z").unwrap();
    assert_eq!(nightly_delay_with_offset(now, "Europe/Warsaw", "02:00", 0), Ok(3 * 3600));
    assert_eq!(nightly_delay_with_offset(now, "Europe/Warsaw", "02:00", 30), Ok(3 * 3600 + 1800));
    assert_eq!(
        nightly_delay_with_offset(now, "Mars/Olympus", "02:00", 0),
        Err("failed to parse timezone".to_string())
    );
    assert!(nightly_delay_with_offset(now, "Europe/Warsaw", "two", 0).is_err());
}

#[test]
fn deferral_notices_name_the_pass() {
    assert_eq!(deferral_notice(ReconcileMode::Full, 30), "full watched-set recheck deferred by backoff for 30s");
    assert_eq!(
        deferral_notice(ReconcileMode::CurrentDay, 5),
        "Last 24 hours verification deferred by backoff for 5s"
    );
}

#[test]
fn metadata_recheck_counts_repeated_failures() {
    let failure = ApiFailureSnapshot {
        class: "http-status".to_string(),
        http_status: Some(503),
        ..ApiFailureSnapshot::default()
    };
    let mut recheck = MetadataRecheck::default();
    assert!(!recheck.succeeded());
    assert!(recheck.failed(&failure));
    assert_eq!(recheck.last_failure_key.as_deref(), Some("http-status||503"));
    for _ in 0..4 {
        assert!(!recheck.failed(&failure));
    }
    assert!(recheck.failed(&failure));
    assert_eq!(recheck.repeated_failure_count, 6);
    let other = ApiFailureSnapshot { class: "timeout".to_string(), ..ApiFailureSnapshot::default() };
    assert!(recheck.failed(&other));
    assert_eq!(recheck.repeated_failure_count, 1);
    assert!(recheck.succeeded());
    assert_eq!(recheck.repeated_failure_count, 0);
}

fn raw(revid: Option<u64>, ts: Option<&str>, user_hidden: bool) -> RawRevision {
    RawRevision { revid, timestamp: ts.map(str::to_string), user_hidden, comment_hidden: true }
}

#[test]
fn listed_revisions_read_in_order_and_skip_incomplete() {
    let raws = vec![
        raw(Some(1), Some("2026-04-29T09:00:00Z"), true),
        raw(None, Some("2026-04-29T09:01:00Z"), false),
        raw(Some(3), None, false),
        raw(Some(4), Some("2026-04-29T09:02:00Z"), false),
    ];
    let revisions = revisions_from_raw(&raws).unwrap();
    assert_eq!(revisions.iter().map(|r| r.revid).collect::<Vec<_>>(), vec![1, 4]);
    assert!(revisions[0].user_hidden && revisions[0].comment_hidden);
    assert_eq!(revisions[1].timestamp, parse_timestamp("2026-04-29T09:02:00Z").unwrap());
    let broken = vec![raw(Some(1), Some("yesterday"), true), raw(Some(2), Some("2026-04-29T09:00:00Z"), true)];
    assert_eq!(revisions_from_raw(&broken).unwrap_err(), "Invalid RFC3339 timestamp yesterday");
    assert_eq!(revision_record_from_raw(&raw(None, None, false)), Ok(None));
}

#[test]
fn revision_lookup_finds_the_asked_revision() {
    let raws = vec![raw(Some(5), Some("2026-04-29T09:00:00Z"), false), raw(Some(7), Some("2026-04-29T09:03:00Z"), true)];
    assert_eq!(find_revision(&raws, 7).unwrap().unwrap().revid, 7);
    assert_eq!(find_revision(&raws, 8).unwrap(), None);
    assert!(find_revision(&vec![raw(Some(1), Some("bad"), false)], 7).is_err());
}

#[test]
fn window_keeps_revisions_between_bounds() {
    let at = |revid: u64, t: i64| RevisionRecord { revid, timestamp: t, user_hidden: false, comment_hidden: false };
    let revisions = vec![at(1, 10), at(2, 20), at(3, 30), at(4, 40)];
    let kept = revisions_in_window(&revisions, 20, 30);
    assert_eq!(kept.iter().map(|r| r.revid).collect::<Vec<_>>(), vec![2, 3]);
}

fn change(title: Option<&str>, ts: Option<&str>, revid: Option<u64>) -> RawRecentChange {
    RawRecentChange { title: title.map(str::to_string), timestamp: ts.map(str::to_string), revid }
}

#[test]
fn window_chunks_stop_at_the_limit() {
    let mut window = RecentChangeWindow::default();
    let first = vec![
        change(Some("Foo"), Some("2026-04-29T09:00:00Z"), Some(1)),
        change(Some("Bar"), None, Some(2)),
    ];
    assert_eq!(window.absorb_chunk(&first, true, 2), Ok(true));
    let second = vec![
        change(Some("Baz"), Some("2026-04-29T08:00:00Z"), Some(3)),
        change(Some("Qux"), Some("2026-04-29T07:00:00Z"), Some(4)),
    ];
    assert_eq!(window.absorb_chunk(&second, false, 2), Ok(false));
    assert_eq!(window.chunk_count, 2);
    assert!(window.truncated);
    assert_eq!(window.changes.iter().map(|c| c.revid).collect::<Vec<_>>(), vec![1, 3]);
    let mut complete = RecentChangeWindow::default();
    assert_eq!(complete.absorb_chunk(&first, false, 10), Ok(false));
    assert!(!complete.truncated);
    let mut bad = RecentChangeWindow::default();
    assert!(bad.absorb_chunk(&vec![change(Some("Foo"), Some("nope"), Some(1))], false, 10).is_err());
}

#[test]
fn pages_read_metadata_and_content() {
    let page = Some(RawPage {
        pageid: Some(9),
        first_revision: Some(RawPageRevision {
            revid: Some(99),
            timestamp: Some("2026-04-29T09:00:00Z".to_string()),
            content: Some("* [[Foo]]".to_string()),
        }),
    });
    let meta = page_metadata_from(&page).unwrap();
    assert_eq!(meta, PageMetadata { pageid: Some(9), lastrevid: Some(99), timestamp: parse_timestamp("2026-04-29T09:00:00Z") });
    let content = page_content_from(&page).unwrap();
    assert_eq!(content.content, "* [[Foo]]");
    assert_eq!(content.metadata, meta);
    assert_eq!(page_metadata_from(&None).unwrap_err(), "Missing page data in API response");
    let bare = Some(RawPage { pageid: Some(9), first_revision: None });
    assert_eq!(page_metadata_from(&bare).unwrap(), PageMetadata { pageid: Some(9), lastrevid: None, timestamp: None });
    assert_eq!(page_content_from(&bare).unwrap_err(), "Missing page content revision");
    let empty = Some(RawPage { pageid: None, first_revision: Some(RawPageRevision::default()) });
    assert_eq!(page_content_from(&empty).unwrap_err(), "Missing revision content");
}

#[test]
fn latest_change_probe_and_user_info() {
    assert_eq!(probe_from(None), Ok(None));
    assert_eq!(probe_from(Some(change(Some("Foo"), None, Some(1)))), Ok(None));
    let probe = probe_from(Some(change(Some("Fixture Page"), Some("2026-04-29T09:10:02Z"), Some(9000001)))).unwrap().unwrap();
    assert_eq!(probe.title.as_deref(), Some("Fixture Page"));
    assert_eq!(probe.revid, Some(9000001));
    assert_eq!(probe.timestamp, parse_timestamp("2026-04-29T09:10:02Z").unwrap());
    let user = user_info_from(Some("Bot".to_string()), vec!["suppressrevision".to_string()]).unwrap();
    assert_eq!(user.name, "Bot");
    assert_eq!(user_info_from(None, vec![]).unwrap_err(), "Missing authenticated username");
}
