use codex_token_meter_lib::provider::{
    bundled_codex_path, is_rate_limit_reply_id, parse_app_server_response, parse_provider_response, resolve_codex_path, window_name,
    AppServerEnvelope, AppServerError, CodexAppServerProvider, FileBackedProvider, LimitEntry,
    ProviderError, RateLimitResult, RateLimitSnapshot, RateLimitWindow, RawResponse, RawWindow,
    ReplyId, SourceUnavailableAdapter,
};
use codex_token_meter_lib::CodexUsageProvider;

fn raw_window(name: &str, percent: f32, reset: &str) -> RawWindow {
    RawWindow {
        window: name.to_string(),
        remaining_percent: Some(percent.to_bits()),
        reset_at: Some(reset.to_string()),
    }
}

fn document(windows: Vec<RawWindow>) -> RawResponse {
    RawResponse { windows: Some(windows), error: None }
}

fn percent(bits: u32) -> f32 {
    f32::from_bits(bits)
}

#[test]
fn parse_valid_response() {
    let json = document(vec![
        raw_window("5h", 72.5, "2026-07-16T08:00:00Z"),
        raw_window("7d", 45.0, "2026-07-22T00:00:00Z"),
    ]);
    let result = parse_provider_response(Ok(json));
    assert!(result.is_ok());
    let snapshot = result.unwrap();
    assert_eq!(snapshot.windows.len(), 2);
}

#[test]
fn parse_error_field_returns_unavailable() {
    let json = RawResponse { windows: None, error: Some("session_expired".to_string()) };
    let result = parse_provider_response(Ok(json));
    assert!(result.is_err());
    assert!(matches!(result.unwrap_err(), ProviderError::SourceUnavailable { .. }));
}

#[test]
fn parse_duplicate_windows() {
    let json = document(vec![
        raw_window("5h", 50.0, "2026-07-16T08:00:00Z"),
        raw_window("5h", 60.0, "2026-07-16T09:00:00Z"),
    ]);
    let result = parse_provider_response(Ok(json));
    assert!(result.is_err());
    assert!(matches!(result.unwrap_err(), ProviderError::DuplicateWindow { .. }));
}

#[test]
fn provider_filter_unsupported_windows() {
    let json = document(vec![
        raw_window("30d", 25.0, "2026-07-30T00:00:00Z"),
        raw_window("7d", 80.0, "2026-07-22T00:00:00Z"),
    ]);
    let result = parse_provider_response(Ok(json));
    assert!(result.is_ok());
    let snapshot = result.unwrap();
    assert_eq!(snapshot.windows.len(), 1);
    assert_eq!(snapshot.windows[0].window, "7d");
}

#[test]
fn clamp_percentages() {
    let json = document(vec![
        raw_window("5h", 150.0, "2026-07-16T08:00:00Z"),
        raw_window("7d", -10.0, "2026-07-22T00:00:00Z"),
    ]);
    let result = parse_provider_response(Ok(json));
    assert!(result.is_ok());
    let snapshot = result.unwrap();
    assert!((percent(snapshot.windows[0].remaining_percent) - 100.0).abs() < f32::EPSILON);
    assert!((percent(snapshot.windows[1].remaining_percent) - 0.0).abs() < f32::EPSILON);
}

#[test]
fn empty_windows_array() {
    let json = document(vec![]);
    let result = parse_provider_response(Ok(json));
    assert!(result.is_ok());
    let snapshot = result.unwrap();
    assert_eq!(snapshot.windows.len(), 0);
}

#[test]
fn missing_windows_field_treated_as_empty() {
    let json = RawResponse { windows: None, error: None };
    let result = parse_provider_response(Ok(json));
    assert!(result.is_ok());
    let snapshot = result.unwrap();
    assert_eq!(snapshot.windows.len(), 0);
}

#[test]
fn source_unavailable_adapter() {
    let provider = SourceUnavailableAdapter;
    let result = provider.fetch();
    assert!(result.is_err());
    match result.unwrap_err() {
        ProviderError::SourceUnavailable { source, detail } => {
            assert_eq!(source, "local_codex_session");
            assert!(!detail.contains("token"));
            assert!(!detail.contains("cookie"));
            assert!(!detail.contains("secret"));
        }
        other => panic!("Expected SourceUnavailable, got: {:?}", other),
    }
}

#[test]
fn file_backed_provider_missing_file() {
    let provider = FileBackedProvider::new("/nonexistent/path.json", "missing_fixture");
    let read = Err("No such file or directory (os error 2)".to_string());
    let result = provider.fetch_from(read);
    assert!(result.is_err());
    assert!(matches!(result.unwrap_err(), ProviderError::SourceUnavailable { .. }));
}

#[test]
fn error_messages_no_secrets() {
    let err = ProviderError::SourceUnavailable {
        source: "test".to_string(),
        detail: "session expired".to_string(),
    };
    let msg = err.to_display_string();
    assert!(!msg.to_lowercase().contains("token"));
    assert!(!msg.to_lowercase().contains("cookie"));
    assert!(!msg.to_lowercase().contains("secret"));
    assert!(!msg.to_lowercase().contains("authorization"));
}

fn rate_window(used: i32, resets_at: Option<i64>, minutes: Option<i64>) -> RateLimitWindow {
    RateLimitWindow { used_percent: used, resets_at, window_duration_mins: minutes }
}

fn reply(result: Option<RateLimitResult>, error: Option<AppServerError>) -> Option<AppServerEnvelope> {
    Some(AppServerEnvelope { id: Some(ReplyId::Integer(2)), result, error })
}

fn limits(primary: Option<RateLimitWindow>, secondary: Option<RateLimitWindow>) -> RateLimitSnapshot {
    RateLimitSnapshot { primary, secondary }
}

#[test]
fn parse_app_server_response_maps_codex_windows() {
    // The status notification line carries no id; the second line is the reply.
    let status_line = Some(AppServerEnvelope { id: None, result: None, error: None });
    let raw = vec![
        status_line,
        reply(
            Some(RateLimitResult {
                rate_limits: Some(limits(
                    Some(rate_window(28, Some(1784188800), Some(300))),
                    Some(rate_window(55, Some(1784678400), Some(10080))),
                )),
                rate_limits_by_limit_id: None,
            }),
            None,
        ),
    ];
    let snapshot = parse_app_server_response(&raw).expect("app-server response should parse");
    assert_eq!(snapshot.windows.len(), 2);
    assert_eq!(snapshot.windows[0].window, "5h");
    assert!((percent(snapshot.windows[0].remaining_percent) - 72.0).abs() < f32::EPSILON);
    assert_eq!(snapshot.windows[1].window, "7d");
    assert!((percent(snapshot.windows[1].remaining_percent) - 45.0).abs() < f32::EPSILON);
}

// ---------------------------------------------------------------------------

#[test]
fn json_read_failure_is_a_parse_error() {
    match parse_provider_response(Err("expected value at line 1 column 1".to_string())) {
        Err(ProviderError::ParseError { source, detail }) => {
            assert_eq!(source, "json");
            assert_eq!(detail, "expected value at line 1 column 1");
        }
        other => panic!("unexpected: {:?}", other),
    }
}

#[test]
fn reported_error_wins_over_windows() {
    let json = RawResponse {
        windows: Some(vec![raw_window("5h", 10.0, "x")]),
        error: Some("session_expired".to_string()),
    };
    match parse_provider_response(Ok(json)) {
        Err(ProviderError::SourceUnavailable { source, detail }) => {
            assert_eq!(source, "codex_response");
            assert_eq!(detail, "session_expired");
        }
        other => panic!("unexpected: {:?}", other),
    }
}

#[test]
fn duplicate_among_unsupported_windows_is_rejected() {
    let json = document(vec![
        raw_window("30d", 1.0, "a"),
        raw_window("7d", 2.0, "b"),
        raw_window("30d", 3.0, "c"),
        raw_window("7d", 4.0, "d"),
    ]);
    match parse_provider_response(Ok(json)) {
        Err(ProviderError::DuplicateWindow { window }) => assert_eq!(window, "30d"),
        other => panic!("unexpected: {:?}", other),
    }
}

#[test]
fn window_without_percentage_is_left_out() {
    let json = document(vec![
        RawWindow { window: "7d".to_string(), remaining_percent: None, reset_at: None },
        raw_window("5h", 33.25, "2026-07-16T08:00:00Z"),
    ]);
    let snapshot = parse_provider_response(Ok(json)).unwrap();
    assert_eq!(snapshot.windows.len(), 1);
    assert_eq!(snapshot.windows[0].window, "5h");
    assert_eq!(percent(snapshot.windows[0].remaining_percent), 33.25);
    assert_eq!(snapshot.windows[0].reset_at.as_deref(), Some("2026-07-16T08:00:00Z"));
}

#[test]
fn window_without_percentage_still_counts_as_duplicate() {
    let json = document(vec![
        RawWindow { window: "5h".to_string(), remaining_percent: None, reset_at: None },
        raw_window("5h", 33.25, "x"),
    ]);
    assert!(matches!(parse_provider_response(Ok(json)), Err(ProviderError::DuplicateWindow { .. })));
}

#[test]
fn normalizing_a_normalized_document_changes_nothing() {
    let json = document(vec![
        raw_window("5h", 150.0, "a"),
        raw_window("30d", 1.0, "b"),
        raw_window("7d", 12.5, "c"),
    ]);
    let first = parse_provider_response(Ok(json)).unwrap();
    let again = document(
        first
            .windows
            .iter()
            .map(|w| RawWindow {
                window: w.window.clone(),
                remaining_percent: Some(w.remaining_percent),
                reset_at: w.reset_at.clone(),
            })
            .collect(),
    );
    let second = parse_provider_response(Ok(again)).unwrap();
    assert_eq!(first.windows, second.windows);
}

#[test]
fn provider_error_display_texts() {
    let a = ProviderError::SourceUnavailable { source: "s".to_string(), detail: "d".to_string() };
    let b = ProviderError::ParseError { source: "json".to_string(), detail: "bad".to_string() };
    let c = ProviderError::DuplicateWindow { window: "5h".to_string() };
    assert_eq!(a.to_display_string(), "Source unavailable [s]: d");
    assert_eq!(b.to_display_string(), "Parse error [json]: bad");
    assert_eq!(c.to_display_string(), "Duplicate window: 5h");
}

#[test]
fn file_backed_provider_passes_text_through() {
    let provider = FileBackedProvider::new("/tmp/usage.json", "fixture");
    assert_eq!(provider.path(), "/tmp/usage.json");
    assert_eq!(provider.fetch_from(Ok("{}".to_string())).unwrap(), "{}");
    match provider.fetch_from(Err("denied".to_string())) {
        Err(ProviderError::SourceUnavailable { source, detail }) => {
            assert_eq!(source, "fixture");
            assert_eq!(detail, "denied");
        }
        other => panic!("unexpected: {:?}", other),
    }
}

#[test]
fn source_unavailable_adapter_fetch_and_parse() {
    let result = SourceUnavailableAdapter.fetch_and_parse();
    assert!(matches!(result, Err(ProviderError::SourceUnavailable { .. })));
}

#[test]
fn window_names() {
    assert_eq!(window_name(Some(300)), Some("5h"));
    assert_eq!(window_name(Some(10080)), Some("7d"));
    assert_eq!(window_name(Some(60)), None);
    assert_eq!(window_name(None), None);
}

#[test]
fn app_server_reset_times_are_rfc3339() {
    let raw = vec![reply(
        Some(RateLimitResult {
            rate_limits: Some(limits(Some(rate_window(28, Some(1784188800), Some(300))), None)),
            rate_limits_by_limit_id: None,
        }),
        None,
    )];
    let snapshot = parse_app_server_response(&raw).unwrap();
    assert_eq!(snapshot.windows.len(), 1);
    assert_eq!(snapshot.windows[0].reset_at.as_deref(), Some("2026-07-16T08:00:00+00:00"));
}

#[test]
fn app_server_out_of_range_reset_is_dropped() {
    let raw = vec![reply(
        Some(RateLimitResult {
            rate_limits: Some(limits(Some(rate_window(10, Some(i64::MAX), Some(10080))), None)),
            rate_limits_by_limit_id: None,
        }),
        None,
    )];
    let snapshot = parse_app_server_response(&raw).unwrap();
    assert_eq!(snapshot.windows[0].window, "7d");
    assert_eq!(snapshot.windows[0].reset_at, None);
    assert_eq!(percent(snapshot.windows[0].remaining_percent), 90.0);
}

#[test]
fn app_server_used_percent_is_limited() {
    let raw = vec![reply(
        Some(RateLimitResult {
            rate_limits: Some(limits(
                Some(rate_window(140, None, Some(300))),
                Some(rate_window(-20, None, Some(10080))),
            )),
            rate_limits_by_limit_id: None,
        }),
        None,
    )];
    let snapshot = parse_app_server_response(&raw).unwrap();
    assert_eq!(percent(snapshot.windows[0].remaining_percent), 0.0);
    assert_eq!(percent(snapshot.windows[1].remaining_percent), 100.0);
}

#[test]
fn app_server_prefers_codex_limit() {
    let raw = vec![reply(
        Some(RateLimitResult {
            rate_limits: Some(limits(Some(rate_window(90, None, Some(300))), None)),
            rate_limits_by_limit_id: Some(vec![
                LimitEntry {
                    limit_id: "other".to_string(),
                    snapshot: limits(Some(rate_window(50, None, Some(300))), None),
                },
                LimitEntry {
                    limit_id: "codex".to_string(),
                    snapshot: limits(None, Some(rate_window(25, None, Some(10080)))),
                },
            ]),
        }),
        None,
    )];
    let snapshot = parse_app_server_response(&raw).unwrap();
    assert_eq!(snapshot.windows.len(), 1);
    assert_eq!(snapshot.windows[0].window, "7d");
    assert_eq!(percent(snapshot.windows[0].remaining_percent), 75.0);
}

#[test]
fn app_server_falls_back_when_codex_limit_missing() {
    let raw = vec![reply(
        Some(RateLimitResult {
            rate_limits: Some(limits(Some(rate_window(90, None, Some(300))), None)),
            rate_limits_by_limit_id: Some(vec![LimitEntry {
                limit_id: "other".to_string(),
                snapshot: limits(Some(rate_window(50, None, Some(300))), None),
            }]),
        }),
        None,
    )];
    let snapshot = parse_app_server_response(&raw).unwrap();
    assert_eq!(percent(snapshot.windows[0].remaining_percent), 10.0);
}

#[test]
fn app_server_errors() {
    let with_message = vec![reply(None, Some(AppServerError { message: Some("rate limited".to_string()) }))];
    match parse_app_server_response(&with_message) {
        Err(ProviderError::SourceUnavailable { source, detail }) => {
            assert_eq!(source, "codex_app_server");
            assert_eq!(detail, "rate limited");
        }
        other => panic!("unexpected: {:?}", other),
    }
    let without_message = vec![reply(None, Some(AppServerError { message: None }))];
    match parse_app_server_response(&without_message) {
        Err(ProviderError::SourceUnavailable { detail, .. }) => {
            assert_eq!(detail, "Codex app-server returned an error")
        }
        other => panic!("unexpected: {:?}", other),
    }
    let no_result = vec![reply(None, None)];
    match parse_app_server_response(&no_result) {
        Err(ProviderError::ParseError { detail, .. }) => {
            assert_eq!(detail, "Rate-limit response did not contain a result")
        }
        other => panic!("unexpected: {:?}", other),
    }
    let no_limits = vec![reply(Some(RateLimitResult { rate_limits: None, rate_limits_by_limit_id: None }), None)];
    match parse_app_server_response(&no_limits) {
        Err(ProviderError::SourceUnavailable { detail, .. }) => {
            assert_eq!(detail, "Codex did not provide rate-limit data")
        }
        other => panic!("unexpected: {:?}", other),
    }
    let nothing = vec![None, Some(AppServerEnvelope { id: Some(ReplyId::Integer(1)), result: None, error: None })];
    match parse_app_server_response(&nothing) {
        Err(ProviderError::ParseError { source, detail }) => {
            assert_eq!(source, "codex_app_server");
            assert_eq!(detail, "No rate-limit response was received");
        }
        other => panic!("unexpected: {:?}", other),
    }
}

#[test]
fn app_server_only_id_two_counts() {
    let other_id = Some(AppServerEnvelope {
        id: Some(ReplyId::Other),
        result: None,
        error: Some(AppServerError { message: None }),
    });
    let raw = vec![
        other_id,
        reply(
            Some(RateLimitResult {
                rate_limits: Some(limits(Some(rate_window(0, None, Some(300))), None)),
                rate_limits_by_limit_id: None,
            }),
            None,
        ),
    ];
    let snapshot = parse_app_server_response(&raw).unwrap();
    assert_eq!(percent(snapshot.windows[0].remaining_percent), 100.0);
}

#[test]
fn app_server_duplicate_windows_rejected() {
    let raw = vec![reply(
        Some(RateLimitResult {
            rate_limits: Some(limits(
                Some(rate_window(1, None, Some(300))),
                Some(rate_window(2, None, Some(300))),
            )),
            rate_limits_by_limit_id: None,
        }),
        None,
    )];
    match parse_app_server_response(&raw) {
        Err(ProviderError::DuplicateWindow { window }) => assert_eq!(window, "5h"),
        other => panic!("unexpected: {:?}", other),
    }
}

#[test]
fn codex_path_resolution() {
    assert_eq!(
        resolve_codex_path(Some("/opt/codex".to_string()), Some("/Users/me".to_string()), true),
        "/opt/codex"
    );
    assert_eq!(
        resolve_codex_path(None, Some("/Users/me".to_string()), true),
        "/Users/me/Applications/ChatGPT.app/Contents/Resources/codex"
    );
    assert_eq!(resolve_codex_path(None, Some("/Users/me".to_string()), false), "codex");
    assert_eq!(
        resolve_codex_path(None, Some("/Users/me/".to_string()), true),
        "/Users/me/Applications/ChatGPT.app/Contents/Resources/codex"
    );
    assert_eq!(
        resolve_codex_path(None, Some(String::new()), true),
        "Applications/ChatGPT.app/Contents/Resources/codex"
    );
    assert_eq!(resolve_codex_path(None, None, true), "codex");
    let expected = std::path::PathBuf::from("/home/x").join("Applications/ChatGPT.app/Contents/Resources/codex");
    assert_eq!(bundled_codex_path("/home/x".to_string()), expected.to_str().unwrap());
}

#[test]
fn app_server_provider_keeps_its_settings() {
    let p = CodexAppServerProvider::new("/bin/codex".to_string(), 7);
    assert_eq!(p.executable(), "/bin/codex");
    assert_eq!(p.reply_timeout_seconds(), 7);
    let q = p.duplicate();
    assert_eq!(q.executable(), "/bin/codex");
    assert_eq!(q.reply_timeout_seconds(), 7);
    let e = CodexAppServerProvider::from_environment_values(None, Some("/Users/me".to_string()), true);
    assert_eq!(e.executable(), "/Users/me/Applications/ChatGPT.app/Contents/Resources/codex");
    assert_eq!(e.reply_timeout_seconds(), 10);
    let f = CodexAppServerProvider::from_environment_values(Some("/x/codex".to_string()), None, false);
    assert_eq!(f.executable(), "/x/codex");
    let g = CodexAppServerProvider::from_environment_values(None, None, false);
    assert_eq!(g.executable(), "codex");
    assert_eq!(g.reply_timeout_seconds(), 10);
}

#[test]
fn reply_id_predicate() {
    assert!(is_rate_limit_reply_id(Some(ReplyId::Integer(2))));
    assert!(!is_rate_limit_reply_id(Some(ReplyId::Integer(1))));
    assert!(!is_rate_limit_reply_id(Some(ReplyId::Other)));
    assert!(!is_rate_limit_reply_id(None));
}

#[test]
fn app_server_windows_survive_normalization() {
    let raw = vec![reply(
        Some(RateLimitResult {
            rate_limits: Some(limits(
                Some(rate_window(28, Some(1784188800), Some(300))),
                Some(rate_window(130, None, Some(10080))),
            )),
            rate_limits_by_limit_id: None,
        }),
        None,
    )];
    let snapshot = parse_app_server_response(&raw).unwrap();
    let again = parse_provider_response(Ok(document(
        snapshot
            .windows
            .iter()
            .map(|w| RawWindow {
                window: w.window.clone(),
                remaining_percent: Some(w.remaining_percent),
                reset_at: w.reset_at.clone(),
            })
            .collect(),
    )))
    .unwrap();
    assert_eq!(again.windows, snapshot.windows);
}

#[test]
fn normalized_windows_are_at_most_two_and_distinct() {
    let json = document(vec![
        raw_window("1h", 1.0, "a"),
        raw_window("7d", 200.0, "b"),
        raw_window("30d", 3.0, "c"),
        raw_window("5h", -4.0, "d"),
    ]);
    let snapshot = parse_provider_response(Ok(json)).unwrap();
    assert_eq!(snapshot.windows.len(), 2);
    assert_eq!(snapshot.windows[0].window, "7d");
    assert_eq!(percent(snapshot.windows[0].remaining_percent), 100.0);
    assert_eq!(snapshot.windows[1].window, "5h");
    assert_eq!(percent(snapshot.windows[1].remaining_percent), 0.0);
}
