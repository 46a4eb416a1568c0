use codexbar_rs::env::HostEnvironment;
use codexbar_rs::providers::codex::{
    account_available, app_server_failure_snapshot, app_server_output, auth_mode_suffix,
    auth_state_from_file, event_token_usage, latest_session_token_usage, needs_tty_fallback,
    parse_app_server_status_response, rate_limit_window_to_usage_window, record_lines,
    select_codex_rate_limit, should_replace_latest, snapshot_from_app_server_status,
    AppServerResponse, AppServerResult, CodexAccount, CodexAccountReadResult, CodexAppServerStatus,
    CodexAuthFile, CodexAuthState, CodexProvider, CodexRateLimitSnapshot, CodexRateLimitWindow,
    CodexRateLimitsReadResult, CodexSessionEvent, CodexSessionPayload, CodexSessionTokenInfo,
    CodexSessionTokenTotals, CodexStatusPlan, CodexTokenUsage, JsonRpcError,
};
use codexbar_rs::providers::codex_tty::CodexTtyStatusSnapshot;
use codexbar_rs::providers::ProviderConfig;
use codexbar_rs::usage::{FetchSource, ProviderHealth, SourceMode, UsageWindow};

fn account_result() -> CodexAccountReadResult {
    CodexAccountReadResult {
        account: Some(CodexAccount {
            account_type: "chatgpt".to_string(),
            email: Some("user@example.com".to_string()),
            plan_type: Some("plus".to_string()),
        }),
        requires_openai_auth: true,
    }
}

fn window(used: u32, resets: u64) -> CodexRateLimitWindow {
    CodexRateLimitWindow { used_percent: used, resets_at: Some(resets), window_duration_mins: None }
}

fn limit(id: &str, primary: Option<CodexRateLimitWindow>, secondary: Option<CodexRateLimitWindow>) -> CodexRateLimitSnapshot {
    CodexRateLimitSnapshot { limit_id: Some(id.to_string()), limit_name: None, primary, secondary }
}

fn reply(id: u64, result: AppServerResult) -> Option<AppServerResponse> {
    Some(AppServerResponse { id: Some(id), result: Some(result), error: None })
}

fn as_account(a: CodexAccountReadResult) -> AppServerResult {
    AppServerResult { as_account: Some(a), as_rate_limits: None }
}

fn auth(mode: Option<&str>) -> CodexAuthState {
    CodexAuthState {
        exists: true,
        auth_mode: mode.map(|m| m.to_string()),
        last_refresh: Some("2026-03-11T15:16:38Z".to_string()),
    }
}

#[test]
fn parse_account_read_response_extracts_account() {
    let init = reply(1, AppServerResult { as_account: None, as_rate_limits: None });
    let status = parse_app_server_status_response(vec![init, reply(2, as_account(account_result()))]).ok().unwrap();
    let result = status.account.unwrap();
    let account = result.account.unwrap();
    assert_eq!(account.account_type, "chatgpt");
    assert_eq!(account.plan_type.as_deref(), Some("plus"));
    assert!(result.requires_openai_auth);
}

#[test]
fn parse_account_read_response_rejects_missing_result() {
    let init = reply(1, AppServerResult { as_account: None, as_rate_limits: None });
    let err = parse_app_server_status_response(vec![init]).err().unwrap();
    assert!(err.contains("no response"));
}

#[test]
fn app_server_reply_errors() {
    let bad_line = parse_app_server_status_response(vec![None]).err().unwrap();
    assert_eq!(bad_line, "failed to decode codex app-server JSON-RPC response");
    let rpc_error = Some(AppServerResponse {
        id: Some(2),
        result: None,
        error: Some(JsonRpcError { code: -32600, message: "nope".to_string() }),
    });
    assert_eq!(
        parse_app_server_status_response(vec![rpc_error]).err().unwrap(),
        "codex account/read returned error -32600: nope"
    );
    let no_payload = Some(AppServerResponse { id: Some(2), result: None, error: None });
    assert_eq!(
        parse_app_server_status_response(vec![no_payload]).err().unwrap(),
        "codex account/read returned no result payload"
    );
    let undecodable = reply(2, AppServerResult { as_account: None, as_rate_limits: None });
    assert_eq!(
        parse_app_server_status_response(vec![undecodable]).err().unwrap(),
        "failed to decode codex account/read result payload"
    );
}

#[test]
fn app_server_rate_limit_error_is_recorded() {
    let rl_error = Some(AppServerResponse {
        id: Some(3),
        result: None,
        error: Some(JsonRpcError { code: 7, message: "later".to_string() }),
    });
    let status = parse_app_server_status_response(vec![reply(2, as_account(account_result())), rl_error]).ok().unwrap();
    assert_eq!(status.rate_limits_error.as_deref(), Some("codex rateLimits/read returned error 7: later"));
    let snap = snapshot_from_app_server_status("codex", &auth(None), &status, None, None);
    assert_eq!(snap.health, ProviderHealth::Degraded);
    assert_eq!(snap.error.as_deref(), Some("codex rateLimits/read returned error 7: later"));
}

#[test]
fn parse_app_server_status_response_extracts_rate_limits() {
    let limits = CodexRateLimitsReadResult {
        rate_limits: Some(limit("other", Some(window(21, 1774000000)), None)),
        rate_limits_by_limit_id: Some(vec![(
            "codex".to_string(),
            limit("codex", Some(window(42, 1775000000)), Some(window(7, 1775003600))),
        )]),
    };
    let replies = vec![
        reply(1, AppServerResult { as_account: None, as_rate_limits: None }),
        reply(2, as_account(account_result())),
        reply(3, AppServerResult { as_account: None, as_rate_limits: Some(limits) }),
    ];
    let status = parse_app_server_status_response(replies).ok().unwrap();
    let snapshot = select_codex_rate_limit(status.rate_limits.as_ref()).unwrap();
    assert_eq!(snapshot.limit_id.as_deref(), Some("codex"));
    assert_eq!(snapshot.primary.as_ref().map(|v| v.used_percent), Some(42));
    assert_eq!(snapshot.secondary.as_ref().map(|v| v.used_percent), Some(7));
}

#[test]
fn rate_limit_selection_order() {
    let caseless = CodexRateLimitsReadResult {
        rate_limits: None,
        rate_limits_by_limit_id: Some(vec![
            ("Alpha".to_string(), limit("Alpha", Some(window(1, 1)), None)),
            ("CODEX".to_string(), limit("CODEX", Some(window(2, 1)), None)),
        ]),
    };
    assert_eq!(select_codex_rate_limit(Some(&caseless)).unwrap().primary.unwrap().used_percent, 2);
    let single_without_windows = CodexRateLimitsReadResult {
        rate_limits: Some(limit("other", None, None)),
        rate_limits_by_limit_id: None,
    };
    assert!(select_codex_rate_limit(Some(&single_without_windows)).is_none());
    let single_named = CodexRateLimitsReadResult {
        rate_limits: Some(CodexRateLimitSnapshot { limit_id: None, limit_name: Some("Codex".to_string()), primary: None, secondary: None }),
        rate_limits_by_limit_id: None,
    };
    assert!(select_codex_rate_limit(Some(&single_named)).is_some());
    assert!(select_codex_rate_limit(None).is_none());
}

#[test]
fn caseless_rate_limit_takes_the_least_id() {
    let out_of_order = CodexRateLimitsReadResult {
        rate_limits: None,
        rate_limits_by_limit_id: Some(vec![
            ("Codex".to_string(), limit("Codex", Some(window(3, 1)), None)),
            ("CODEX".to_string(), limit("CODEX", Some(window(4, 1)), None)),
            ("cOdex".to_string(), limit("cOdex", Some(window(5, 1)), None)),
        ]),
    };
    let chosen = select_codex_rate_limit(Some(&out_of_order)).unwrap();
    assert_eq!(chosen.limit_id.as_deref(), Some("CODEX"));
    let exact_last = CodexRateLimitsReadResult {
        rate_limits: None,
        rate_limits_by_limit_id: Some(vec![
            ("CODEX".to_string(), limit("CODEX", Some(window(6, 1)), None)),
            ("codex".to_string(), limit("codex", Some(window(7, 1)), None)),
            ("codex".to_string(), limit("codex", Some(window(8, 1)), None)),
        ]),
    };
    assert_eq!(select_codex_rate_limit(Some(&exact_last)).unwrap().primary.unwrap().used_percent, 8);
}

#[test]
fn rate_limit_window_is_a_percentage() {
    let w = rate_limit_window_to_usage_window(&window(42, 1775000000));
    assert_eq!(w.used, Some(42));
    assert_eq!(w.limit, Some(100));
    assert_eq!(w.remaining, Some(58));
    assert_eq!(w.resets_at.as_deref(), Some("1775000000"));
}

#[test]
fn snapshot_from_full_status() {
    let status = CodexAppServerStatus {
        account: Some(account_result()),
        rate_limits: Some(CodexRateLimitsReadResult {
            rate_limits: None,
            rate_limits_by_limit_id: Some(vec![(
                "codex".to_string(),
                limit("codex", Some(window(42, 10)), Some(window(7, 20))),
            )]),
        }),
        rate_limits_error: None,
    };
    assert!(account_available(&status));
    assert!(!needs_tty_fallback(&status));
    let tokens = CodexTokenUsage {
        prompt_tokens: Some(11),
        completion_tokens: Some(12),
        total_tokens: Some(23),
        updated_at: Some("2026-03-12T00:00:00Z".to_string()),
    };
    let s = snapshot_from_app_server_status("codex", &auth(Some("chatgpt")), &status, None, Some(tokens));
    assert_eq!(s.health, ProviderHealth::Okay);
    assert_eq!(s.source, FetchSource::Cli);
    assert_eq!(s.account.as_deref(), Some("user@example.com"));
    assert_eq!(s.plan.as_deref(), Some("plus"));
    assert_eq!(s.auth_mode.as_deref(), Some("chatgpt"));
    assert_eq!(s.primary.used, Some(42));
    assert_eq!(s.secondary.as_ref().unwrap().used, Some(7));
    assert_eq!(s.total_tokens, Some(23));
    assert_eq!(s.updated_at.as_deref(), Some("2026-03-12T00:00:00Z"));
    assert!(!s.stale);
}

#[test]
fn snapshot_uses_status_screen_only_without_primary() {
    let status = CodexAppServerStatus { account: Some(account_result()), rate_limits: None, rate_limits_error: None };
    assert!(needs_tty_fallback(&status));
    let tty = CodexTtyStatusSnapshot { primary: Some(UsageWindow::new(Some(5), Some(100))), secondary: None };
    let s = snapshot_from_app_server_status("codex", &auth(None), &status, Some(tty), None);
    assert_eq!(s.primary.used, Some(5));
    assert!(s.secondary.is_none());
    assert_eq!(s.updated_at.as_deref(), Some("2026-03-11T15:16:38Z"));
}

#[test]
fn snapshot_without_account_is_missing_credentials() {
    let status = CodexAppServerStatus::empty();
    assert!(!account_available(&status));
    assert!(!needs_tty_fallback(&status));
    let s = snapshot_from_app_server_status("codex", &auth(Some("apikey")), &status, None, None);
    assert_eq!(s.health, ProviderHealth::MissingCredentials);
    assert!(s.stale);
    assert_eq!(s.error.as_deref(), Some("codex account is not available via app-server (auth_mode=apikey)"));
    let f = app_server_failure_snapshot("codex", &auth(None), "timeout");
    assert_eq!(f.health, ProviderHealth::Degraded);
    assert!(f.stale);
    assert_eq!(f.error.as_deref(), Some("failed to query codex app-server: timeout"));
    assert_eq!(auth_mode_suffix(&auth(None)), "");
}

#[test]
fn app_server_output_framing() {
    let lines = app_server_output("  {\"id\":1}\r\n\n {\"id\":2}  \n", true, "exit status: 0", "").ok().unwrap();
    assert_eq!(lines, vec!["{\"id\":1}".to_string(), "{\"id\":2}".to_string()]);
    assert_eq!(
        app_server_output("  ", false, "exit status: 1", "").err().unwrap(),
        "codex app-server exited with status exit status: 1"
    );
    assert_eq!(
        app_server_output("", false, "exit status: 1", " broken\n").err().unwrap(),
        "codex app-server failed: broken"
    );
    assert_eq!(app_server_output("", true, "exit status: 0", "").err().unwrap(), "codex app-server returned no output");
    assert_eq!(record_lines("a\n\n  b \n"), vec!["a".to_string(), "b".to_string()]);
}

fn token_event(kind: &str, payload: &str, input: Option<u64>, ts: &str) -> Option<CodexSessionEvent> {
    Some(CodexSessionEvent {
        timestamp: Some(ts.to_string()),
        event_type: kind.to_string(),
        payload: Some(CodexSessionPayload {
            payload_type: payload.to_string(),
            info: Some(CodexSessionTokenInfo {
                total_token_usage: Some(CodexSessionTokenTotals {
                    input_tokens: input,
                    output_tokens: Some(3),
                    reasoning_output_tokens: Some(4),
                    total_tokens: Some(5_000_000_000),
                }),
            }),
        }),
    })
}

#[test]
fn session_token_usage_takes_the_last_token_count() {
    let events = vec![
        token_event("event_msg", "token_count", Some(1), "t1"),
        token_event("event_msg", "token_count", Some(2), "t2"),
        token_event("event_msg", "other", Some(3), "t3"),
        None,
        token_event("response", "token_count", Some(4), "t4"),
    ];
    let u = latest_session_token_usage(&events).unwrap();
    assert_eq!(u.prompt_tokens, Some(2));
    assert_eq!(u.completion_tokens, Some(7));
    assert_eq!(u.total_tokens, None);
    assert_eq!(u.updated_at.as_deref(), Some("t2"));
    assert!(latest_session_token_usage(&vec![None]).is_none());
    assert!(event_token_usage(&token_event("event_msg", "token_count", None, "x").unwrap()).unwrap().prompt_tokens.is_none());
}

#[test]
fn newer_session_log_replaces() {
    assert!(should_replace_latest(None, None));
    assert!(should_replace_latest(Some((5, 0)), Some(None)));
    assert!(!should_replace_latest(None, Some(Some((5, 0)))));
    assert!(should_replace_latest(Some((5, 1)), Some(Some((5, 0)))));
    assert!(!should_replace_latest(Some((5, 0)), Some(Some((5, 0)))));
}

#[test]
fn codex_provider_paths_and_plans() {
    let mut env = HostEnvironment::unset();
    assert_eq!(CodexProvider::new(ProviderConfig::default(), &env).auth_path, ".codex/auth.json");
    env.home = Some("/home/u".to_string());
    assert_eq!(CodexProvider::new(ProviderConfig::default(), &env).auth_path, "/home/u/.codex/auth.json");
    env.codex_home = Some("/opt/codex".to_string());
    let p = CodexProvider::new(ProviderConfig::default(), &env);
    assert_eq!(p.auth_path, "/opt/codex/auth.json");
    assert_eq!(CodexProvider::sessions_root(&env), "/opt/codex/sessions");
    match p.plan_status(SourceMode::Api) {
        CodexStatusPlan::Done(s) => {
            assert_eq!(s.health, ProviderHealth::Degraded);
            assert!(s.stale);
            assert_eq!(s.error.as_deref(), Some("codex API status strategy is not implemented"));
        },
        CodexStatusPlan::CollectCli => panic!("api needs no CLI"),
    }
    assert!(matches!(p.plan_status(SourceMode::Auto), CodexStatusPlan::CollectCli));
    let m = p.missing_auth_snapshot();
    assert_eq!(m.health, ProviderHealth::MissingCredentials);
    assert_eq!(m.error.as_deref(), Some("codex auth file not found at /opt/codex/auth.json"));
    let a = auth_state_from_file(Some(CodexAuthFile { auth_mode: Some("chatgpt".to_string()), last_refresh: None }));
    assert!(a.exists);
    assert!(!auth_state_from_file(None).exists);
    assert!(p.status_without_auth(&a).is_none());
    let without = p.status_without_auth(&auth_state_from_file(None)).unwrap();
    assert_eq!(without.health, ProviderHealth::MissingCredentials);
    assert_eq!(without.source, FetchSource::Cli);
    assert_eq!(without.error.as_deref(), Some("codex auth file not found at /opt/codex/auth.json"));
}
