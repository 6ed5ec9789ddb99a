use claudometer::claude::WebFetchResult;
use claudometer::codex::{
    codex_cli_failure_snapshot, map_http_status, normalize_cookie_value,
    read_codex_oauth_credentials_from_contents, rpc_rate_limits, rpc_step, usage_body_outcome,
    usage_snapshot_from_outcome, CodexCliError, CodexCredentialsError, CodexHttpErrorStatus,
    RpcLineOutcome,
};
use claudometer::types::CodexUsageSnapshot;

#[test]
fn normalize_cookie_value_strips_cookie_prefix() {
    assert_eq!(
        normalize_cookie_value("Cookie: a=b; c=d").as_deref(),
        Some("a=b; c=d")
    );
    assert_eq!(
        normalize_cookie_value("a=b; c=d").as_deref(),
        Some("a=b; c=d")
    );
    assert_eq!(normalize_cookie_value("  ").as_deref(), None);
}

#[test]
fn codex_map_http_status_matches_claude_rules() {
    assert!(matches!(
        map_http_status(401),
        CodexHttpErrorStatus::Unauthorized
    ));
    assert!(matches!(
        map_http_status(429),
        CodexHttpErrorStatus::RateLimited
    ));
    assert!(matches!(map_http_status(502), CodexHttpErrorStatus::Error));
}

#[test]
fn parse_oauth_fixture_maps_windows() {
    let data = "{\"rate_limit\": {\
        \"primary_window\": {\"used_percent\": 25, \"reset_at\": 1767225600},\
        \"secondary_window\": {\"used_percent\": 40, \"reset_at\": 1767830400}\
    }}";
    let outcome = usage_body_outcome(&WebFetchResult::Body {
        text: data.to_string(),
    });
    let Ok((Some(primary), Some(secondary))) = outcome else {
        panic!("expected both windows");
    };
    assert_eq!(primary.used_percent, 25);
    assert_eq!(secondary.used_percent, 40);
}

#[test]
fn parse_rpc_fixture_maps_windows() {
    let line = "{\"id\": 2, \"result\": {\"rateLimits\": {\
        \"primary\": {\"usedPercent\": 33.0, \"resetsAt\": 1767225600},\
        \"secondary\": {\"usedPercent\": 50.0, \"resetsAt\": 1767830400}\
    }}}";
    let RpcLineOutcome::Completed(limits) = rpc_step(line, 2) else {
        panic!("expected a completed response");
    };
    let (primary, _secondary) = rpc_rate_limits(&limits).expect("windows");
    assert_eq!(primary.used_percent, 33);
}

#[test]
fn rpc_step_ignores_mismatched_ids_and_redacts_errors() {
    // A foreign id is skipped so the read keeps waiting.
    assert_eq!(rpc_step("{\"id\": 7}", 2), RpcLineOutcome::Ignored);
    assert_eq!(rpc_step("{\"method\": \"log\"}", 2), RpcLineOutcome::Ignored);
    // A line that is not JSON ends the probe as malformed.
    assert_eq!(rpc_step("garbage", 2), RpcLineOutcome::Malformed);
    // A matching error answer fails the call with its text redacted.
    let out = rpc_step(
        "{\"id\": 2, \"error\": {\"message\": \"denied for sessionKey=abc123;\"}}",
        2,
    );
    let RpcLineOutcome::Failed(msg) = out else {
        panic!("expected a failure");
    };
    assert!(!msg.contains("abc123"));
    assert!(msg.contains("sessionKey=REDACTED"));
}

#[test]
fn rpc_incomplete_limits_are_malformed() {
    let RpcLineOutcome::Completed(limits) =
        rpc_step("{\"id\": 2, \"result\": {\"rateLimits\": {\"primary\": {\"usedPercent\": 10.0}}}}", 2)
    else {
        panic!("expected a completed response");
    };
    assert_eq!(rpc_rate_limits(&limits), Err(CodexCliError::Malformed));
    assert_eq!(rpc_rate_limits(&None), Err(CodexCliError::Malformed));
}

#[test]
fn usage_snapshot_maps_outcomes() {
    let ok = usage_snapshot_from_outcome(
        usage_body_outcome(&WebFetchResult::Body {
            text: "{\"rate_limit\": {\
                \"primary_window\": {\"used_percent\": 25, \"reset_at\": 1767225600},\
                \"secondary_window\": {\"used_percent\": 40, \"reset_at\": 1767830400}\
            }}"
            .to_string(),
        }),
        "Codex OAuth credentials are invalid. Run `codex` to re-authenticate.",
        "2026-01-01T00:00:00Z",
    );
    let CodexUsageSnapshot::Success {
        session_percent,
        weekly_percent,
        session_resets_at,
        ..
    } = ok
    else {
        panic!("expected ok snapshot");
    };
    assert_eq!(session_percent, 2500);
    assert_eq!(weekly_percent, 4000);
    assert_eq!(session_resets_at.as_deref(), Some("2026-01-01T00:00:00Z"));

    let unauthorized = usage_snapshot_from_outcome(
        Err(CodexHttpErrorStatus::Unauthorized),
        "Codex cookie is invalid or expired.",
        "2026-01-01T00:00:00Z",
    );
    let CodexUsageSnapshot::Unauthorized { error_message, .. } = unauthorized else {
        panic!("expected unauthorized snapshot");
    };
    assert_eq!(
        error_message.as_deref(),
        Some("Codex cookie is invalid or expired.")
    );

    let missing = usage_snapshot_from_outcome(
        Ok((None, None)),
        "unused",
        "2026-01-01T00:00:00Z",
    );
    let CodexUsageSnapshot::Error { error_message, .. } = missing else {
        panic!("expected error snapshot");
    };
    assert_eq!(
        error_message.as_deref(),
        Some("Codex usage data missing required fields.")
    );
}

#[test]
fn oauth_credentials_require_an_access_token() {
    let ok = read_codex_oauth_credentials_from_contents(
        "{\"tokens\": {\"access_token\": \" tok \", \"account_id\": \"acc\"}}",
    )
    .expect("credentials");
    assert_eq!(ok.access_token, "tok");
    assert_eq!(ok.account_id.as_deref(), Some("acc"));

    assert!(matches!(
        read_codex_oauth_credentials_from_contents("{\"tokens\": {}}"),
        Err(CodexCredentialsError::MissingAccessToken)
    ));
    assert!(matches!(
        read_codex_oauth_credentials_from_contents("nope"),
        Err(CodexCredentialsError::InvalidJson)
    ));
}

#[test]
fn cli_failures_have_actionable_messages() {
    let missing = codex_cli_failure_snapshot(&CodexCliError::BinaryMissing, "2026-01-01T00:00:00Z");
    let CodexUsageSnapshot::Error { error_message, .. } = missing else {
        panic!("expected error snapshot");
    };
    assert_eq!(
        error_message.as_deref(),
        Some("Codex CLI missing. Install `@openai/codex` (or ensure `codex` is on PATH).")
    );
    let timed_out = codex_cli_failure_snapshot(&CodexCliError::TimedOut, "2026-01-01T00:00:00Z");
    let CodexUsageSnapshot::Error { error_message, .. } = timed_out else {
        panic!("expected error snapshot");
    };
    assert_eq!(error_message.as_deref(), Some("Codex CLI probe timed out."));
}
