use claudometer::claude::{
    claude_cli_failure_snapshot, map_http_status, oauth_usage_snapshot_from_response,
    organizations_from_response, read_cli_oauth_access_token_from_contents, title_case,
    usage_snapshot_from_body, usage_snapshot_from_web_response, ClaudeWebErrorStatus,
    CliCredentialsError, WebFetchResult,
};
use claudometer::types::ClaudeUsageSnapshot;

#[test]
fn map_http_status_for_oauth() {
    assert!(matches!(
        map_http_status(401),
        ClaudeWebErrorStatus::Unauthorized
    ));
    assert!(matches!(
        map_http_status(403),
        ClaudeWebErrorStatus::Unauthorized
    ));
    assert!(matches!(
        map_http_status(429),
        ClaudeWebErrorStatus::RateLimited
    ));
    assert!(matches!(map_http_status(500), ClaudeWebErrorStatus::Error));
}

#[test]
fn extracts_access_token() {
    let contents = "{\"claudeAiOauth\": {\"accessToken\": \"test-token\"}}";
    assert_eq!(
        read_cli_oauth_access_token_from_contents(contents),
        Ok("test-token".to_string())
    );
}

#[test]
fn missing_access_token_is_none() {
    let contents = "{\"claudeAiOauth\": {}}";
    assert_eq!(
        read_cli_oauth_access_token_from_contents(contents),
        Err(CliCredentialsError::MissingAccessToken)
    );
}

#[test]
fn invalid_credentials_json_is_reported() {
    assert_eq!(
        read_cli_oauth_access_token_from_contents("{not json"),
        Err(CliCredentialsError::InvalidJson)
    );
}

#[test]
fn parse_oauth_usage_ok_fixture_includes_sonnet_and_opus() {
    let body = "{\
        \"five_hour\": {\"utilization\": 10, \"resets_at\": \"2026-01-01T05:00:00.000Z\"},\
        \"seven_day\": {\"utilization\": 40, \"resets_at\": \"2026-01-08T00:00:00.000Z\"},\
        \"seven_day_sonnet\": {\"utilization\": 20, \"resets_at\": \"2026-01-08T00:00:00.000Z\"},\
        \"seven_day_opus\": {\"utilization\": 9, \"resets_at\": \"2026-01-08T00:00:00.000Z\"}\
    }";
    let snapshot = usage_snapshot_from_body(body, "oauth", "2026-01-01T00:00:00.000Z");
    let ClaudeUsageSnapshot::Success { models, .. } = snapshot else {
        panic!("expected ok snapshot");
    };
    assert_eq!(models.len(), 2);
    assert_eq!(models[0].name, "Sonnet");
    assert_eq!(models[0].percent, 2000);
    assert_eq!(models[1].name, "Opus");
    assert_eq!(models[1].percent, 900);
}

#[test]
fn parse_oauth_usage_null_models_fixture_skips_null_bucket() {
    let body = "{\
        \"five_hour\": {\"utilization\": 10},\
        \"seven_day\": {\"utilization\": 40},\
        \"seven_day_sonnet\": null,\
        \"seven_day_opus\": {\"utilization\": 9},\
        \"seven_day_foo\": {\"utilization\": 5}\
    }";
    let snapshot = usage_snapshot_from_body(body, "oauth", "2026-01-01T00:00:00.000Z");
    let ClaudeUsageSnapshot::Success { models, .. } = snapshot else {
        panic!("expected ok snapshot");
    };
    assert!(models.iter().all(|m| m.name != "Sonnet"));
    assert!(models.iter().any(|m| m.name == "Opus"));
    assert!(models.iter().any(|m| m.name == "Foo"));
}

#[test]
fn usage_snapshot_preserves_fixture_order_and_values() {
    // The two named sub-metrics come out in preference order with the
    // fixture's declared values.
    let body = "{\
        \"five_hour\": {\"utilization\": \"89.9\", \"resets_at\": \" 2026-01-01T05:00:00.000Z \"},\
        \"seven_day\": {\"utilization\": 92, \"resets_at\": \"\"},\
        \"seven_day_opus\": {\"utilization\": 7.5},\
        \"seven_day_sonnet\": {\"utilization\": 20}\
    }";
    let snapshot = usage_snapshot_from_body(body, "org-1", "2026-01-01T00:00:00.000Z");
    let ClaudeUsageSnapshot::Success {
        organization_id,
        session_percent,
        session_resets_at,
        weekly_percent,
        weekly_resets_at,
        models,
        last_updated_at,
    } = snapshot
    else {
        panic!("expected ok snapshot");
    };
    assert_eq!(organization_id, "org-1");
    assert_eq!(session_percent, 8990);
    assert_eq!(session_resets_at.as_deref(), Some("2026-01-01T05:00:00.000Z"));
    assert_eq!(weekly_percent, 9200);
    assert_eq!(weekly_resets_at, None);
    assert_eq!(last_updated_at, "2026-01-01T00:00:00.000Z");
    assert_eq!(models.len(), 2);
    assert_eq!(models[0].name, "Sonnet");
    assert_eq!(models[0].percent, 2000);
    assert_eq!(models[1].name, "Opus");
    assert_eq!(models[1].percent, 750);
}

#[test]
fn non_json_body_yields_generic_error() {
    let snapshot = usage_snapshot_from_body("<html>", "org-1", "2026-01-01T00:00:00.000Z");
    let ClaudeUsageSnapshot::Error { error_message, .. } = snapshot else {
        panic!("expected error snapshot");
    };
    assert_eq!(error_message.as_deref(), Some("Invalid usage response."));
}

#[test]
fn oauth_snapshot_maps_statuses_to_variants() {
    let unauthorized = oauth_usage_snapshot_from_response(
        &WebFetchResult::Status { code: 401 },
        "2026-01-01T00:00:00Z",
    );
    assert!(matches!(
        unauthorized,
        ClaudeUsageSnapshot::Unauthorized { .. }
    ));
    let limited = oauth_usage_snapshot_from_response(
        &WebFetchResult::Status { code: 429 },
        "2026-01-01T00:00:00Z",
    );
    assert!(matches!(limited, ClaudeUsageSnapshot::RateLimited { .. }));
    let failed = oauth_usage_snapshot_from_response(
        &WebFetchResult::Transport {
            message: "boom".to_string(),
        },
        "2026-01-01T00:00:00Z",
    );
    let ClaudeUsageSnapshot::Error { error_message, .. } = failed else {
        panic!("expected error snapshot");
    };
    assert_eq!(
        error_message.as_deref(),
        Some("Network error while fetching OAuth usage.")
    );
}

#[test]
fn organizations_are_trimmed_and_blanks_dropped() {
    let body = "[\
        {\"uuid\": \" org-1 \", \"name\": \" First \"},\
        {\"uuid\": \"  \"},\
        {\"name\": \"no uuid\"},\
        {\"uuid\": \"org-2\", \"name\": \"\"}\
    ]";
    let orgs = organizations_from_response(&WebFetchResult::Body {
        text: body.to_string(),
    })
    .expect("organizations");
    assert_eq!(orgs.len(), 2);
    assert_eq!(orgs[0].id, "org-1");
    assert_eq!(orgs[0].name.as_deref(), Some("First"));
    assert_eq!(orgs[1].id, "org-2");
    assert_eq!(orgs[1].name, None);
}

#[test]
fn organizations_errors_map_to_statuses() {
    assert!(matches!(
        organizations_from_response(&WebFetchResult::Status { code: 403 }),
        Err(ClaudeWebErrorStatus::Unauthorized)
    ));
    assert!(matches!(
        organizations_from_response(&WebFetchResult::Body {
            text: "not json".to_string()
        }),
        Err(ClaudeWebErrorStatus::Error)
    ));
}

#[test]
fn web_statuses_map_to_variants_with_the_status_in_the_message() {
    let at = "2026-01-01T00:00:00Z";
    let err = usage_snapshot_from_web_response(&WebFetchResult::Status { code: 500 }, "org-1", at);
    let ClaudeUsageSnapshot::Error { error_message, organization_id, .. } = err else {
        panic!("expected error snapshot");
    };
    assert_eq!(error_message.as_deref(), Some("Usage API error (500)"));
    assert_eq!(organization_id.as_deref(), Some("org-1"));

    let unauthorized =
        usage_snapshot_from_web_response(&WebFetchResult::Status { code: 403 }, "org-1", at);
    assert!(matches!(unauthorized, ClaudeUsageSnapshot::Unauthorized { .. }));
    let limited =
        usage_snapshot_from_web_response(&WebFetchResult::Status { code: 429 }, "org-1", at);
    assert!(matches!(limited, ClaudeUsageSnapshot::RateLimited { .. }));

    let transport = usage_snapshot_from_web_response(
        &WebFetchResult::Transport {
            message: "connect refused for sessionKey=zzz9;".to_string(),
        },
        "org-1",
        at,
    );
    let ClaudeUsageSnapshot::Error { error_message, .. } = transport else {
        panic!("expected error snapshot");
    };
    let msg = error_message.unwrap();
    assert!(!msg.contains("zzz9"));
    assert!(msg.contains("sessionKey=REDACTED"));
}

#[test]
fn cli_credential_failures_map_to_actionable_snapshots() {
    let at = "2026-01-01T00:00:00Z";
    let home = claude_cli_failure_snapshot(&CliCredentialsError::HomeMissing, at);
    assert!(matches!(home, ClaudeUsageSnapshot::Error { .. }));
    let missing = claude_cli_failure_snapshot(&CliCredentialsError::MissingFile, at);
    let ClaudeUsageSnapshot::Unauthorized { error_message, .. } = missing else {
        panic!("expected unauthorized snapshot");
    };
    assert_eq!(
        error_message.as_deref(),
        Some("CLI credentials not found. Log in with the provider CLI and try again.")
    );
}

#[test]
fn title_case_capitalizes_words() {
    assert_eq!(title_case("sonnet"), "Sonnet");
    assert_eq!(title_case("foo_bar baz"), "Foo Bar Baz");
    assert_eq!(title_case("__"), "");
}
