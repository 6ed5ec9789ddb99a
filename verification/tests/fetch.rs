use claudometer::fetch::{
    auto_fallback_choice, bundle, choose_organization, claude_web_key_step,
    codex_usage_source_from_setting, usage_source_from_setting, validate_save_settings,
    DebugOverride, OrgsCache, SecretOutcome,
};
use claudometer::types::{
    ClaudeOrganization, ClaudeUsageSnapshot, CodexUsageSnapshot, CodexUsageSource,
    SaveSettingsPayload, UsageProvider, UsageSource,
};

fn orgs(ids: &[&str]) -> Vec<ClaudeOrganization> {
    ids.iter()
        .map(|id| ClaudeOrganization {
            id: id.to_string(),
            name: None,
        })
        .collect()
}

#[test]
fn choose_organization_prefers_the_stored_scope() {
    let list = orgs(&["org-1", "org-2"]);
    assert_eq!(
        choose_organization(&list, &Some("org-2".to_string())).as_deref(),
        Some("org-2")
    );
    // A stored scope no longer in the list falls back to the first.
    assert_eq!(
        choose_organization(&list, &Some("org-9".to_string())).as_deref(),
        Some("org-1")
    );
    assert_eq!(choose_organization(&list, &None).as_deref(), Some("org-1"));
    assert_eq!(choose_organization(&orgs(&[]), &None), None);
}

#[test]
fn orgs_cache_expires_after_its_ttl() {
    let mut cache = OrgsCache::new();
    assert!(cache.cached(0).is_none());
    cache.store(orgs(&["org-1"]), 1_000);
    assert!(cache.cached(1_500).is_some());
    assert!(cache.cached(1_000 + 300_000).is_none());
    cache.invalidate();
    assert!(cache.cached(1_500).is_none());
}

#[test]
fn web_key_step_distinguishes_absent_from_unavailable() {
    let ok = claude_web_key_step(
        SecretOutcome::Present("sk".to_string()),
        "2026-01-01T00:00:00Z",
    );
    assert_eq!(ok.ok().as_deref(), Some("sk"));

    let Err((snap, keyring_error)) =
        claude_web_key_step(SecretOutcome::Absent, "2026-01-01T00:00:00Z")
    else {
        panic!("expected a snapshot");
    };
    assert!(!keyring_error);
    assert!(matches!(snap, ClaudeUsageSnapshot::MissingKey { .. }));

    let Err((snap, keyring_error)) =
        claude_web_key_step(SecretOutcome::Unavailable, "2026-01-01T00:00:00Z")
    else {
        panic!("expected a snapshot");
    };
    assert!(keyring_error);
    let ClaudeUsageSnapshot::MissingKey { error_message, .. } = snap else {
        panic!("expected missing-key snapshot");
    };
    assert_eq!(
        error_message.as_deref(),
        Some("OS keychain/secret service is unavailable.")
    );
}

fn codex_ok() -> CodexUsageSnapshot {
    CodexUsageSnapshot::Success {
        session_percent: 1000,
        session_resets_at: None,
        weekly_percent: 1000,
        weekly_resets_at: None,
        last_updated_at: "2026-01-01T00:00:00Z".to_string(),
    }
}

fn codex_err(message: &str) -> CodexUsageSnapshot {
    CodexUsageSnapshot::Error {
        last_updated_at: "2026-01-01T00:00:00Z".to_string(),
        error_message: Some(message.to_string()),
    }
}

#[test]
fn auto_fallback_keeps_first_success_or_first_error() {
    // The first success wins.
    let attempts = vec![codex_err("oauth failed"), codex_ok(), codex_ok()];
    assert_eq!(auto_fallback_choice(&attempts), Some(1));
    // With no success, the first (most actionable) error wins, not the last.
    let attempts = vec![codex_err("oauth failed"), codex_err("cli failed")];
    assert_eq!(auto_fallback_choice(&attempts), Some(0));
    assert_eq!(auto_fallback_choice(&vec![]), None);
}

#[test]
fn source_settings_map_to_modes() {
    assert_eq!(
        usage_source_from_setting(&Some("cli".to_string()), false),
        UsageSource::Cli
    );
    assert_eq!(
        usage_source_from_setting(&Some("web".to_string()), true),
        UsageSource::Web
    );
    assert_eq!(usage_source_from_setting(&None, true), UsageSource::Cli);
    assert_eq!(usage_source_from_setting(&None, false), UsageSource::Web);

    assert_eq!(
        codex_usage_source_from_setting(&Some("oauth".to_string())),
        CodexUsageSource::Oauth
    );
    assert_eq!(
        codex_usage_source_from_setting(&Some("web".to_string())),
        CodexUsageSource::Web
    );
    assert_eq!(
        codex_usage_source_from_setting(&Some("cli".to_string())),
        CodexUsageSource::Cli
    );
    assert_eq!(
        codex_usage_source_from_setting(&Some("whatever".to_string())),
        CodexUsageSource::Auto
    );
    assert_eq!(codex_usage_source_from_setting(&None), CodexUsageSource::Auto);
}

fn payload(refresh_interval_seconds: u64) -> SaveSettingsPayload {
    SaveSettingsPayload {
        provider: UsageProvider::Claude,
        usage_source: UsageSource::Web,
        session_key: None,
        remember_session_key: false,
        codex_usage_source: CodexUsageSource::Auto,
        codex_cookie: None,
        remember_codex_cookie: false,
        refresh_interval_seconds,
        notify_on_usage_reset: false,
        autostart_enabled: false,
        check_updates_on_startup: true,
        selected_organization_id: None,
    }
}

#[test]
fn save_settings_rejects_a_short_interval() {
    let err = validate_save_settings(&payload(29)).expect("a validation error");
    assert_eq!(err.code, "VALIDATION");
    assert_eq!(err.message, "Refresh interval must be >= 30 seconds.");
    assert!(validate_save_settings(&payload(30)).is_none());
}

#[test]
fn debug_override_synthesizes_a_bundle_per_enabled_provider() {
    let mut ov = DebugOverride::new();
    assert!(!ov.active);
    ov.session_percent = 9500;
    ov.weekly_percent = 9500;
    let b = ov.usage_bundle(true, false);
    assert!(b.claude.is_some());
    assert!(b.codex.is_none());
    let ClaudeUsageSnapshot::Success {
        session_percent,
        models,
        ..
    } = b.claude.unwrap()
    else {
        panic!("expected ok snapshot");
    };
    assert_eq!(session_percent, 9500);
    assert_eq!(models.len(), 2);
    assert_eq!(models[0].name, "Sonnet");
    assert_eq!(models[1].name, "Opus");
    assert_eq!(models[1].percent, 9500 * 7 / 10);

    let both = bundle(None, Some(codex_ok()));
    assert!(both.claude.is_none());
    assert!(both.codex.is_some());
}
