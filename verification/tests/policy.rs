use claudometer::policy::{
    compute_next_delay_for_latest, compute_next_delay_ms_with_nanos, refresh_outcome,
    should_pause_polling,
};
use claudometer::types::{
    ClaudeUsageSnapshot, CodexUsageSnapshot, IpcResult, UsageSnapshotBundle, UsageStatus,
};

fn bundle_with_status(
    claude: Option<UsageStatus>,
    codex: Option<UsageStatus>,
) -> UsageSnapshotBundle {
    let claude = claude.map(|s| match s {
        UsageStatus::Success => ClaudeUsageSnapshot::Success {
            organization_id: "org".to_string(),
            session_percent: 1000,
            session_resets_at: None,
            weekly_percent: 1000,
            weekly_resets_at: None,
            models: vec![],
            last_updated_at: "2026-01-01T00:00:00Z".to_string(),
        },
        UsageStatus::Unauthorized => ClaudeUsageSnapshot::Unauthorized {
            organization_id: None,
            last_updated_at: "2026-01-01T00:00:00Z".to_string(),
            error_message: None,
        },
        UsageStatus::MissingKey => ClaudeUsageSnapshot::MissingKey {
            organization_id: None,
            last_updated_at: "2026-01-01T00:00:00Z".to_string(),
            error_message: None,
        },
        UsageStatus::RateLimited => ClaudeUsageSnapshot::RateLimited {
            organization_id: None,
            last_updated_at: "2026-01-01T00:00:00Z".to_string(),
            error_message: None,
        },
        UsageStatus::Error => ClaudeUsageSnapshot::Error {
            organization_id: None,
            last_updated_at: "2026-01-01T00:00:00Z".to_string(),
            error_message: None,
        },
    });

    let codex = codex.map(|s| match s {
        UsageStatus::Success => CodexUsageSnapshot::Success {
            session_percent: 1000,
            session_resets_at: None,
            weekly_percent: 1000,
            weekly_resets_at: None,
            last_updated_at: "2026-01-01T00:00:00Z".to_string(),
        },
        UsageStatus::Unauthorized => CodexUsageSnapshot::Unauthorized {
            last_updated_at: "2026-01-01T00:00:00Z".to_string(),
            error_message: None,
        },
        UsageStatus::MissingKey => CodexUsageSnapshot::MissingKey {
            last_updated_at: "2026-01-01T00:00:00Z".to_string(),
            error_message: None,
        },
        UsageStatus::RateLimited => CodexUsageSnapshot::RateLimited {
            last_updated_at: "2026-01-01T00:00:00Z".to_string(),
            error_message: None,
        },
        UsageStatus::Error => CodexUsageSnapshot::Error {
            last_updated_at: "2026-01-01T00:00:00Z".to_string(),
            error_message: None,
        },
    });

    UsageSnapshotBundle { claude, codex }
}

#[test]
fn should_pause_polling_pauses_only_when_all_enabled_providers_blocked() {
    let snapshot = bundle_with_status(Some(UsageStatus::Unauthorized), Some(UsageStatus::Success));
    assert!(!should_pause_polling(true, true, &snapshot));

    let snapshot = bundle_with_status(
        Some(UsageStatus::Unauthorized),
        Some(UsageStatus::MissingKey),
    );
    assert!(should_pause_polling(true, true, &snapshot));

    let snapshot = bundle_with_status(Some(UsageStatus::Unauthorized), None);
    assert!(should_pause_polling(true, false, &snapshot));
}

#[test]
fn single_unauthorized_provider_pauses_until_refresh() {
    let snapshot = bundle_with_status(Some(UsageStatus::Unauthorized), None);
    assert_eq!(compute_next_delay_for_latest(true, false, 60, Some(&snapshot)), None);
}

#[test]
fn mixed_health_keeps_polling() {
    let snapshot = bundle_with_status(Some(UsageStatus::Success), Some(UsageStatus::MissingKey));
    let delay = compute_next_delay_for_latest(true, true, 60, Some(&snapshot));
    assert!(delay.is_some());
    assert!(delay.unwrap() >= 1000);
}

#[test]
fn compute_next_delay_ms_with_nanos_is_bounded() {
    let base_ms = 60_000_u64;

    let slow = compute_next_delay_ms_with_nanos(base_ms, 10, 0);
    assert!(slow <= base_ms);

    let fast = compute_next_delay_ms_with_nanos(base_ms, 10, 999);
    assert!(fast >= base_ms);

    let min = compute_next_delay_ms_with_nanos(500, 10, 0);
    assert!(min >= 1000);
}

#[test]
fn compute_next_delay_for_latest_returns_none_when_paused() {
    let snapshot = bundle_with_status(
        Some(UsageStatus::MissingKey),
        Some(UsageStatus::Unauthorized),
    );
    assert_eq!(compute_next_delay_for_latest(true, true, 60, Some(&snapshot)), None);
}

#[test]
fn no_snapshot_yet_retries_after_a_minute() {
    assert_eq!(compute_next_delay_for_latest(true, true, 60, None), Some(60_000));
}

#[test]
fn keyring_error_surfaces_only_when_every_enabled_provider_hit_one() {
    // Both enabled, both failing: the refresh reports the keyring error.
    let r = refresh_outcome(true, true, true, true);
    let IpcResult::Failure { error, .. } = r else {
        panic!("expected a failure");
    };
    assert_eq!(error.code, "KEYRING");

    // Partial failure is tolerated: the other provider's data is useful.
    assert!(matches!(
        refresh_outcome(true, true, true, false),
        IpcResult::Success { .. }
    ));
    // No providers enabled: nothing to report.
    assert!(matches!(
        refresh_outcome(false, false, true, true),
        IpcResult::Success { .. }
    ));
    // One enabled provider failing alone does surface.
    assert!(matches!(
        refresh_outcome(true, false, true, false),
        IpcResult::Failure { .. }
    ));
}
