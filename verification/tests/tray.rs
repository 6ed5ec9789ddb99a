use claudometer::formatters::{
    format_datetime_full, format_time_short, format_tray_title, normalize_locale_tag,
    strip_seconds_from_time_string, usage_level,
};
use claudometer::types::{ClaudeUsageSnapshot, CodexUsageSnapshot, UsageSnapshotBundle};

fn sample_rfc3339_utc() -> &'static str {
    "2026-01-06T22:59:31Z"
}

fn make_claude_ok_bundle(session_percent: u32) -> UsageSnapshotBundle {
    UsageSnapshotBundle {
        claude: Some(ClaudeUsageSnapshot::Success {
            organization_id: "org-123".to_string(),
            session_percent,
            session_resets_at: Some("2026-01-07T05:00:00Z".to_string()),
            weekly_percent: 3000,
            weekly_resets_at: Some("2026-01-13T00:00:00Z".to_string()),
            models: vec![],
            last_updated_at: "2026-01-06T22:59:31Z".to_string(),
        }),
        codex: None,
    }
}

fn make_codex_ok_bundle(session_percent: u32) -> UsageSnapshotBundle {
    UsageSnapshotBundle {
        claude: None,
        codex: Some(CodexUsageSnapshot::Success {
            session_percent,
            session_resets_at: Some("2026-01-07T05:00:00Z".to_string()),
            weekly_percent: 3000,
            weekly_resets_at: Some("2026-01-13T00:00:00Z".to_string()),
            last_updated_at: "2026-01-06T22:59:31Z".to_string(),
        }),
    }
}

#[test]
fn tray_format_time_short_strips_seconds_for_common_time_patterns() {
    assert_eq!(strip_seconds_from_time_string("06:54:32 AM"), "06:54 AM");
    assert_eq!(strip_seconds_from_time_string("18:54:32"), "18:54");
    assert_eq!(strip_seconds_from_time_string("06:54 AM"), "06:54 AM");
}

#[test]
fn tray_format_time_short_and_datetime_full_do_not_crash() {
    assert!(format_time_short(sample_rfc3339_utc(), "en_US").is_some());
    let formatted = format_datetime_full(sample_rfc3339_utc(), "en_US");
    assert!(formatted.contains(", "));
}

#[test]
fn tray_format_datetime_full_falls_back_to_raw_input_on_parse_error() {
    let input = "not-a-datetime";
    assert_eq!(format_datetime_full(input, "en_US"), input);
}

#[test]
fn tray_normalize_locale_tag_handles_common_env_values() {
    assert_eq!(normalize_locale_tag("pt_BR.UTF-8"), "pt_BR");
    assert_eq!(normalize_locale_tag("de-de.UTF-8"), "de_DE");
    assert_eq!(normalize_locale_tag("C.UTF-8"), "POSIX");
}

#[test]
fn tray_format_tray_title_shows_percentage() {
    let snapshot = make_claude_ok_bundle(2500);
    assert_eq!(format_tray_title(true, false, Some(&snapshot)), "CL 25%");
}

#[test]
fn tray_format_tray_title_rounds_49_point_9_to_50() {
    let snapshot = make_claude_ok_bundle(4990);
    assert_eq!(format_tray_title(true, false, Some(&snapshot)), "CL 50%");
}

#[test]
fn tray_format_tray_title_shows_100_percent() {
    let snapshot = make_claude_ok_bundle(10000);
    assert_eq!(format_tray_title(true, false, Some(&snapshot)), "CL 100%");
}

#[test]
fn tray_format_tray_title_shows_placeholder_for_none() {
    assert_eq!(format_tray_title(true, false, None), "CL --%");
}

#[test]
fn tray_format_tray_title_shows_placeholder_for_unauthorized() {
    let snapshot = UsageSnapshotBundle {
        claude: Some(ClaudeUsageSnapshot::Unauthorized {
            organization_id: None,
            error_message: Some("Invalid session".to_string()),
            last_updated_at: "2026-01-06T22:59:31Z".to_string(),
        }),
        codex: None,
    };
    assert_eq!(format_tray_title(true, false, Some(&snapshot)), "CL --%");
}

#[test]
fn tray_format_tray_title_shows_placeholder_for_missing_key() {
    let snapshot = UsageSnapshotBundle {
        claude: Some(ClaudeUsageSnapshot::MissingKey {
            organization_id: None,
            error_message: None,
            last_updated_at: "2026-01-06T22:59:31Z".to_string(),
        }),
        codex: None,
    };
    assert_eq!(format_tray_title(true, false, Some(&snapshot)), "CL --%");
}

#[test]
fn tray_format_tray_title_shows_placeholder_for_rate_limited() {
    let snapshot = UsageSnapshotBundle {
        claude: Some(ClaudeUsageSnapshot::RateLimited {
            organization_id: None,
            error_message: Some("Too many requests".to_string()),
            last_updated_at: "2026-01-06T22:59:31Z".to_string(),
        }),
        codex: None,
    };
    assert_eq!(format_tray_title(true, false, Some(&snapshot)), "CL --%");
}

#[test]
fn tray_format_tray_title_shows_placeholder_for_error() {
    let snapshot = UsageSnapshotBundle {
        claude: Some(ClaudeUsageSnapshot::Error {
            organization_id: None,
            error_message: Some("Network error".to_string()),
            last_updated_at: "2026-01-06T22:59:31Z".to_string(),
        }),
        codex: None,
    };
    assert_eq!(format_tray_title(true, false, Some(&snapshot)), "CL --%");
}

#[test]
fn tray_format_tray_title_rounds_percentage_correctly() {
    let title = format_tray_title(true, false, Some(&make_claude_ok_bundle(7570)));
    assert!(title.contains("76%"), "75.7 should round to 76");
    let title = format_tray_title(true, false, Some(&make_claude_ok_bundle(7540)));
    assert!(title.contains("75%"), "75.4 should round to 75");
}

#[test]
fn tray_usage_level_returns_green_below_50() {
    assert_eq!(usage_level(true, false, Some(&make_claude_ok_bundle(0))), 0);
    assert_eq!(usage_level(true, false, Some(&make_claude_ok_bundle(2500))), 0);
    assert_eq!(usage_level(true, false, Some(&make_claude_ok_bundle(4990))), 0);
}

#[test]
fn tray_usage_level_returns_orange_between_50_and_70() {
    assert_eq!(usage_level(true, false, Some(&make_claude_ok_bundle(5000))), 1);
    assert_eq!(usage_level(true, false, Some(&make_claude_ok_bundle(6500))), 1);
    assert_eq!(usage_level(true, false, Some(&make_claude_ok_bundle(7000))), 1);
}

#[test]
fn tray_usage_level_returns_red_above_70() {
    assert_eq!(usage_level(true, false, Some(&make_claude_ok_bundle(7010))), 2);
    assert_eq!(usage_level(true, false, Some(&make_claude_ok_bundle(9000))), 2);
    assert_eq!(usage_level(true, false, Some(&make_claude_ok_bundle(10000))), 2);
}

#[test]
fn tray_usage_level_returns_unknown_for_error_states() {
    assert_eq!(usage_level(true, false, None), -1);
    let error = UsageSnapshotBundle {
        claude: Some(ClaudeUsageSnapshot::Error {
            organization_id: None,
            error_message: None,
            last_updated_at: "2026-01-06T22:59:31Z".to_string(),
        }),
        codex: None,
    };
    assert_eq!(usage_level(true, false, Some(&error)), -1);
}

#[test]
fn tray_format_tray_title_in_dual_mode_shows_both_providers() {
    let snapshot = UsageSnapshotBundle {
        claude: make_claude_ok_bundle(2500).claude,
        codex: make_codex_ok_bundle(1000).codex,
    };
    assert_eq!(format_tray_title(true, true, Some(&snapshot)), "CL 25% · CX 10%");
}

#[test]
fn tray_usage_level_in_dual_mode_uses_max_severity() {
    let snapshot = UsageSnapshotBundle {
        claude: make_claude_ok_bundle(1000).claude,
        codex: make_codex_ok_bundle(9500).codex,
    };
    assert_eq!(usage_level(true, true, Some(&snapshot)), 2);
}
