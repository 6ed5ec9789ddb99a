use claudometer::formatters::{
    clean_non_alnum_separators, format_datetime_full, format_reset_at_short, format_time_short,
    format_tray_title, normalize_locale_tag, strip_seconds_from_time_string,
    strip_year_from_date_string, usage_level,
};
use claudometer::types::{ClaudeUsageSnapshot, CodexUsageSnapshot, UsageSnapshotBundle};

fn sample_rfc3339_utc() -> &'static str {
    "2026-01-06T22:59:31Z"
}

fn make_claude_ok_bundle(session_percent: u32) -> UsageSnapshotBundle {
    UsageSnapshotBundle {
        claude: Some(ClaudeUsageSnapshot::Success {
            organization_id: "org-123".to_string(),
            session_percent,
            session_resets_at: Some("2026-01-07T05:00:00Z".to_string()),
            weekly_percent: 3000,
            weekly_resets_at: Some("2026-01-13T00:00:00Z".to_string()),
            models: vec![],
            last_updated_at: "2026-01-06T22:59:31Z".to_string(),
        }),
        codex: None,
    }
}

fn make_codex_ok_bundle(session_percent: u32) -> UsageSnapshotBundle {
    UsageSnapshotBundle {
        claude: None,
        codex: Some(CodexUsageSnapshot::Success {
            session_percent,
            session_resets_at: Some("2026-01-07T05:00:00Z".to_string()),
            weekly_percent: 3000,
            weekly_resets_at: Some("2026-01-13T00:00:00Z".to_string()),
            last_updated_at: "2026-01-06T22:59:31Z".to_string(),
        }),
    }
}

fn claude_error_bundle(status: &str, message: Option<&str>) -> UsageSnapshotBundle {
    let last_updated_at = "2026-01-06T22:59:31Z".to_string();
    let error_message = message.map(String::from);
    let snapshot = match status {
        "unauthorized" => ClaudeUsageSnapshot::Unauthorized {
            organization_id: None,
            last_updated_at,
            error_message,
        },
        "missing_key" => ClaudeUsageSnapshot::MissingKey {
            organization_id: None,
            last_updated_at,
            error_message,
        },
        "rate_limited" => ClaudeUsageSnapshot::RateLimited {
            organization_id: None,
            last_updated_at,
            error_message,
        },
        _ => ClaudeUsageSnapshot::Error {
            organization_id: None,
            last_updated_at,
            error_message,
        },
    };
    UsageSnapshotBundle {
        claude: Some(snapshot),
        codex: None,
    }
}

#[test]
fn formatters_format_time_short_strips_seconds_for_common_time_patterns() {
    assert_eq!(strip_seconds_from_time_string("06:54:32 AM"), "06:54 AM");
    assert_eq!(strip_seconds_from_time_string("18:54:32"), "18:54");
    assert_eq!(strip_seconds_from_time_string("06:54 AM"), "06:54 AM");
}

#[test]
fn formatters_format_time_short_and_datetime_full_do_not_crash() {
    assert!(format_time_short(sample_rfc3339_utc(), "en_US").is_some());
    let formatted = format_datetime_full(sample_rfc3339_utc(), "en_US");
    assert!(formatted.contains(", "));
}

#[test]
fn formatters_format_datetime_full_falls_back_to_raw_input_on_parse_error() {
    let input = "not-a-datetime";
    assert_eq!(format_datetime_full(input, "en_US"), input);
}

#[test]
fn formatters_normalize_locale_tag_handles_common_env_values() {
    assert_eq!(normalize_locale_tag("pt_BR.UTF-8"), "pt_BR");
    assert_eq!(normalize_locale_tag("de-de.UTF-8"), "de_DE");
    assert_eq!(normalize_locale_tag("C.UTF-8"), "POSIX");
}

#[test]
fn strip_year_from_date_string_removes_yyyy_at_end() {
    assert_eq!(strip_year_from_date_string("28/01/2026"), "28/01");
}

#[test]
fn strip_year_from_date_string_removes_yyyy_at_start() {
    assert_eq!(strip_year_from_date_string("2026/01/28"), "01/28");
}

#[test]
fn strip_year_from_date_string_trims_separators() {
    assert_eq!(strip_year_from_date_string("28.01.2026"), "28.01");
}

#[test]
fn strip_year_from_date_string_no_year_is_noop() {
    assert_eq!(strip_year_from_date_string("28/01"), "28/01");
}

#[test]
fn strip_year_from_date_string_handles_two_digit_year_at_end() {
    assert_eq!(strip_year_from_date_string("01/28/26"), "01/28");
}

#[test]
fn format_reset_at_short_does_not_crash() {
    assert!(format_reset_at_short(sample_rfc3339_utc(), "en_US").is_some());
}

#[test]
fn normalize_locale_tag_keeps_modifiers_and_drops_extra_parts() {
    assert_eq!(normalize_locale_tag("sr_RS@latin"), "sr_RS@latin");
    assert_eq!(normalize_locale_tag(" en "), "en");
    assert_eq!(normalize_locale_tag("a_b_c"), "a_B");
}

#[test]
fn strip_seconds_collapses_whitespace_between_tokens() {
    assert_eq!(strip_seconds_from_time_string("06:54:32   AM"), "06:54 AM");
    assert_eq!(strip_seconds_from_time_string("  18:54:32  "), "18:54");
    assert_eq!(strip_seconds_from_time_string("18:54:xx"), "18:54:xx");
}

#[test]
fn clean_non_alnum_separators_collapses_runs() {
    assert_eq!(clean_non_alnum_separators("--a--b--"), "a-b");
    assert_eq!(clean_non_alnum_separators("a//b"), "a/b");
    assert_eq!(clean_non_alnum_separators("...."), "");
}

#[test]
fn formatters_format_tray_title_shows_percentage() {
    let snapshot = make_claude_ok_bundle(2500);
    let title = format_tray_title(true, false, Some(&snapshot));
    assert_eq!(title, "CL 25%");
}

#[test]
fn formatters_format_tray_title_rounds_49_point_9_to_50() {
    let snapshot = make_claude_ok_bundle(4990);
    let title = format_tray_title(true, false, Some(&snapshot));
    assert_eq!(title, "CL 50%");
}

#[test]
fn formatters_format_tray_title_shows_100_percent() {
    let snapshot = make_claude_ok_bundle(10000);
    let title = format_tray_title(true, false, Some(&snapshot));
    assert_eq!(title, "CL 100%");
}

#[test]
fn formatters_format_tray_title_shows_placeholder_for_none() {
    let title = format_tray_title(true, false, None);
    assert_eq!(title, "CL --%");
}

#[test]
fn formatters_format_tray_title_shows_placeholder_for_unauthorized() {
    let snapshot = claude_error_bundle("unauthorized", Some("Invalid session"));
    let title = format_tray_title(true, false, Some(&snapshot));
    assert_eq!(title, "CL --%");
}

#[test]
fn formatters_format_tray_title_shows_placeholder_for_missing_key() {
    let snapshot = claude_error_bundle("missing_key", None);
    let title = format_tray_title(true, false, Some(&snapshot));
    assert_eq!(title, "CL --%");
}

#[test]
fn formatters_format_tray_title_shows_placeholder_for_rate_limited() {
    let snapshot = claude_error_bundle("rate_limited", Some("Too many requests"));
    let title = format_tray_title(true, false, Some(&snapshot));
    assert_eq!(title, "CL --%");
}

#[test]
fn formatters_format_tray_title_shows_placeholder_for_error() {
    let snapshot = claude_error_bundle("error", Some("Network error"));
    let title = format_tray_title(true, false, Some(&snapshot));
    assert_eq!(title, "CL --%");
}

#[test]
fn formatters_format_tray_title_rounds_percentage_correctly() {
    let snapshot = make_claude_ok_bundle(7570);
    let title = format_tray_title(true, false, Some(&snapshot));
    assert!(title.contains("76%"), "75.7 should round to 76");

    let snapshot = make_claude_ok_bundle(7540);
    let title = format_tray_title(true, false, Some(&snapshot));
    assert!(title.contains("75%"), "75.4 should round to 75");
}

#[test]
fn formatters_usage_level_returns_green_below_50() {
    assert_eq!(usage_level(true, false, Some(&make_claude_ok_bundle(0))), 0);
    assert_eq!(usage_level(true, false, Some(&make_claude_ok_bundle(2500))), 0);
    assert_eq!(usage_level(true, false, Some(&make_claude_ok_bundle(4990))), 0);
}

#[test]
fn formatters_usage_level_returns_orange_between_50_and_70() {
    assert_eq!(usage_level(true, false, Some(&make_claude_ok_bundle(5000))), 1);
    assert_eq!(usage_level(true, false, Some(&make_claude_ok_bundle(6500))), 1);
    assert_eq!(usage_level(true, false, Some(&make_claude_ok_bundle(7000))), 1);
}

#[test]
fn formatters_usage_level_returns_red_above_70() {
    assert_eq!(usage_level(true, false, Some(&make_claude_ok_bundle(7010))), 2);
    assert_eq!(usage_level(true, false, Some(&make_claude_ok_bundle(9000))), 2);
    assert_eq!(usage_level(true, false, Some(&make_claude_ok_bundle(10000))), 2);
}

#[test]
fn formatters_usage_level_returns_unknown_for_error_states() {
    assert_eq!(usage_level(true, false, None), -1);
    let error = claude_error_bundle("error", None);
    assert_eq!(usage_level(true, false, Some(&error)), -1);
}

#[test]
fn formatters_format_tray_title_in_dual_mode_shows_both_providers() {
    let snapshot = UsageSnapshotBundle {
        claude: make_claude_ok_bundle(2500).claude,
        codex: make_codex_ok_bundle(1000).codex,
    };
    let title = format_tray_title(true, true, Some(&snapshot));
    assert_eq!(title, "CL 25% · CX 10%");
}

#[test]
fn formatters_usage_level_in_dual_mode_uses_max_severity() {
    let snapshot = UsageSnapshotBundle {
        claude: make_claude_ok_bundle(1000).claude,
        codex: make_codex_ok_bundle(9500).codex,
    };
    assert_eq!(usage_level(true, true, Some(&snapshot)), 2);
}
