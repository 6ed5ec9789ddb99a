use claudometer::notifications::{
    claude_previous_percents, normalize_stored_period, plan_provider_alerts, updated_baseline,
    view_claude, view_codex, ProviderAlertMarkers, ProviderOkView, UsageResetBaseline,
};
use claudometer::types::{ClaudeUsageSnapshot, CodexUsageSnapshot};

fn ok_view(scope: &str, session: u32, weekly: u32, s_at: Option<&str>, w_at: Option<&str>) -> ProviderOkView {
    ProviderOkView {
        provider_label: "CL".to_string(),
        scope_id: scope.to_string(),
        session_percent: session,
        weekly_percent: weekly,
        session_resets_at: s_at.map(String::from),
        weekly_resets_at: w_at.map(String::from),
    }
}

fn no_markers() -> ProviderAlertMarkers {
    ProviderAlertMarkers {
        session_near_limit: None,
        weekly_near_limit: None,
        session_reset: None,
        weekly_reset: None,
    }
}

#[test]
fn near_limit_crossing_fires_once_then_stays_quiet() {
    // previous=85%, current=92%, no prior notification for the period.
    let cur = ok_view("org-1", 9200, 1000, Some("A"), Some("W"));
    let baseline = UsageResetBaseline::new();
    let plan = plan_provider_alerts(&cur, Some(8500), Some(1000), &no_markers(), &baseline, false);
    assert!(plan.near_limit.notify_session);
    assert_eq!(plan.near_limit.session_period_id.as_deref(), Some("A"));
    assert_eq!(plan.messages.len(), 1);
    assert_eq!(
        plan.messages[0],
        "CL session usage is near the limit (>= 90%)."
    );

    // The fired period is persisted; the next poll reports the same period.
    let markers = ProviderAlertMarkers {
        session_near_limit: plan.near_limit.session_period_id.clone(),
        ..no_markers()
    };
    let cur2 = ok_view("org-1", 9300, 1000, Some("A"), Some("W"));
    let plan2 = plan_provider_alerts(
        &cur2,
        Some(9200),
        Some(1000),
        &markers,
        &plan.new_baseline,
        false,
    );
    assert!(!plan2.near_limit.notify_session);
    assert!(plan2.messages.is_empty());
}

#[test]
fn near_limit_rearms_on_a_new_period() {
    // After firing for period A, period B re-arms once usage crosses again.
    let markers = ProviderAlertMarkers {
        session_near_limit: Some("A".to_string()),
        ..no_markers()
    };
    let baseline = UsageResetBaseline::new();
    let below = ok_view("org-1", 1000, 1000, Some("B"), Some("W"));
    let plan = plan_provider_alerts(&below, Some(9200), Some(1000), &markers, &baseline, false);
    assert!(!plan.near_limit.notify_session);

    let above = ok_view("org-1", 9200, 1000, Some("B"), Some("W"));
    let plan = plan_provider_alerts(&above, Some(1000), Some(1000), &markers, &baseline, false);
    assert!(plan.near_limit.notify_session);
    assert_eq!(plan.near_limit.session_period_id.as_deref(), Some("B"));
}

#[test]
fn first_observation_never_fires_a_reset_and_sets_the_baseline() {
    let cur = ok_view("org-1", 1000, 1000, Some("A"), Some("W"));
    let baseline = UsageResetBaseline::new();
    let plan = plan_provider_alerts(&cur, None, None, &no_markers(), &baseline, true);
    assert!(!plan.resets.notify_session_reset);
    assert!(!plan.resets.notify_weekly_reset);
    assert_eq!(plan.new_baseline.session_period_id.as_deref(), Some("A"));
    assert_eq!(plan.new_baseline.weekly_period_id.as_deref(), Some("W"));
}

#[test]
fn reset_fires_once_per_rollover() {
    // Baseline A, new period B: fires once.
    let baseline = UsageResetBaseline {
        session_period_id: Some("A".to_string()),
        weekly_period_id: Some("W".to_string()),
    };
    let cur = ok_view("org-1", 1000, 1000, Some("B"), Some("W"));
    let plan = plan_provider_alerts(&cur, Some(1000), Some(1000), &no_markers(), &baseline, true);
    assert!(plan.resets.notify_session_reset);
    assert!(!plan.resets.notify_weekly_reset);
    assert_eq!(plan.resets.session_reset_period_id.as_deref(), Some("B"));
    assert_eq!(plan.messages, vec!["CL session usage window has reset.".to_string()]);
    assert_eq!(plan.new_baseline.session_period_id.as_deref(), Some("B"));

    // Later polls still reporting B do not re-fire: the baseline advanced.
    let markers = ProviderAlertMarkers {
        session_reset: plan.resets.session_reset_period_id.clone(),
        ..no_markers()
    };
    let plan2 = plan_provider_alerts(
        &cur,
        Some(1000),
        Some(1000),
        &markers,
        &plan.new_baseline,
        true,
    );
    assert!(!plan2.resets.notify_session_reset);
    assert!(plan2.messages.is_empty());
}

#[test]
fn reset_notifications_are_gated_by_the_setting() {
    let baseline = UsageResetBaseline {
        session_period_id: Some("A".to_string()),
        weekly_period_id: None,
    };
    let cur = ok_view("org-1", 1000, 1000, Some("B"), None);
    let plan = plan_provider_alerts(&cur, None, None, &no_markers(), &baseline, false);
    // The decision still fires, but no notification text is emitted.
    assert!(plan.resets.notify_session_reset);
    assert!(plan.messages.is_empty());
}

#[test]
fn views_pick_only_successful_snapshots() {
    let ok = ClaudeUsageSnapshot::Success {
        organization_id: "org-1".to_string(),
        session_percent: 2500,
        session_resets_at: None,
        weekly_percent: 500,
        weekly_resets_at: None,
        models: vec![],
        last_updated_at: "2026-01-01T00:00:00Z".to_string(),
    };
    let v = view_claude(&ok).expect("a view");
    assert_eq!(v.provider_label, "CL");
    assert_eq!(v.scope_id, "org-1");
    assert_eq!(v.session_percent, 2500);

    let err = ClaudeUsageSnapshot::Error {
        organization_id: None,
        last_updated_at: "2026-01-01T00:00:00Z".to_string(),
        error_message: None,
    };
    assert!(view_claude(&err).is_none());

    let codex = CodexUsageSnapshot::Success {
        session_percent: 1000,
        session_resets_at: None,
        weekly_percent: 1000,
        weekly_resets_at: None,
        last_updated_at: "2026-01-01T00:00:00Z".to_string(),
    };
    let v = view_codex(&codex).expect("a view");
    assert_eq!(v.scope_id, "codex");
}

#[test]
fn previous_percents_require_the_same_scope() {
    let prev = ClaudeUsageSnapshot::Success {
        organization_id: "org-1".to_string(),
        session_percent: 8500,
        session_resets_at: None,
        weekly_percent: 500,
        weekly_resets_at: None,
        models: vec![],
        last_updated_at: "2026-01-01T00:00:00Z".to_string(),
    };
    assert_eq!(
        claude_previous_percents(Some(&prev), "org-1"),
        (Some(8500), Some(500))
    );
    assert_eq!(claude_previous_percents(Some(&prev), "org-2"), (None, None));
    assert_eq!(claude_previous_percents(None, "org-1"), (None, None));
}

#[test]
fn stored_markers_are_trimmed_and_blanks_dropped() {
    assert_eq!(
        normalize_stored_period(Some(" A ".to_string())).as_deref(),
        Some("A")
    );
    assert_eq!(normalize_stored_period(Some("  ".to_string())), None);
    assert_eq!(normalize_stored_period(None), None);
}

#[test]
fn baseline_keeps_old_values_when_a_window_is_blank() {
    let baseline = UsageResetBaseline {
        session_period_id: Some("A".to_string()),
        weekly_period_id: Some("W".to_string()),
    };
    let cur = ok_view("org-1", 0, 0, Some("B"), Some("  "));
    let updated = updated_baseline(&baseline, &cur);
    assert_eq!(updated.session_period_id.as_deref(), Some("B"));
    assert_eq!(updated.weekly_period_id.as_deref(), Some("W"));
}
