//! Applying the alert engine to one provider's observation: pick the Ok view
//! out of a snapshot, recall the previous percentages when the scope is
//! unchanged, run both decisions against the persisted markers, collect the
//! notification texts, and advance the per-scope baseline — the last-*seen*
//! period identifiers, updated on every successful observation whether or
//! not anything fired, which is what keeps a first observation from reading
//! as a reset.

use vstd::prelude::*;

use crate::claude::cleaned_timestamp;
use crate::strings::{opt_view, trim_of};
use crate::types::{ClaudeUsageSnapshot, CodexUsageSnapshot};
use crate::usage_alerts::{
    decide_near_limit_alerts,
    decide_usage_resets,
    DecideNearLimitAlertsParams,
    DecideUsageResetsParams,
    NearLimitAlertDecision,
    UsageResetDecision,
};

verus! {

/// The fields of a successful observation that the alert engine reads.
#[derive(Debug, Clone)]
pub struct ProviderOkView {
    pub provider_label: String,
    pub scope_id: String,
    /// Hundredths of a percent, clamped to [0, 100].
    pub session_percent: u32,
    /// Hundredths of a percent, clamped to [0, 100].
    pub weekly_percent: u32,
    pub session_resets_at: Option<String>,
    pub weekly_resets_at: Option<String>,
}

fn clone_opt_string(o: &Option<String>) -> (r: Option<String>)
    ensures
        opt_view(r) == opt_view(*o),
{
    match o {
        Some(s) => Some(s.clone()),
        None => None,
    }
}

/// The Ok view of the organization-scoped provider's snapshot.
pub fn view_claude(snapshot: &ClaudeUsageSnapshot) -> (r: Option<ProviderOkView>)
    ensures
        match *snapshot {
            ClaudeUsageSnapshot::Success {
                organization_id,
                session_percent,
                session_resets_at,
                weekly_percent,
                weekly_resets_at,
                ..
            } => r matches Some(v) && v.provider_label@ == "CL"@ && v.scope_id@
                == organization_id@ && v.session_percent == session_percent && v.weekly_percent
                == weekly_percent && opt_view(v.session_resets_at) == opt_view(session_resets_at)
                && opt_view(v.weekly_resets_at) == opt_view(weekly_resets_at),
            _ => r is None,
        },
{
    match snapshot {
        ClaudeUsageSnapshot::Success {
            organization_id,
            session_percent,
            session_resets_at,
            weekly_percent,
            weekly_resets_at,
            ..
        } => Some(
            ProviderOkView {
                provider_label: "CL".to_owned(),
                scope_id: organization_id.clone(),
                session_percent: *session_percent,
                weekly_percent: *weekly_percent,
                session_resets_at: clone_opt_string(session_resets_at),
                weekly_resets_at: clone_opt_string(weekly_resets_at),
            },
        ),
        _ => None,
    }
}

/// The Ok view of a Codex snapshot: a single-tenant provider, so its scope
/// is the fixed `codex` sentinel.
pub fn view_codex(snapshot: &CodexUsageSnapshot) -> (r: Option<ProviderOkView>)
    ensures
        match *snapshot {
            CodexUsageSnapshot::Success {
                session_percent,
                session_resets_at,
                weekly_percent,
                weekly_resets_at,
                ..
            } => r matches Some(v) && v.provider_label@ == "CX"@ && v.scope_id@ == "codex"@
                && v.session_percent == session_percent && v.weekly_percent == weekly_percent
                && opt_view(v.session_resets_at) == opt_view(session_resets_at) && opt_view(
                v.weekly_resets_at,
            ) == opt_view(weekly_resets_at),
            _ => r is None,
        },
{
    match snapshot {
        CodexUsageSnapshot::Success {
            session_percent,
            session_resets_at,
            weekly_percent,
            weekly_resets_at,
            ..
        } => Some(
            ProviderOkView {
                provider_label: "CX".to_owned(),
                scope_id: "codex".to_owned(),
                session_percent: *session_percent,
                weekly_percent: *weekly_percent,
                session_resets_at: clone_opt_string(session_resets_at),
                weekly_resets_at: clone_opt_string(weekly_resets_at),
            },
        ),
        _ => None,
    }
}

/// The previous percentages for the crossing-edge rule: only a previous Ok
/// snapshot of the *same scope* counts as a previous observation.
pub fn claude_previous_percents(previous: Option<&ClaudeUsageSnapshot>, scope_id: &str) -> (r: (
    Option<u32>,
    Option<u32>,
))
    ensures
        match previous {
            Some(
                ClaudeUsageSnapshot::Success { organization_id, session_percent, weekly_percent, .. },
            ) => if organization_id@ == scope_id@ {
                r == (Some(*session_percent), Some(*weekly_percent))
            } else {
                r == (None::<u32>, None::<u32>)
            },
            _ => r == (None::<u32>, None::<u32>),
        },
{
    match previous {
        Some(
            ClaudeUsageSnapshot::Success { organization_id, session_percent, weekly_percent, .. },
        ) => {
            if crate::strings::eq_str(organization_id.as_str(), scope_id) {
                (Some(*session_percent), Some(*weekly_percent))
            } else {
                (None, None)
            }
        },
        _ => (None, None),
    }
}

/// The previous percentages for the Codex provider: any previous Ok
/// snapshot counts (the scope is fixed).
pub fn codex_previous_percents(previous: Option<&CodexUsageSnapshot>) -> (r: (
    Option<u32>,
    Option<u32>,
))
    ensures
        match previous {
            Some(CodexUsageSnapshot::Success { session_percent, weekly_percent, .. }) => r == (
                Some(*session_percent),
                Some(*weekly_percent),
            ),
            _ => r == (None::<u32>, None::<u32>),
        },
{
    match previous {
        Some(CodexUsageSnapshot::Success { session_percent, weekly_percent, .. }) => (
            Some(*session_percent),
            Some(*weekly_percent),
        ),
        _ => (None, None),
    }
}

/// A stored period marker read back from settings: trimmed, with blank
/// collapsing to absent.
pub fn normalize_stored_period(v: Option<String>) -> (r: Option<String>)
    ensures
        opt_view(r) == cleaned_timestamp(opt_view(v)),
{
    match v {
        Some(s) => {
            let t = trim_of(s.as_str());
            if t.as_str().unicode_len() == 0 {
                None
            } else {
                Some(t)
            }
        },
        None => None,
    }
}

/// The persisted "last notified" markers for one (provider, scope) pair:
/// one per metric for near-limit alerts, one per metric for resets.
#[derive(Debug, Clone)]
pub struct ProviderAlertMarkers {
    pub session_near_limit: Option<String>,
    pub weekly_near_limit: Option<String>,
    pub session_reset: Option<String>,
    pub weekly_reset: Option<String>,
}

/// The in-memory last-*seen* period identifiers for one scope.
#[derive(Debug, Clone)]
pub struct UsageResetBaseline {
    pub session_period_id: Option<String>,
    pub weekly_period_id: Option<String>,
}

impl UsageResetBaseline {
    pub fn new() -> (r: Self)
        ensures
            r.session_period_id is None,
            r.weekly_period_id is None,
    {
        UsageResetBaseline { session_period_id: None, weekly_period_id: None }
    }
}

/// The baseline after an observation: each metric's last-seen period moves
/// to the current one when it is nonblank, and stays put otherwise.
pub fn updated_baseline(baseline: &UsageResetBaseline, cur: &ProviderOkView) -> (r:
    UsageResetBaseline)
    ensures
        opt_view(r.session_period_id) == match cleaned_timestamp(opt_view(cur.session_resets_at)) {
            Some(t) => Some(t),
            None => opt_view(baseline.session_period_id),
        },
        opt_view(r.weekly_period_id) == match cleaned_timestamp(opt_view(cur.weekly_resets_at)) {
            Some(t) => Some(t),
            None => opt_view(baseline.weekly_period_id),
        },
{
    let session_period_id = match crate::claude::read_timestamp(&cur.session_resets_at) {
        Some(t) => Some(t),
        None => clone_opt_string(&baseline.session_period_id),
    };
    let weekly_period_id = match crate::claude::read_timestamp(&cur.weekly_resets_at) {
        Some(t) => Some(t),
        None => clone_opt_string(&baseline.weekly_period_id),
    };
    UsageResetBaseline { session_period_id, weekly_period_id }
}

/// Everything one provider's observation asks of the outside world: the
/// decisions, the notification texts to show (in order), and the advanced
/// baseline. The caller persists each decision's period identifier exactly
/// when it fired.
#[derive(Debug, Clone)]
pub struct AlertPlan {
    pub near_limit: NearLimitAlertDecision,
    pub resets: UsageResetDecision,
    pub messages: Vec<String>,
    pub new_baseline: UsageResetBaseline,
}

/// The notification texts a plan shows, in order: session near-limit,
/// weekly near-limit, then (only when reset notifications are enabled)
/// session reset and weekly reset.
pub open spec fn plan_messages(
    label: Seq<char>,
    near: NearLimitAlertDecision,
    resets: UsageResetDecision,
    notify_on_usage_reset: bool,
) -> Seq<Seq<char>> {
    (if near.notify_session {
        seq![label + " session usage is near the limit (>= 90%)."@]
    } else {
        Seq::empty()
    }) + (if near.notify_weekly {
        seq![label + " weekly usage is near the limit (>= 90%)."@]
    } else {
        Seq::empty()
    }) + (if notify_on_usage_reset && resets.notify_session_reset {
        seq![label + " session usage window has reset."@]
    } else {
        Seq::empty()
    }) + (if notify_on_usage_reset && resets.notify_weekly_reset {
        seq![label + " weekly usage window has reset."@]
    } else {
        Seq::empty()
    })
}

/// Run both alert decisions for one observation and lay out everything that
/// follows from them.
pub fn plan_provider_alerts(
    cur: &ProviderOkView,
    previous_session_percent: Option<u32>,
    previous_weekly_percent: Option<u32>,
    markers: &ProviderAlertMarkers,
    baseline: &UsageResetBaseline,
    notify_on_usage_reset: bool,
) -> (r: AlertPlan)
    ensures
        r.near_limit.follows(
            DecideNearLimitAlertsParams {
                current_session_percent: cur.session_percent,
                current_weekly_percent: cur.weekly_percent,
                current_session_resets_at: cur.session_resets_at,
                current_weekly_resets_at: cur.weekly_resets_at,
                previous_session_percent,
                previous_weekly_percent,
                last_notified_session_period_id: markers.session_near_limit,
                last_notified_weekly_period_id: markers.weekly_near_limit,
            },
        ),
        r.resets.follows(
            DecideUsageResetsParams {
                current_session_resets_at: cur.session_resets_at,
                current_weekly_resets_at: cur.weekly_resets_at,
                last_seen_session_period_id: baseline.session_period_id,
                last_seen_weekly_period_id: baseline.weekly_period_id,
                last_notified_session_reset_period_id: markers.session_reset,
                last_notified_weekly_reset_period_id: markers.weekly_reset,
            },
        ),
        r.messages@.map_values(|m: String| m@) == plan_messages(
            cur.provider_label@,
            r.near_limit,
            r.resets,
            notify_on_usage_reset,
        ),
        opt_view(r.new_baseline.session_period_id) == match cleaned_timestamp(
            opt_view(cur.session_resets_at),
        ) {
            Some(t) => Some(t),
            None => opt_view(baseline.session_period_id),
        },
        opt_view(r.new_baseline.weekly_period_id) == match cleaned_timestamp(
            opt_view(cur.weekly_resets_at),
        ) {
            Some(t) => Some(t),
            None => opt_view(baseline.weekly_period_id),
        },
{
    let near_params = DecideNearLimitAlertsParams {
        current_session_percent: cur.session_percent,
        current_weekly_percent: cur.weekly_percent,
        current_session_resets_at: clone_opt_string(&cur.session_resets_at),
        current_weekly_resets_at: clone_opt_string(&cur.weekly_resets_at),
        previous_session_percent,
        previous_weekly_percent,
        last_notified_session_period_id: clone_opt_string(&markers.session_near_limit),
        last_notified_weekly_period_id: clone_opt_string(&markers.weekly_near_limit),
    };
    let near_limit = decide_near_limit_alerts(&near_params);

    let reset_params = DecideUsageResetsParams {
        current_session_resets_at: clone_opt_string(&cur.session_resets_at),
        current_weekly_resets_at: clone_opt_string(&cur.weekly_resets_at),
        last_seen_session_period_id: clone_opt_string(&baseline.session_period_id),
        last_seen_weekly_period_id: clone_opt_string(&baseline.weekly_period_id),
        last_notified_session_reset_period_id: clone_opt_string(&markers.session_reset),
        last_notified_weekly_reset_period_id: clone_opt_string(&markers.weekly_reset),
    };
    let resets = decide_usage_resets(&reset_params);

    let mut messages: Vec<String> = Vec::new();
    if near_limit.notify_session {
        messages.push(
            cur.provider_label.clone().concat(" session usage is near the limit (>= 90%)."),
        );
    }
    if near_limit.notify_weekly {
        messages.push(
            cur.provider_label.clone().concat(" weekly usage is near the limit (>= 90%)."),
        );
    }
    if notify_on_usage_reset && resets.notify_session_reset {
        messages.push(cur.provider_label.clone().concat(" session usage window has reset."));
    }
    if notify_on_usage_reset && resets.notify_weekly_reset {
        messages.push(cur.provider_label.clone().concat(" weekly usage window has reset."));
    }
    proof {
        assert(messages@.map_values(|m: String| m@) =~= plan_messages(
            cur.provider_label@,
            near_limit,
            resets,
            notify_on_usage_reset,
        ));
    }

    let new_baseline = updated_baseline(baseline, cur);

    AlertPlan { near_limit, resets, messages, new_baseline }
}

} // verus!
