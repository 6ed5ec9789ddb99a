//! The alert engine: pure decision functions that turn a pair of observations
//! (previous, current) plus persisted "last notified period" markers into
//! notify/no-notify decisions, per metric.
//!
//! A *period identifier* is the raw `resets_at` string of a usage window,
//! trimmed, with the sentinel `"unknown"` standing in for an absent or empty
//! value. It is only ever compared for equality, never parsed as a time.

use vstd::prelude::*;

use crate::strings::{opt_eq_str, opt_view, trim_spec, trim_of};

verus! {

/// Near-limit notifications fire at or above this usage, in hundredths of a
/// percent (90%).
pub const NEAR_LIMIT_THRESHOLD_HUNDREDTHS: u32 = 9000;

/// The period identifier used when a window reports no reset timestamp.
pub open spec fn unknown_period() -> Seq<char> {
    "unknown"@
}

/// The period identifier of a window: its `resets_at` string trimmed, or
/// `"unknown"` when absent or blank.
pub open spec fn normalized_period(resets_at: Option<Seq<char>>) -> Seq<char> {
    let t = match resets_at {
        Some(s) => trim_spec(s),
        None => Seq::<char>::empty(),
    };
    if t.len() == 0 {
        unknown_period()
    } else {
        t
    }
}

/// The near-limit crossing-edge rule: fire when the current usage is at or
/// above the threshold, this period has not been notified already, and the
/// previous observation (if any) was below the threshold.
pub open spec fn should_notify_near_limit_spec(
    current_percent: u32,
    previous_percent: Option<u32>,
    current_period_id: Seq<char>,
    last_notified_period_id: Option<Seq<char>>,
) -> bool {
    &&& current_percent >= NEAR_LIMIT_THRESHOLD_HUNDREDTHS
    &&& last_notified_period_id != Some(current_period_id)
    &&& match previous_percent {
        None => true,
        Some(prev) => prev < NEAR_LIMIT_THRESHOLD_HUNDREDTHS,
    }
}

/// The reset rule: fire only when the period is known, a baseline exists (so
/// a first-ever observation never fires), the window actually rolled over,
/// and the new period has not been notified already.
pub open spec fn should_notify_reset_spec(
    current_period_id: Seq<char>,
    last_seen_period_id: Option<Seq<char>>,
    last_notified_reset_period_id: Option<Seq<char>>,
) -> bool {
    &&& !(current_period_id.len() == 0 || current_period_id == unknown_period())
    &&& last_seen_period_id is Some
    &&& last_seen_period_id != Some(current_period_id)
    &&& last_notified_reset_period_id != Some(current_period_id)
}

#[derive(Debug, Clone, PartialEq, Eq)]
pub struct NearLimitAlertDecision {
    pub notify_session: bool,
    pub notify_weekly: bool,
    /// Set exactly when `notify_session`: the period to persist as notified.
    pub session_period_id: Option<String>,
    /// Set exactly when `notify_weekly`: the period to persist as notified.
    pub weekly_period_id: Option<String>,
}

#[derive(Debug, Clone, PartialEq, Eq)]
pub struct UsageResetDecision {
    pub notify_session_reset: bool,
    pub notify_weekly_reset: bool,
    /// Set exactly when `notify_session_reset`.
    pub session_reset_period_id: Option<String>,
    /// Set exactly when `notify_weekly_reset`.
    pub weekly_reset_period_id: Option<String>,
}

#[derive(Debug, Clone)]
pub struct DecideNearLimitAlertsParams {
    /// Hundredths of a percent, clamped to [0, 100].
    pub current_session_percent: u32,
    pub current_weekly_percent: u32,
    pub current_session_resets_at: Option<String>,
    pub current_weekly_resets_at: Option<String>,
    pub previous_session_percent: Option<u32>,
    pub previous_weekly_percent: Option<u32>,
    pub last_notified_session_period_id: Option<String>,
    pub last_notified_weekly_period_id: Option<String>,
}

#[derive(Debug, Clone)]
pub struct DecideUsageResetsParams {
    pub current_session_resets_at: Option<String>,
    pub current_weekly_resets_at: Option<String>,
    pub last_seen_session_period_id: Option<String>,
    pub last_seen_weekly_period_id: Option<String>,
    pub last_notified_session_reset_period_id: Option<String>,
    pub last_notified_weekly_reset_period_id: Option<String>,
}

pub fn normalize_period_id(resets_at: Option<&str>) -> (r: String)
    ensures
        r@ == normalized_period(match resets_at {
            Some(s) => Some(s@),
            None => None,
        }),
{
    let trimmed = match resets_at {
        Some(s) => trim_of(s),
        None => trim_of(""),
    };
    proof {
        reveal_strlit("");
        assert(trim_spec(""@) =~= Seq::<char>::empty());
    }
    if trimmed.as_str().unicode_len() == 0 {
        "unknown".to_owned()
    } else {
        trimmed
    }
}

pub fn should_notify_near_limit(
    current_percent: u32,
    previous_percent: Option<u32>,
    current_period_id: &str,
    last_notified_period_id: &Option<String>,
) -> (r: bool)
    ensures
        r == should_notify_near_limit_spec(
            current_percent,
            previous_percent,
            current_period_id@,
            opt_view(*last_notified_period_id),
        ),
{
    if current_percent < NEAR_LIMIT_THRESHOLD_HUNDREDTHS {
        return false;
    }
    if opt_eq_str(last_notified_period_id, current_period_id) {
        return false;
    }
    proof {
        assert(opt_view(*last_notified_period_id) != Some(current_period_id@));
    }
    match previous_percent {
        None => true,
        Some(prev) => prev < NEAR_LIMIT_THRESHOLD_HUNDREDTHS,
    }
}

pub fn should_notify_reset(
    current_period_id: &str,
    last_seen_period_id: &Option<String>,
    last_notified_reset_period_id: &Option<String>,
) -> (r: bool)
    ensures
        r == should_notify_reset_spec(
            current_period_id@,
            opt_view(*last_seen_period_id),
            opt_view(*last_notified_reset_period_id),
        ),
{
    if current_period_id.unicode_len() == 0 || crate::strings::eq_str(current_period_id, "unknown")
    {
        return false;
    }
    let last_seen = match last_seen_period_id {
        None => {
            return false;
        },
        Some(v) => v,
    };
    if crate::strings::eq_str(current_period_id, last_seen.as_str()) {
        return false;
    }
    if opt_eq_str(last_notified_reset_period_id, current_period_id) {
        return false;
    }
    proof {
        assert(opt_view(*last_seen_period_id) != Some(current_period_id@));
        assert(opt_view(*last_notified_reset_period_id) != Some(current_period_id@));
    }
    true
}

impl NearLimitAlertDecision {
    /// What `decide_near_limit_alerts` promises of its result, given the
    /// views of the parameters.
    pub open spec fn follows(self, params: DecideNearLimitAlertsParams) -> bool {
        let session_pid = normalized_period(opt_view(params.current_session_resets_at));
        let weekly_pid = normalized_period(opt_view(params.current_weekly_resets_at));
        &&& self.notify_session == should_notify_near_limit_spec(
            params.current_session_percent,
            params.previous_session_percent,
            session_pid,
            opt_view(params.last_notified_session_period_id),
        )
        &&& self.notify_weekly == should_notify_near_limit_spec(
            params.current_weekly_percent,
            params.previous_weekly_percent,
            weekly_pid,
            opt_view(params.last_notified_weekly_period_id),
        )
        &&& opt_view(self.session_period_id) == if self.notify_session {
            Some(session_pid)
        } else {
            None::<Seq<char>>
        }
        &&& opt_view(self.weekly_period_id) == if self.notify_weekly {
            Some(weekly_pid)
        } else {
            None::<Seq<char>>
        }
    }
}

/// Decide, per metric, whether a near-limit notification fires for the
/// current observation, and which period identifier to persist when it does.
pub fn decide_near_limit_alerts(params: &DecideNearLimitAlertsParams) -> (r:
    NearLimitAlertDecision)
    ensures
        r.follows(*params),
{
    let session_period_id = normalize_period_id(match &params.current_session_resets_at {
        Some(s) => Some(s.as_str()),
        None => None,
    });
    let weekly_period_id = normalize_period_id(match &params.current_weekly_resets_at {
        Some(s) => Some(s.as_str()),
        None => None,
    });

    let notify_session = should_notify_near_limit(
        params.current_session_percent,
        params.previous_session_percent,
        session_period_id.as_str(),
        &params.last_notified_session_period_id,
    );
    let notify_weekly = should_notify_near_limit(
        params.current_weekly_percent,
        params.previous_weekly_percent,
        weekly_period_id.as_str(),
        &params.last_notified_weekly_period_id,
    );

    NearLimitAlertDecision {
        notify_session,
        notify_weekly,
        session_period_id: if notify_session {
            Some(session_period_id)
        } else {
            None
        },
        weekly_period_id: if notify_weekly {
            Some(weekly_period_id)
        } else {
            None
        },
    }
}

impl UsageResetDecision {
    /// What `decide_usage_resets` promises of its result, given the views of
    /// the parameters.
    pub open spec fn follows(self, params: DecideUsageResetsParams) -> bool {
        let session_pid = normalized_period(opt_view(params.current_session_resets_at));
        let weekly_pid = normalized_period(opt_view(params.current_weekly_resets_at));
        &&& self.notify_session_reset == should_notify_reset_spec(
            session_pid,
            opt_view(params.last_seen_session_period_id),
            opt_view(params.last_notified_session_reset_period_id),
        )
        &&& self.notify_weekly_reset == should_notify_reset_spec(
            weekly_pid,
            opt_view(params.last_seen_weekly_period_id),
            opt_view(params.last_notified_weekly_reset_period_id),
        )
        &&& opt_view(self.session_reset_period_id) == if self.notify_session_reset {
            Some(session_pid)
        } else {
            None::<Seq<char>>
        }
        &&& opt_view(self.weekly_reset_period_id) == if self.notify_weekly_reset {
            Some(weekly_pid)
        } else {
            None::<Seq<char>>
        }
    }
}

/// Decide, per metric, whether a usage-window reset notification fires.
pub fn decide_usage_resets(params: &DecideUsageResetsParams) -> (r: UsageResetDecision)
    ensures
        r.follows(*params),
{
    let session_period_id = normalize_period_id(match &params.current_session_resets_at {
        Some(s) => Some(s.as_str()),
        None => None,
    });
    let weekly_period_id = normalize_period_id(match &params.current_weekly_resets_at {
        Some(s) => Some(s.as_str()),
        None => None,
    });

    let notify_session_reset = should_notify_reset(
        session_period_id.as_str(),
        &params.last_seen_session_period_id,
        &params.last_notified_session_reset_period_id,
    );
    let notify_weekly_reset = should_notify_reset(
        weekly_period_id.as_str(),
        &params.last_seen_weekly_period_id,
        &params.last_notified_weekly_reset_period_id,
    );

    UsageResetDecision {
        notify_session_reset,
        notify_weekly_reset,
        session_reset_period_id: if notify_session_reset {
            Some(session_period_id)
        } else {
            None
        },
        weekly_reset_period_id: if notify_weekly_reset {
            Some(weekly_period_id)
        } else {
            None
        },
    }
}

/// A near-limit alert fires at most once per period: once the period is
/// recorded as notified, no later poll reporting the same period fires,
/// whatever usage it reports.
pub proof fn lemma_near_limit_no_refire_same_period(
    current_percent: u32,
    previous_percent: Option<u32>,
    period_id: Seq<char>,
)
    ensures
        !should_notify_near_limit_spec(
            current_percent,
            previous_percent,
            period_id,
            Some(period_id),
        ),
{
}

/// The near-limit alert re-arms when the window rolls over: with a new period
/// identifier, a previous observation below the threshold, and current usage
/// at or above it, the alert fires again even though an earlier period was
/// already notified.
pub proof fn lemma_near_limit_rearms_on_new_period(
    current_percent: u32,
    previous_percent: Option<u32>,
    new_period_id: Seq<char>,
    notified_period_id: Seq<char>,
)
    requires
        current_percent >= NEAR_LIMIT_THRESHOLD_HUNDREDTHS,
        new_period_id != notified_period_id,
        previous_percent matches Some(p) ==> p < NEAR_LIMIT_THRESHOLD_HUNDREDTHS,
    ensures
        should_notify_near_limit_spec(
            current_percent,
            previous_percent,
            new_period_id,
            Some(notified_period_id),
        ),
{
}

/// A first-ever observation for a scope never fires a reset notification,
/// whatever period identifier it reports: the baseline must exist first.
pub proof fn lemma_reset_needs_baseline(
    current_period_id: Seq<char>,
    last_notified_reset_period_id: Option<Seq<char>>,
)
    ensures
        !should_notify_reset_spec(current_period_id, None, last_notified_reset_period_id),
{
}

/// A window rollover fires exactly once: with baseline `a` and a known new
/// period `b` not yet notified, the reset fires; afterwards — whether the
/// baseline has caught up to `b` or only the notified marker records `b` —
/// polls still reporting `b` do not fire again.
pub proof fn lemma_reset_fires_once(a: Seq<char>, b: Seq<char>, last_notified: Option<Seq<char>>)
    requires
        b.len() > 0,
        b != unknown_period(),
        a != b,
        last_notified != Some(b),
    ensures
        should_notify_reset_spec(b, Some(a), last_notified),
        !should_notify_reset_spec(b, Some(b), last_notified),
        !should_notify_reset_spec(b, Some(a), Some(b)),
{
}

/// The decision for the session metric depends only on the session inputs,
/// and likewise for the weekly metric: the two are independent.
pub proof fn lemma_session_and_weekly_independent(
    r1: UsageResetDecision,
    params1: DecideUsageResetsParams,
    r2: UsageResetDecision,
    params2: DecideUsageResetsParams,
)
    requires
        r1.follows(params1),
        r2.follows(params2),
        opt_view(params1.current_session_resets_at) == opt_view(params2.current_session_resets_at),
        opt_view(params1.last_seen_session_period_id) == opt_view(
            params2.last_seen_session_period_id,
        ),
        opt_view(params1.last_notified_session_reset_period_id) == opt_view(
            params2.last_notified_session_reset_period_id,
        ),
    ensures
        r1.notify_session_reset == r2.notify_session_reset,
        opt_view(r1.session_reset_period_id) == opt_view(r2.session_reset_period_id),
{
}

} // verus!
