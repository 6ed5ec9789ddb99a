//! The fetch orchestrator's decisions: per-provider source selection, the
//! credential step, organization-scope resolution with its cache, the
//! auto-fallback choice, and the simulation override. The awaits — HTTP,
//! the helper process, the keychain — happen outside; every decision
//! between them is a function of plain values and lives here.

use vstd::prelude::*;

use crate::clock::now_rfc3339;
use crate::strings::{eq_str, opt_view};
use crate::types::{
    valid_percent,
    ClaudeModelUsage,
    ClaudeOrganization,
    ClaudeUsageSnapshot,
    CodexUsageSnapshot,
    CodexUsageSource,
    IpcError,
    SaveSettingsPayload,
    UsageSnapshotBundle,
    UsageSource,
    UsageStatus,
};

verus! {

/// How long a fetched organization list stays fresh.
pub const ORGS_CACHE_TTL_MS: u64 = 300000;

pub fn bundle(claude: Option<ClaudeUsageSnapshot>, codex: Option<CodexUsageSnapshot>) -> (r:
    UsageSnapshotBundle)
    ensures
        r.claude == claude,
        r.codex == codex,
{
    UsageSnapshotBundle { claude, codex }
}

/// The missing-credential snapshot for the web source.
pub fn claude_missing_key_snapshot(observed_at: &str) -> (r: ClaudeUsageSnapshot)
    ensures
        r matches ClaudeUsageSnapshot::MissingKey { organization_id, last_updated_at, error_message }
            && organization_id is None && last_updated_at@ == observed_at@ && opt_view(
            error_message,
        ) == Some("Session key is not configured."@),
{
    ClaudeUsageSnapshot::MissingKey {
        organization_id: None,
        last_updated_at: observed_at.to_owned(),
        error_message: Some("Session key is not configured.".to_owned()),
    }
}

pub fn claude_unauthorized_snapshot(message: &str, observed_at: &str) -> (r: ClaudeUsageSnapshot)
    ensures
        r matches ClaudeUsageSnapshot::Unauthorized { organization_id, last_updated_at, error_message }
            && organization_id is None && last_updated_at@ == observed_at@ && opt_view(
            error_message,
        ) == Some(message@),
{
    ClaudeUsageSnapshot::Unauthorized {
        organization_id: None,
        last_updated_at: observed_at.to_owned(),
        error_message: Some(message.to_owned()),
    }
}

pub fn claude_rate_limited_snapshot(message: &str, observed_at: &str) -> (r: ClaudeUsageSnapshot)
    ensures
        r matches ClaudeUsageSnapshot::RateLimited { organization_id, last_updated_at, error_message }
            && organization_id is None && last_updated_at@ == observed_at@ && opt_view(
            error_message,
        ) == Some(message@),
{
    ClaudeUsageSnapshot::RateLimited {
        organization_id: None,
        last_updated_at: observed_at.to_owned(),
        error_message: Some(message.to_owned()),
    }
}

pub fn claude_error_snapshot(message: &str, observed_at: &str) -> (r: ClaudeUsageSnapshot)
    ensures
        r matches ClaudeUsageSnapshot::Error { organization_id, last_updated_at, error_message }
            && organization_id is None && last_updated_at@ == observed_at@ && opt_view(
            error_message,
        ) == Some(message@),
{
    ClaudeUsageSnapshot::Error {
        organization_id: None,
        last_updated_at: observed_at.to_owned(),
        error_message: Some(message.to_owned()),
    }
}

pub fn codex_missing_cookie_snapshot(message: &str, observed_at: &str) -> (r: CodexUsageSnapshot)
    ensures
        r matches CodexUsageSnapshot::MissingKey { last_updated_at, error_message }
            && last_updated_at@ == observed_at@ && opt_view(error_message) == Some(message@),
{
    CodexUsageSnapshot::MissingKey {
        last_updated_at: observed_at.to_owned(),
        error_message: Some(message.to_owned()),
    }
}

/// What the secret store reported when a credential was needed.
#[derive(Debug, Clone)]
pub enum SecretOutcome {
    Present(String),
    Absent,
    Unavailable,
}

/// The web source's credential step: a present key proceeds, an absent one
/// is a missing-key snapshot, and a keychain failure is the missing-key
/// shape flagged as a keyring error for caller-level reporting.
pub fn claude_web_key_step(outcome: SecretOutcome, observed_at: &str) -> (r: Result<
    String,
    (ClaudeUsageSnapshot, bool),
>)
    ensures
        match outcome {
            SecretOutcome::Present(k) => r matches Ok(key) && key@ == k@,
            SecretOutcome::Absent => r matches Err((snap, keyring_error)) && keyring_error == false
                && (snap matches ClaudeUsageSnapshot::MissingKey { error_message, .. } && opt_view(
                error_message,
            ) == Some("Session key is not configured."@)),
            SecretOutcome::Unavailable => r matches Err((snap, keyring_error)) && keyring_error
                == true && (snap matches ClaudeUsageSnapshot::MissingKey { error_message, .. }
                && opt_view(error_message) == Some(
                "OS keychain/secret service is unavailable."@,
            )),
        },
{
    match outcome {
        SecretOutcome::Present(k) => Ok(k),
        SecretOutcome::Absent => Err((claude_missing_key_snapshot(observed_at), false)),
        SecretOutcome::Unavailable => Err(
            (
                ClaudeUsageSnapshot::MissingKey {
                    organization_id: None,
                    last_updated_at: observed_at.to_owned(),
                    error_message: Some("OS keychain/secret service is unavailable.".to_owned()),
                },
                true,
            ),
        ),
    }
}

/// Whether the stored scope is present among the fetched organizations.
pub open spec fn has_org(orgs: Seq<ClaudeOrganization>, id: Seq<char>) -> bool {
    exists|i: int| 0 <= i < orgs.len() && (#[trigger] orgs[i]).id@ == id
}

/// The scope to poll: the previously selected organization if the list
/// still holds it, else the first of the list, else nothing.
pub fn choose_organization(orgs: &Vec<ClaudeOrganization>, stored: &Option<String>) -> (r: Option<
    String,
>)
    ensures
        match *stored {
            Some(s) => if has_org(orgs@, s@) {
                r matches Some(id) && id@ == s@
            } else if orgs@.len() > 0 {
                r matches Some(id) && id@ == orgs@[0].id@
            } else {
                r is None
            },
            None => if orgs@.len() > 0 {
                r matches Some(id) && id@ == orgs@[0].id@
            } else {
                r is None
            },
        },
{
    match stored {
        Some(s) => {
            let mut i: usize = 0;
            while i < orgs.len()
                invariant
                    0 <= i <= orgs@.len(),
                    *stored matches Some(ss) && ss == *s,
                    forall|k: int| 0 <= k < i ==> (#[trigger] orgs@[k]).id@ != s@,
                decreases orgs@.len() - i,
            {
                if eq_str(orgs[i].id.as_str(), s.as_str()) {
                    proof {
                        assert((orgs@[i as int]).id@ == s@);
                        assert(has_org(orgs@, s@));
                    }
                    return Some(s.clone());
                }
                i = i + 1;
            }
            proof {
                assert(!has_org(orgs@, s@));
            }
            if orgs.len() > 0 {
                Some(orgs[0].id.clone())
            } else {
                None
            }
        },
        None => {
            if orgs.len() > 0 {
                Some(orgs[0].id.clone())
            } else {
                None
            }
        },
    }
}

/// The snapshot shown when organization resolution fails.
pub fn claude_org_failure_snapshot(
    status: &crate::claude::ClaudeWebErrorStatus,
    observed_at: &str,
) -> (r: ClaudeUsageSnapshot)
    ensures
        match *status {
            crate::claude::ClaudeWebErrorStatus::Unauthorized => r
                matches ClaudeUsageSnapshot::Unauthorized { error_message, .. } && opt_view(
                error_message,
            ) == Some("Unauthorized."@),
            crate::claude::ClaudeWebErrorStatus::RateLimited => r
                matches ClaudeUsageSnapshot::RateLimited { error_message, .. } && opt_view(
                error_message,
            ) == Some("Rate limited."@),
            crate::claude::ClaudeWebErrorStatus::Error => r
                matches ClaudeUsageSnapshot::Error { error_message, .. } && opt_view(error_message)
                == Some("Failed to fetch organizations."@),
        },
{
    match status {
        crate::claude::ClaudeWebErrorStatus::Unauthorized => claude_unauthorized_snapshot(
            "Unauthorized.",
            observed_at,
        ),
        crate::claude::ClaudeWebErrorStatus::RateLimited => claude_rate_limited_snapshot(
            "Rate limited.",
            observed_at,
        ),
        crate::claude::ClaudeWebErrorStatus::Error => claude_error_snapshot(
            "Failed to fetch organizations.",
            observed_at,
        ),
    }
}

/// The organization list with the instant it was fetched, kept for a fixed
/// time to avoid per-poll redundant calls.
pub struct OrgsCache {
    entry: Option<(Vec<ClaudeOrganization>, u64)>,
}

impl OrgsCache {
    pub closed spec fn spec_entry(&self) -> Option<(Seq<ClaudeOrganization>, u64)> {
        match self.entry {
            Some((ref orgs, at)) => Some((orgs@, at)),
            None => None,
        }
    }

    pub fn new() -> (r: Self)
        ensures
            r.spec_entry() is None,
    {
        OrgsCache { entry: None }
    }

    /// The cached list, when one was stored within the TTL before `now_ms`.
    pub fn cached(&self, now_ms: u64) -> (r: Option<&Vec<ClaudeOrganization>>)
        ensures
            match self.spec_entry() {
                Some((orgs, at)) => if at <= now_ms && now_ms - at < ORGS_CACHE_TTL_MS {
                    r matches Some(v) && v@ == orgs
                } else {
                    r is None
                },
                None => r is None,
            },
    {
        match &self.entry {
            Some((orgs, at)) => {
                if *at <= now_ms && now_ms - *at < ORGS_CACHE_TTL_MS {
                    Some(orgs)
                } else {
                    None
                }
            },
            None => None,
        }
    }

    pub fn store(&mut self, orgs: Vec<ClaudeOrganization>, now_ms: u64)
        ensures
            final(self).spec_entry() == Some((orgs@, now_ms)),
    {
        self.entry = Some((orgs, now_ms));
    }

    pub fn invalidate(&mut self)
        ensures
            final(self).spec_entry() is None,
    {
        self.entry = None;
    }
}

/// Index of the snapshot the auto-fallback chain keeps: the first success
/// if any attempt succeeded, else the first attempt — the most actionable
/// error, not the last.
pub fn auto_fallback_choice(attempts: &Vec<CodexUsageSnapshot>) -> (r: Option<usize>)
    ensures
        match r {
            Some(i) => {
                &&& 0 <= i < attempts@.len()
                &&& if exists|j: int|
                    0 <= j < attempts@.len() && (#[trigger] attempts@[j].spec_status())
                        == UsageStatus::Success {
                    attempts@[i as int].spec_status() == UsageStatus::Success && forall|j: int|
                        0 <= j < i ==> (#[trigger] attempts@[j].spec_status())
                            != UsageStatus::Success
                } else {
                    i == 0
                }
            },
            None => attempts@.len() == 0,
        },
{
    let mut i: usize = 0;
    while i < attempts.len()
        invariant
            0 <= i <= attempts@.len(),
            forall|j: int| 0 <= j < i ==> (#[trigger] attempts@[j].spec_status())
                != UsageStatus::Success,
        decreases attempts@.len() - i,
    {
        if attempts[i].status() == UsageStatus::Success {
            return Some(i);
        }
        i = i + 1;
    }
    if attempts.len() > 0 {
        Some(0)
    } else {
        None
    }
}

/// The organization-scoped provider's source setting: an explicit `cli` chooses the
/// CLI, any other stored value the web; with nothing stored, present CLI
/// credentials win.
pub fn usage_source_from_setting(value: &Option<String>, cli_credentials_present: bool) -> (r:
    UsageSource)
    ensures
        match *value {
            Some(v) => r == if v@ == "cli"@ {
                UsageSource::Cli
            } else {
                UsageSource::Web
            },
            None => r == if cli_credentials_present {
                UsageSource::Cli
            } else {
                UsageSource::Web
            },
        },
{
    match value {
        Some(v) => {
            if eq_str(v.as_str(), "cli") {
                UsageSource::Cli
            } else {
                UsageSource::Web
            }
        },
        None => {
            if cli_credentials_present {
                UsageSource::Cli
            } else {
                UsageSource::Web
            }
        },
    }
}

/// The Codex source configured in settings; anything unrecognized falls
/// back to the auto chain.
pub fn codex_usage_source_from_setting(value: &Option<String>) -> (r: CodexUsageSource)
    ensures
        match *value {
            Some(v) => r == if v@ == "oauth"@ {
                CodexUsageSource::Oauth
            } else if v@ == "web"@ {
                CodexUsageSource::Web
            } else if v@ == "cli"@ {
                CodexUsageSource::Cli
            } else {
                CodexUsageSource::Auto
            },
            None => r == CodexUsageSource::Auto,
        },
{
    match value {
        Some(v) => {
            if eq_str(v.as_str(), "oauth") {
                CodexUsageSource::Oauth
            } else if eq_str(v.as_str(), "web") {
                CodexUsageSource::Web
            } else if eq_str(v.as_str(), "cli") {
                CodexUsageSource::Cli
            } else {
                CodexUsageSource::Auto
            }
        },
        None => CodexUsageSource::Auto,
    }
}

/// The checks a save request must pass before anything is persisted.
pub fn validate_save_settings(payload: &SaveSettingsPayload) -> (r: Option<IpcError>)
    ensures
        payload.refresh_interval_seconds < 30 <==> (r matches Some(e) && e.code@ == "VALIDATION"@
            && e.message@ == "Refresh interval must be >= 30 seconds."@),
{
    if payload.refresh_interval_seconds < 30 {
        Some(
            IpcError {
                code: "VALIDATION".to_owned(),
                message: "Refresh interval must be >= 30 seconds.".to_owned(),
            },
        )
    } else {
        None
    }
}

/// The simulation override: when active, polling is bypassed and a bundle
/// is synthesized from these operator-supplied values.
#[derive(Debug, Clone)]
pub struct DebugOverride {
    pub active: bool,
    pub organization_id: String,
    /// Hundredths of a percent, clamped to [0, 100].
    pub session_percent: u32,
    /// Hundredths of a percent, clamped to [0, 100].
    pub weekly_percent: u32,
    pub session_resets_at: String,
    pub weekly_resets_at: String,
}

impl DebugOverride {
    pub open spec fn wf(&self) -> bool {
        valid_percent(self.session_percent) && valid_percent(self.weekly_percent)
    }

    pub fn new() -> (r: Self)
        ensures
            r.wf(),
            r.active == false,
            r.organization_id@ == "debug"@,
            r.session_percent == 5000,
            r.weekly_percent == 5000,
            r.session_resets_at@ == "2099-01-01T05:00:00.000Z"@,
            r.weekly_resets_at@ == "2099-01-08T00:00:00.000Z"@,
    {
        DebugOverride {
            active: false,
            organization_id: "debug".to_owned(),
            session_percent: 5000,
            weekly_percent: 5000,
            session_resets_at: "2099-01-01T05:00:00.000Z".to_owned(),
            weekly_resets_at: "2099-01-08T00:00:00.000Z".to_owned(),
        }
    }

    /// The synthesized organization-scoped snapshot: the configured percentages and
    /// windows, with two fixed sub-metrics (the second at 70% of the weekly
    /// value) so the alert and display paths have data to walk.
    pub fn claude_snapshot(&self) -> (r: ClaudeUsageSnapshot)
        requires
            self.wf(),
        ensures
            r matches ClaudeUsageSnapshot::Success {
                organization_id,
                session_percent,
                session_resets_at,
                weekly_percent,
                weekly_resets_at,
                models,
                ..
            } && organization_id@ == self.organization_id@ && session_percent
                == self.session_percent && opt_view(session_resets_at) == Some(
                self.session_resets_at@,
            ) && weekly_percent == self.weekly_percent && opt_view(weekly_resets_at) == Some(
                self.weekly_resets_at@,
            ) && models@.len() == 2 && models@[0].name@ == "Sonnet"@ && models@[0].percent
                == self.weekly_percent && models@[1].name@ == "Opus"@ && models@[1].percent
                == self.weekly_percent * 7 / 10,
            r.wf(),
    {
        let mut models: Vec<ClaudeModelUsage> = Vec::new();
        models.push(
            ClaudeModelUsage {
                name: "Sonnet".to_owned(),
                percent: self.weekly_percent,
                resets_at: Some(self.weekly_resets_at.clone()),
            },
        );
        models.push(
            ClaudeModelUsage {
                name: "Opus".to_owned(),
                percent: self.weekly_percent * 7 / 10,
                resets_at: Some(self.weekly_resets_at.clone()),
            },
        );
        ClaudeUsageSnapshot::Success {
            organization_id: self.organization_id.clone(),
            session_percent: self.session_percent,
            session_resets_at: Some(self.session_resets_at.clone()),
            weekly_percent: self.weekly_percent,
            weekly_resets_at: Some(self.weekly_resets_at.clone()),
            models,
            last_updated_at: now_rfc3339(),
        }
    }

    /// The synthesized Codex snapshot.
    pub fn codex_snapshot(&self) -> (r: CodexUsageSnapshot)
        requires
            self.wf(),
        ensures
            r matches CodexUsageSnapshot::Success {
                session_percent,
                session_resets_at,
                weekly_percent,
                weekly_resets_at,
                ..
            } && session_percent == self.session_percent && opt_view(session_resets_at) == Some(
                self.session_resets_at@,
            ) && weekly_percent == self.weekly_percent && opt_view(weekly_resets_at) == Some(
                self.weekly_resets_at@,
            ),
            r.wf(),
    {
        CodexUsageSnapshot::Success {
            session_percent: self.session_percent,
            session_resets_at: Some(self.session_resets_at.clone()),
            weekly_percent: self.weekly_percent,
            weekly_resets_at: Some(self.weekly_resets_at.clone()),
            last_updated_at: now_rfc3339(),
        }
    }

    /// The synthesized bundle, one snapshot per enabled provider.
    pub fn usage_bundle(&self, track_claude: bool, track_codex: bool) -> (r: UsageSnapshotBundle)
        requires
            self.wf(),
        ensures
            r.claude is Some <==> track_claude,
            r.codex is Some <==> track_codex,
    {
        UsageSnapshotBundle {
            claude: if track_claude {
                Some(self.claude_snapshot())
            } else {
                None
            },
            codex: if track_codex {
                Some(self.codex_snapshot())
            } else {
                None
            },
        }
    }
}

} // verus!
