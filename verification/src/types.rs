//! Core data model: snapshot variants per provider, the per-poll bundle, and
//! the plain values shared with the display layer.
//!
//! Percentages are held in hundredths of a percent (`0 ..= 10_000`), so that
//! the clamping rule "a utilization percentage lies in [0, 100]" is the
//! integer invariant `p <= 10_000`.

use vstd::prelude::*;

verus! {

/// Upper bound of a clamped percentage, in hundredths of a percent.
pub const PERCENT_MAX_HUNDREDTHS: u32 = 10000;

/// A percentage in hundredths of a percent, clamped to [0, 100].
pub open spec fn valid_percent(p: u32) -> bool {
    p <= PERCENT_MAX_HUNDREDTHS
}

#[derive(Debug, Clone, Copy, PartialEq, Eq, Structural)]
pub enum UsageStatus {
    Success,
    Unauthorized,
    RateLimited,
    Error,
    MissingKey,
}

#[derive(Debug, Clone, Copy, PartialEq, Eq, Structural)]
pub enum UsageProvider {
    Claude,
    Codex,
}

#[derive(Debug, Clone, Copy, PartialEq, Eq, Structural)]
pub enum UsageSource {
    Web,
    Cli,
}

#[derive(Debug, Clone, Copy, PartialEq, Eq, Structural)]
pub enum CodexUsageSource {
    Auto,
    Oauth,
    Web,
    Cli,
}

/// Weekly usage of one named model, folded into a snapshot's sub-metrics.
#[derive(Debug, Clone)]
pub struct ClaudeModelUsage {
    pub name: String,
    /// Hundredths of a percent, clamped to [0, 100].
    pub percent: u32,
    pub resets_at: Option<String>,
}

impl ClaudeModelUsage {
    pub open spec fn wf(&self) -> bool {
        valid_percent(self.percent)
    }
}

#[derive(Debug, Clone)]
pub enum ClaudeUsageSnapshot {
    Success {
        organization_id: String,
        /// Hundredths of a percent, clamped to [0, 100].
        session_percent: u32,
        session_resets_at: Option<String>,
        /// Hundredths of a percent, clamped to [0, 100].
        weekly_percent: u32,
        weekly_resets_at: Option<String>,
        models: Vec<ClaudeModelUsage>,
        last_updated_at: String,
    },
    Unauthorized {
        organization_id: Option<String>,
        last_updated_at: String,
        error_message: Option<String>,
    },
    RateLimited {
        organization_id: Option<String>,
        last_updated_at: String,
        error_message: Option<String>,
    },
    Error {
        organization_id: Option<String>,
        last_updated_at: String,
        error_message: Option<String>,
    },
    MissingKey {
        organization_id: Option<String>,
        last_updated_at: String,
        error_message: Option<String>,
    },
}

impl ClaudeUsageSnapshot {
    /// Percentages of an `Ok` snapshot are clamped; other variants carry none.
    pub open spec fn wf(&self) -> bool {
        match self {
            ClaudeUsageSnapshot::Success { session_percent, weekly_percent, models, .. } => {
                &&& valid_percent(*session_percent)
                &&& valid_percent(*weekly_percent)
                &&& forall|i: int| 0 <= i < models@.len() ==> (#[trigger] models@[i]).wf()
            },
            _ => true,
        }
    }

    pub open spec fn spec_status(&self) -> UsageStatus {
        match self {
            ClaudeUsageSnapshot::Success { .. } => UsageStatus::Success,
            ClaudeUsageSnapshot::Unauthorized { .. } => UsageStatus::Unauthorized,
            ClaudeUsageSnapshot::RateLimited { .. } => UsageStatus::RateLimited,
            ClaudeUsageSnapshot::Error { .. } => UsageStatus::Error,
            ClaudeUsageSnapshot::MissingKey { .. } => UsageStatus::MissingKey,
        }
    }

    pub fn status(&self) -> (s: UsageStatus)
        ensures
            s == self.spec_status(),
    {
        match self {
            ClaudeUsageSnapshot::Success { .. } => UsageStatus::Success,
            ClaudeUsageSnapshot::Unauthorized { .. } => UsageStatus::Unauthorized,
            ClaudeUsageSnapshot::RateLimited { .. } => UsageStatus::RateLimited,
            ClaudeUsageSnapshot::Error { .. } => UsageStatus::Error,
            ClaudeUsageSnapshot::MissingKey { .. } => UsageStatus::MissingKey,
        }
    }

    pub open spec fn spec_last_updated_at(&self) -> Seq<char> {
        match self {
            ClaudeUsageSnapshot::Success { last_updated_at, .. } => last_updated_at@,
            ClaudeUsageSnapshot::Unauthorized { last_updated_at, .. } => last_updated_at@,
            ClaudeUsageSnapshot::RateLimited { last_updated_at, .. } => last_updated_at@,
            ClaudeUsageSnapshot::Error { last_updated_at, .. } => last_updated_at@,
            ClaudeUsageSnapshot::MissingKey { last_updated_at, .. } => last_updated_at@,
        }
    }

    pub fn last_updated_at(&self) -> (r: &str)
        ensures
            r@ == self.spec_last_updated_at(),
    {
        match self {
            ClaudeUsageSnapshot::Success { last_updated_at, .. } => last_updated_at.as_str(),
            ClaudeUsageSnapshot::Unauthorized { last_updated_at, .. } => last_updated_at.as_str(),
            ClaudeUsageSnapshot::RateLimited { last_updated_at, .. } => last_updated_at.as_str(),
            ClaudeUsageSnapshot::Error { last_updated_at, .. } => last_updated_at.as_str(),
            ClaudeUsageSnapshot::MissingKey { last_updated_at, .. } => last_updated_at.as_str(),
        }
    }
}

#[derive(Debug, Clone)]
pub enum CodexUsageSnapshot {
    Success {
        /// Hundredths of a percent, clamped to [0, 100].
        session_percent: u32,
        session_resets_at: Option<String>,
        /// Hundredths of a percent, clamped to [0, 100].
        weekly_percent: u32,
        weekly_resets_at: Option<String>,
        last_updated_at: String,
    },
    Unauthorized {
        last_updated_at: String,
        error_message: Option<String>,
    },
    RateLimited {
        last_updated_at: String,
        error_message: Option<String>,
    },
    Error {
        last_updated_at: String,
        error_message: Option<String>,
    },
    MissingKey {
        last_updated_at: String,
        error_message: Option<String>,
    },
}

impl CodexUsageSnapshot {
    pub open spec fn wf(&self) -> bool {
        match self {
            CodexUsageSnapshot::Success { session_percent, weekly_percent, .. } => {
                &&& valid_percent(*session_percent)
                &&& valid_percent(*weekly_percent)
            },
            _ => true,
        }
    }

    pub open spec fn spec_status(&self) -> UsageStatus {
        match self {
            CodexUsageSnapshot::Success { .. } => UsageStatus::Success,
            CodexUsageSnapshot::Unauthorized { .. } => UsageStatus::Unauthorized,
            CodexUsageSnapshot::RateLimited { .. } => UsageStatus::RateLimited,
            CodexUsageSnapshot::Error { .. } => UsageStatus::Error,
            CodexUsageSnapshot::MissingKey { .. } => UsageStatus::MissingKey,
        }
    }

    pub fn status(&self) -> (s: UsageStatus)
        ensures
            s == self.spec_status(),
    {
        match self {
            CodexUsageSnapshot::Success { .. } => UsageStatus::Success,
            CodexUsageSnapshot::Unauthorized { .. } => UsageStatus::Unauthorized,
            CodexUsageSnapshot::RateLimited { .. } => UsageStatus::RateLimited,
            CodexUsageSnapshot::Error { .. } => UsageStatus::Error,
            CodexUsageSnapshot::MissingKey { .. } => UsageStatus::MissingKey,
        }
    }

    pub open spec fn spec_last_updated_at(&self) -> Seq<char> {
        match self {
            CodexUsageSnapshot::Success { last_updated_at, .. } => last_updated_at@,
            CodexUsageSnapshot::Unauthorized { last_updated_at, .. } => last_updated_at@,
            CodexUsageSnapshot::RateLimited { last_updated_at, .. } => last_updated_at@,
            CodexUsageSnapshot::Error { last_updated_at, .. } => last_updated_at@,
            CodexUsageSnapshot::MissingKey { last_updated_at, .. } => last_updated_at@,
        }
    }

    pub fn last_updated_at(&self) -> (r: &str)
        ensures
            r@ == self.spec_last_updated_at(),
    {
        match self {
            CodexUsageSnapshot::Success { last_updated_at, .. } => last_updated_at.as_str(),
            CodexUsageSnapshot::Unauthorized { last_updated_at, .. } => last_updated_at.as_str(),
            CodexUsageSnapshot::RateLimited { last_updated_at, .. } => last_updated_at.as_str(),
            CodexUsageSnapshot::Error { last_updated_at, .. } => last_updated_at.as_str(),
            CodexUsageSnapshot::MissingKey { last_updated_at, .. } => last_updated_at.as_str(),
        }
    }
}

/// One snapshot tagged with the provider it came from.
#[derive(Debug, Clone)]
pub enum UsageSnapshot {
    Claude { snapshot: ClaudeUsageSnapshot },
    Codex { snapshot: CodexUsageSnapshot },
}

impl UsageSnapshot {
    pub open spec fn spec_provider(&self) -> UsageProvider {
        match self {
            UsageSnapshot::Claude { .. } => UsageProvider::Claude,
            UsageSnapshot::Codex { .. } => UsageProvider::Codex,
        }
    }

    pub fn provider(&self) -> (p: UsageProvider)
        ensures
            p == self.spec_provider(),
    {
        match self {
            UsageSnapshot::Claude { .. } => UsageProvider::Claude,
            UsageSnapshot::Codex { .. } => UsageProvider::Codex,
        }
    }

    pub open spec fn spec_status(&self) -> UsageStatus {
        match self {
            UsageSnapshot::Claude { snapshot } => snapshot.spec_status(),
            UsageSnapshot::Codex { snapshot } => snapshot.spec_status(),
        }
    }

    pub fn status(&self) -> (s: UsageStatus)
        ensures
            s == self.spec_status(),
    {
        match self {
            UsageSnapshot::Claude { snapshot } => snapshot.status(),
            UsageSnapshot::Codex { snapshot } => snapshot.status(),
        }
    }

    pub open spec fn spec_last_updated_at(&self) -> Seq<char> {
        match self {
            UsageSnapshot::Claude { snapshot } => snapshot.spec_last_updated_at(),
            UsageSnapshot::Codex { snapshot } => snapshot.spec_last_updated_at(),
        }
    }

    pub fn last_updated_at(&self) -> (r: &str)
        ensures
            r@ == self.spec_last_updated_at(),
    {
        match self {
            UsageSnapshot::Claude { snapshot } => snapshot.last_updated_at(),
            UsageSnapshot::Codex { snapshot } => snapshot.last_updated_at(),
        }
    }
}

/// At most one snapshot per enabled provider; built fresh on every poll and
/// replaced whole, never partially mutated.
#[derive(Debug, Clone)]
pub struct UsageSnapshotBundle {
    pub claude: Option<ClaudeUsageSnapshot>,
    pub codex: Option<CodexUsageSnapshot>,
}

impl UsageSnapshotBundle {
    pub open spec fn wf(&self) -> bool {
        &&& match self.claude {
            Some(s) => s.wf(),
            None => true,
        }
        &&& match self.codex {
            Some(s) => s.wf(),
            None => true,
        }
    }
}

#[derive(Debug, Clone)]
pub struct ClaudeOrganization {
    pub id: String,
    pub name: Option<String>,
}

#[derive(Debug, Clone)]
pub struct IpcError {
    pub code: String,
    pub message: String,
}

#[derive(Debug, Clone)]
pub enum IpcResult<T> {
    Success { ok: bool, value: T },
    Failure { ok: bool, error: IpcError },
}

impl<T> IpcResult<T> {
    pub fn ok(value: T) -> (r: Self)
        ensures
            r matches IpcResult::Success { ok, value: v } && ok == true && v == value,
    {
        IpcResult::Success { ok: true, value }
    }

    pub fn err(code: &str, message: &str) -> (r: Self)
        ensures
            r matches IpcResult::Failure { ok, error } && ok == false && error.code@ == code@
                && error.message@ == message@,
    {
        IpcResult::Failure {
            ok: false,
            error: IpcError { code: code.to_owned(), message: message.to_owned() },
        }
    }
}

/// What the settings view shows; assembled by the shell from the store,
/// the autostart collaborator, and the latest snapshot.
#[derive(Debug, Clone)]
pub struct SettingsState {
    pub provider: UsageProvider,
    pub usage_source: UsageSource,
    pub remember_session_key: bool,
    pub codex_usage_source: CodexUsageSource,
    pub remember_codex_cookie: bool,
    pub refresh_interval_seconds: u64,
    pub notify_on_usage_reset: bool,
    pub autostart_enabled: bool,
    pub check_updates_on_startup: bool,
    pub organizations: Vec<ClaudeOrganization>,
    pub selected_organization_id: Option<String>,
    pub latest_snapshot: Option<UsageSnapshot>,
    pub keyring_available: bool,
}

/// What the settings view submits to be saved.
#[derive(Debug, Clone)]
pub struct SaveSettingsPayload {
    pub provider: UsageProvider,
    pub usage_source: UsageSource,
    pub session_key: Option<String>,
    pub remember_session_key: bool,
    pub codex_usage_source: CodexUsageSource,
    pub codex_cookie: Option<String>,
    pub remember_codex_cookie: bool,
    pub refresh_interval_seconds: u64,
    pub notify_on_usage_reset: bool,
    pub autostart_enabled: bool,
    pub check_updates_on_startup: bool,
    pub selected_organization_id: Option<String>,
}

} // verus!
