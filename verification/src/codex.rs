//! The Codex fetch client's logic: cookie normalization, the OAuth
//! credential file's content, the usage response document, the helper
//! process's line protocol, and the mapping of every outcome to a
//! normalized snapshot.
//!
//! HTTP and the helper process live outside the library; their responses
//! arrive here as plain values. The line-correlation rule of the RPC
//! protocol — lines with a foreign `id` are skipped, an `error.message`
//! fails the call with redacted text — is decided here, per line.

use serde_json::Value;
use vstd::prelude::*;

use crate::claude::{cleaned_timestamp, WebFetchResult};
use crate::clock::{epoch_seconds_to_rfc3339, rfc3339_of_epoch};
use crate::percent::{
    clamp_percent_whole,
    clamp_whole_percent,
    parse_percent_hundredths,
    percent_from_text,
    round_to_whole_percent,
    round_whole,
};
use crate::redact::{redact_secrets, redact_secrets_spec};
use crate::strings::{opt_view, trim_of, trim_spec};
use crate::types::{CodexUsageSnapshot};

verus! {

#[derive(Debug, Clone, Copy, PartialEq, Eq, Structural)]
pub enum CodexHttpErrorStatus {
    Unauthorized,
    RateLimited,
    Error,
}

pub open spec fn spec_map_http_status(status_code: u16) -> CodexHttpErrorStatus {
    if status_code == 401 || status_code == 403 {
        CodexHttpErrorStatus::Unauthorized
    } else if status_code == 429 {
        CodexHttpErrorStatus::RateLimited
    } else {
        CodexHttpErrorStatus::Error
    }
}

pub fn map_http_status(status_code: u16) -> (r: CodexHttpErrorStatus)
    ensures
        r == spec_map_http_status(status_code),
{
    match status_code {
        401 | 403 => CodexHttpErrorStatus::Unauthorized,
        429 => CodexHttpErrorStatus::RateLimited,
        _ => CodexHttpErrorStatus::Error,
    }
}

/// The normalized cookie header value: trimmed, a leading `cookie:` label
/// (any ASCII case) dropped and the remainder trimmed again, with blank
/// collapsing to absent.
pub open spec fn normalized_cookie(value: Seq<char>) -> Option<Seq<char>> {
    let trimmed = trim_spec(value);
    if trimmed.len() == 0 {
        None
    } else if crate::redact::ci_matches_at(trimmed, "cookie:"@, 0) {
        let rest = trim_spec(trimmed.skip(7));
        if rest.len() == 0 {
            None
        } else {
            Some(rest)
        }
    } else {
        Some(trimmed)
    }
}

pub fn normalize_cookie_value(value: &str) -> (r: Option<String>)
    ensures
        opt_view(r) == normalized_cookie(value@),
{
    proof {
        reveal_strlit("cookie:");
    }
    let trimmed = trim_of(value);
    let ts = trimmed.as_str();
    let len = ts.unicode_len();
    if len == 0 {
        return None;
    }
    if crate::redact::ci_match_at(ts, "cookie:", 0) {
        let rest = trim_of(ts.substring_char(7, len));
        proof {
            assert(ts@.subrange(7, len as int) =~= ts@.skip(7));
        }
        if rest.as_str().unicode_len() == 0 {
            None
        } else {
            Some(rest)
        }
    } else {
        Some(trimmed)
    }
}

#[derive(Debug, Clone, Copy, PartialEq, Eq, Structural)]
pub enum CodexCredentialsError {
    HomeMissing,
    MissingFile,
    MissingAccessToken,
    InvalidJson,
}

#[derive(Debug, Clone)]
pub struct CodexOAuthCredentials {
    pub access_token: String,
    pub account_id: Option<String>,
}

/// What `serde_json` finds in the Codex auth file: `None` when the content
/// is not JSON, otherwise the `tokens.access_token` and `tokens.account_id`
/// strings as found (untrimmed). A function of the content alone.
pub uninterp spec fn codex_auth_of(s: Seq<char>) -> Option<(Option<Seq<char>>, Option<Seq<char>>)>;

/// Relies on `serde_json::from_str` and `Value`'s accessors (`get`,
/// `as_str`) to read the token fields out of the auth file content.
#[verifier::external_body]
fn parse_codex_auth(contents: &str) -> (r: Option<(Option<String>, Option<String>)>)
    ensures
        match r {
            Some(t) => codex_auth_of(contents@) == Some(
                (
                    match t.0 {
                        Some(a) => Some(a@),
                        None => None::<Seq<char>>,
                    },
                    match t.1 {
                        Some(a) => Some(a@),
                        None => None::<Seq<char>>,
                    },
                ),
            ),
            None => codex_auth_of(contents@) is None,
        },
{
    let v: Value = serde_json::from_str(contents).ok()?;
    let tokens = v.get("tokens");
    Some((
        tokens.and_then(|t| t.get("access_token")).and_then(|x| x.as_str()).map(String::from),
        tokens.and_then(|t| t.get("account_id")).and_then(|x| x.as_str()).map(String::from),
    ))
}

/// Read the OAuth credentials out of the auth file's content: the access
/// token is required and trimmed, the account id is optional with blank
/// collapsing to absent.
pub fn read_codex_oauth_credentials_from_contents(contents: &str) -> (r: Result<
    CodexOAuthCredentials,
    CodexCredentialsError,
>)
    ensures
        match codex_auth_of(contents@) {
            None => r == Err::<CodexOAuthCredentials, CodexCredentialsError>(
                CodexCredentialsError::InvalidJson,
            ),
            Some(t) => match t.0 {
                None => r == Err::<CodexOAuthCredentials, CodexCredentialsError>(
                    CodexCredentialsError::MissingAccessToken,
                ),
                Some(tok) => if trim_spec(tok).len() == 0 {
                    r == Err::<CodexOAuthCredentials, CodexCredentialsError>(
                        CodexCredentialsError::MissingAccessToken,
                    )
                } else {
                    r matches Ok(c) && c.access_token@ == trim_spec(tok) && opt_view(c.account_id)
                        == cleaned_timestamp(t.1)
                },
            },
        },
{
    match parse_codex_auth(contents) {
        None => Err(CodexCredentialsError::InvalidJson),
        Some((access_token, account_id)) => {
            let token = match access_token {
                None => {
                    return Err(CodexCredentialsError::MissingAccessToken);
                },
                Some(t) => t,
            };
            let token = trim_of(token.as_str());
            if token.as_str().unicode_len() == 0 {
                return Err(CodexCredentialsError::MissingAccessToken);
            }
            let account_id = crate::claude::read_timestamp(&account_id);
            Ok(CodexOAuthCredentials { access_token: token, account_id })
        },
    }
}

/// One usage window as the API reports it: a whole-number percentage and an
/// epoch-second reset time.
#[derive(Debug, Clone, Copy, PartialEq, Eq, Structural)]
pub struct CodexWindow {
    pub used_percent: i64,
    pub reset_at: i64,
}

/// What `serde_json` finds in a Codex usage response body: `None` when the
/// body is not JSON; otherwise the primary and secondary windows under
/// `rate_limit`, each present exactly when its object carries integer
/// `used_percent` and `reset_at` fields. A function of the body alone.
pub uninterp spec fn codex_usage_of(s: Seq<char>) -> Option<
    (Option<CodexWindow>, Option<CodexWindow>),
>;

/// Relies on `serde_json::from_str` and `Value`'s accessors (`get`,
/// `as_i64`) to flatten a usage response body into its two windows.
#[verifier::external_body]
fn parse_codex_usage(body: &str) -> (r: Option<(Option<CodexWindow>, Option<CodexWindow>)>)
    ensures
        match r {
            Some(w) => codex_usage_of(body@) == Some(w),
            None => codex_usage_of(body@) is None,
        },
{
    let v: Value = serde_json::from_str(body).ok()?;
    let rate = v.get("rate_limit");
    let window = |key: &str| -> Option<CodexWindow> {
        let w = rate.and_then(|r| r.get(key))?;
        Some(CodexWindow {
            used_percent: w.get("used_percent").and_then(|x| x.as_i64())?,
            reset_at: w.get("reset_at").and_then(|x| x.as_i64())?,
        })
    };
    Some((window("primary_window"), window("secondary_window")))
}

/// What a success snapshot holds for a pair of reported windows: clamped
/// percentages and the RFC 3339 rendering of each reset time.
pub open spec fn codex_success_follows(
    r: CodexUsageSnapshot,
    primary: CodexWindow,
    secondary: CodexWindow,
    observed_at: Seq<char>,
) -> bool {
    &&& r matches CodexUsageSnapshot::Success {
        session_percent,
        session_resets_at,
        weekly_percent,
        weekly_resets_at,
        last_updated_at,
    }
    &&& session_percent == clamp_whole_percent(primary.used_percent as int)
    &&& opt_view(session_resets_at) == rfc3339_of_epoch(primary.reset_at)
    &&& weekly_percent == clamp_whole_percent(secondary.used_percent as int)
    &&& opt_view(weekly_resets_at) == rfc3339_of_epoch(secondary.reset_at)
    &&& last_updated_at@ == observed_at
}

/// Build the success snapshot from the two reported windows.
pub fn ok_snapshot(primary: &CodexWindow, secondary: &CodexWindow, observed_at: &str) -> (r:
    CodexUsageSnapshot)
    ensures
        codex_success_follows(r, *primary, *secondary, observed_at@),
        r.wf(),
{
    CodexUsageSnapshot::Success {
        session_percent: clamp_percent_whole(primary.used_percent),
        session_resets_at: epoch_seconds_to_rfc3339(primary.reset_at),
        weekly_percent: clamp_percent_whole(secondary.used_percent),
        weekly_resets_at: epoch_seconds_to_rfc3339(secondary.reset_at),
        last_updated_at: observed_at.to_owned(),
    }
}

pub fn unauthorized_snapshot(message: &str, observed_at: &str) -> (r: CodexUsageSnapshot)
    ensures
        r matches CodexUsageSnapshot::Unauthorized { last_updated_at, error_message }
            && last_updated_at@ == observed_at@ && opt_view(error_message) == Some(message@),
{
    CodexUsageSnapshot::Unauthorized {
        last_updated_at: observed_at.to_owned(),
        error_message: Some(message.to_owned()),
    }
}

pub fn rate_limited_snapshot(message: &str, observed_at: &str) -> (r: CodexUsageSnapshot)
    ensures
        r matches CodexUsageSnapshot::RateLimited { last_updated_at, error_message }
            && last_updated_at@ == observed_at@ && opt_view(error_message) == Some(message@),
{
    CodexUsageSnapshot::RateLimited {
        last_updated_at: observed_at.to_owned(),
        error_message: Some(message.to_owned()),
    }
}

pub fn error_snapshot(message: &str, observed_at: &str) -> (r: CodexUsageSnapshot)
    ensures
        r matches CodexUsageSnapshot::Error { last_updated_at, error_message } && last_updated_at@
            == observed_at@ && opt_view(error_message) == Some(message@),
{
    CodexUsageSnapshot::Error {
        last_updated_at: observed_at.to_owned(),
        error_message: Some(message.to_owned()),
    }
}

pub fn missing_key_snapshot(message: &str, observed_at: &str) -> (r: CodexUsageSnapshot)
    ensures
        r matches CodexUsageSnapshot::MissingKey { last_updated_at, error_message }
            && last_updated_at@ == observed_at@ && opt_view(error_message) == Some(message@),
{
    CodexUsageSnapshot::MissingKey {
        last_updated_at: observed_at.to_owned(),
        error_message: Some(message.to_owned()),
    }
}

/// The primary usage URL is retried on the fallback URL only for plain
/// errors — an unauthorized or rate-limited answer is final.
pub fn retry_on_fallback_url(status: &CodexHttpErrorStatus) -> (r: bool)
    ensures
        r == (*status == CodexHttpErrorStatus::Error),
{
    match status {
        CodexHttpErrorStatus::Error => true,
        _ => false,
    }
}

/// What one usage HTTP exchange yields: a parsed body or a mapped status.
pub fn usage_body_outcome(result: &WebFetchResult) -> (r: Result<
    (Option<CodexWindow>, Option<CodexWindow>),
    CodexHttpErrorStatus,
>)
    ensures
        match *result {
            WebFetchResult::Transport { .. } => r == Err::<
                (Option<CodexWindow>, Option<CodexWindow>),
                CodexHttpErrorStatus,
            >(CodexHttpErrorStatus::Error),
            WebFetchResult::Status { code } => r == Err::<
                (Option<CodexWindow>, Option<CodexWindow>),
                CodexHttpErrorStatus,
            >(spec_map_http_status(code)),
            WebFetchResult::Body { text } => match codex_usage_of(text@) {
                Some(w) => r == Ok::<
                    (Option<CodexWindow>, Option<CodexWindow>),
                    CodexHttpErrorStatus,
                >(w),
                None => r == Err::<
                    (Option<CodexWindow>, Option<CodexWindow>),
                    CodexHttpErrorStatus,
                >(CodexHttpErrorStatus::Error),
            },
            WebFetchResult::BodyRead { .. } => r == Err::<
                (Option<CodexWindow>, Option<CodexWindow>),
                CodexHttpErrorStatus,
            >(CodexHttpErrorStatus::Error),
        },
{
    match result {
        WebFetchResult::Transport { .. } => Err(CodexHttpErrorStatus::Error),
        WebFetchResult::Status { code } => Err(map_http_status(*code)),
        WebFetchResult::Body { text } => match parse_codex_usage(text.as_str()) {
            Some(w) => Ok(w),
            None => Err(CodexHttpErrorStatus::Error),
        },
        WebFetchResult::BodyRead { .. } => Err(CodexHttpErrorStatus::Error),
    }
}

/// Map a usage fetch outcome to a snapshot; the unauthorized message
/// differs between the OAuth and cookie paths, so the caller names it.
pub fn usage_snapshot_from_outcome(
    outcome: Result<(Option<CodexWindow>, Option<CodexWindow>), CodexHttpErrorStatus>,
    unauthorized_message: &str,
    observed_at: &str,
) -> (r: CodexUsageSnapshot)
    ensures
        match outcome {
            Ok(w) => match w {
                (Some(p), Some(s)) => codex_success_follows(r, p, s, observed_at@),
                _ => r matches CodexUsageSnapshot::Error { last_updated_at, error_message }
                    && last_updated_at@ == observed_at@ && opt_view(error_message) == Some(
                    "Codex usage data missing required fields."@,
                ),
            },
            Err(CodexHttpErrorStatus::Unauthorized) => r
                matches CodexUsageSnapshot::Unauthorized { last_updated_at, error_message }
                && last_updated_at@ == observed_at@ && opt_view(error_message) == Some(
                unauthorized_message@,
            ),
            Err(CodexHttpErrorStatus::RateLimited) => r
                matches CodexUsageSnapshot::RateLimited { last_updated_at, error_message }
                && last_updated_at@ == observed_at@ && opt_view(error_message) == Some(
                "Rate limited."@,
            ),
            Err(CodexHttpErrorStatus::Error) => r
                matches CodexUsageSnapshot::Error { last_updated_at, error_message }
                && last_updated_at@ == observed_at@ && opt_view(error_message) == Some(
                "Failed to fetch Codex usage."@,
            ),
        },
        r.wf(),
{
    match outcome {
        Ok((Some(primary), Some(secondary))) => ok_snapshot(&primary, &secondary, observed_at),
        Ok(_) => error_snapshot("Codex usage data missing required fields.", observed_at),
        Err(CodexHttpErrorStatus::Unauthorized) => unauthorized_snapshot(
            unauthorized_message,
            observed_at,
        ),
        Err(CodexHttpErrorStatus::RateLimited) => rate_limited_snapshot(
            "Rate limited.",
            observed_at,
        ),
        Err(CodexHttpErrorStatus::Error) => error_snapshot(
            "Failed to fetch Codex usage.",
            observed_at,
        ),
    }
}

/// Failures of the helper-process probe.
#[derive(Debug, Clone, PartialEq, Eq)]
pub enum CodexCliError {
    BinaryMissing,
    TimedOut,
    Malformed,
    Failed(String),
}

/// The snapshot shown for each helper-process failure; a missing binary
/// asks for an install, the rest surface as plain errors.
pub fn codex_cli_failure_snapshot(err: &CodexCliError, observed_at: &str) -> (r:
    CodexUsageSnapshot)
    ensures
        match *err {
            CodexCliError::BinaryMissing => r matches CodexUsageSnapshot::Error {
                last_updated_at,
                error_message,
            } && last_updated_at@ == observed_at@ && opt_view(error_message) == Some(
                "Codex CLI missing. Install `@openai/codex` (or ensure `codex` is on PATH)."@,
            ),
            CodexCliError::TimedOut => r matches CodexUsageSnapshot::Error {
                last_updated_at,
                error_message,
            } && last_updated_at@ == observed_at@ && opt_view(error_message) == Some(
                "Codex CLI probe timed out."@,
            ),
            CodexCliError::Malformed => r matches CodexUsageSnapshot::Error {
                last_updated_at,
                error_message,
            } && last_updated_at@ == observed_at@ && opt_view(error_message) == Some(
                "Codex CLI returned invalid data."@,
            ),
            CodexCliError::Failed(msg) => r matches CodexUsageSnapshot::Error {
                last_updated_at,
                error_message,
            } && last_updated_at@ == observed_at@ && opt_view(error_message) == Some(msg@),
        },
{
    match err {
        CodexCliError::BinaryMissing => error_snapshot(
            "Codex CLI missing. Install `@openai/codex` (or ensure `codex` is on PATH).",
            observed_at,
        ),
        CodexCliError::TimedOut => error_snapshot("Codex CLI probe timed out.", observed_at),
        CodexCliError::Malformed => error_snapshot("Codex CLI returned invalid data.", observed_at),
        CodexCliError::Failed(msg) => error_snapshot(msg.as_str(), observed_at),
    }
}

/// One rate-limit window as the helper process reports it: the percentage
/// as its decimal rendering (absent when the field is missing or not a
/// number) and an optional epoch reset time.
#[derive(Debug, Clone, PartialEq, Eq)]
pub struct RpcWindowDoc {
    pub used_percent: Option<String>,
    pub resets_at: Option<i64>,
}

/// The rate-limit object of a helper response, when present.
#[derive(Debug, Clone, PartialEq, Eq)]
pub struct RpcLimitsDoc {
    pub primary: Option<RpcWindowDoc>,
    pub secondary: Option<RpcWindowDoc>,
}

/// One line of the helper's output, flattened: its `id`, its
/// `error.message`, and the `result.rateLimits` object when present.
#[derive(Debug, Clone)]
pub struct RpcLineDoc {
    pub id: Option<i64>,
    pub error_message: Option<String>,
    pub rate_limits: Option<RpcLimitsDoc>,
}

/// What `serde_json` finds in one output line of the helper process: `None`
/// when the line is not JSON. A function of the line alone.
pub uninterp spec fn rpc_line_of(s: Seq<char>) -> Option<RpcLineDoc>;

/// Relies on `serde_json::from_str` and `Value`'s accessors (`pointer`,
/// `get`, `as_i64`, `as_str`, `Number::to_string`) to flatten one line.
#[verifier::external_body]
fn parse_rpc_line(line: &str) -> (r: Option<RpcLineDoc>)
    ensures
        r == rpc_line_of(line@),
{
    let v: Value = serde_json::from_str(line).ok()?;
    let limits = v.pointer("/result/rateLimits");
    let window = |key: &str| limits.and_then(|l| l.get(key)).map(|w| RpcWindowDoc {
        used_percent: match w.get("usedPercent") {
            Some(Value::Number(n)) => Some(n.to_string()),
            _ => None,
        },
        resets_at: w.get("resetsAt").and_then(Value::as_i64),
    });
    Some(RpcLineDoc {
        id: v.get("id").and_then(Value::as_i64),
        error_message: v.pointer("/error/message").and_then(Value::as_str).map(String::from),
        rate_limits: limits.map(|_| RpcLimitsDoc { primary: window("primary"), secondary: window("secondary") }),
    })
}

/// What reading one helper output line decides.
#[derive(Debug, Clone, PartialEq, Eq)]
pub enum RpcLineOutcome {
    /// The line is not valid JSON: the probe is malformed.
    Malformed,
    /// The line's `id` does not match the outstanding request: skip it and
    /// keep reading — the helper may emit unrelated lines.
    Ignored,
    /// The line answers the request but carries an error; the message has
    /// passed the secret-redaction filter.
    Failed(String),
    /// The line answers the request; its rate-limit payload, if any.
    Completed(Option<RpcLimitsDoc>),
}

/// Classify one output line of the helper process against the outstanding
/// request id: foreign ids are ignored (the read continues), an
/// `error.message` fails the call with its text redacted, a matching line
/// completes the read.
pub fn rpc_step(line: &str, expected_id: i64) -> (r: RpcLineOutcome)
    ensures
        match rpc_line_of(line@) {
            None => r == RpcLineOutcome::Malformed,
            Some(doc) => if doc.id != Some(expected_id) {
                r == RpcLineOutcome::Ignored
            } else {
                match doc.error_message {
                    Some(m) => r matches RpcLineOutcome::Failed(t) && t@ == redact_secrets_spec(
                        m@,
                    ),
                    None => r == RpcLineOutcome::Completed(doc.rate_limits),
                }
            },
        },
{
    let doc = match parse_rpc_line(line) {
        None => {
            return RpcLineOutcome::Malformed;
        },
        Some(d) => d,
    };
    let id_matches = match doc.id {
        Some(i) => i == expected_id,
        None => false,
    };
    if !id_matches {
        return RpcLineOutcome::Ignored;
    }
    match doc.error_message {
        Some(m) => RpcLineOutcome::Failed(redact_secrets(m.as_str())),
        None => RpcLineOutcome::Completed(doc.rate_limits),
    }
}

/// The window a reported rate limit reduces to: the percentage parsed,
/// clamped and rounded to a whole percent, with the reset time required.
pub open spec fn rpc_window_reduces(w: RpcWindowDoc) -> Option<CodexWindow> {
    match (w.used_percent, w.resets_at) {
        (Some(p), Some(reset_at)) => Some(
            CodexWindow {
                used_percent: round_whole(percent_from_text(p@)) as i64,
                reset_at,
            },
        ),
        _ => None,
    }
}

pub fn rpc_window_to_codex(w: &RpcWindowDoc) -> (r: Option<CodexWindow>)
    ensures
        r == rpc_window_reduces(*w),
{
    match (&w.used_percent, &w.resets_at) {
        (Some(p), Some(reset_at)) => {
            let h = parse_percent_hundredths(p.as_str());
            let whole = round_to_whole_percent(h);
            Some(CodexWindow { used_percent: whole as i64, reset_at: *reset_at })
        },
        _ => None,
    }
}

/// Reduce a completed rate-limit payload to its two windows; any missing
/// piece leaves the probe malformed.
pub fn rpc_rate_limits(limits: &Option<RpcLimitsDoc>) -> (r: Result<
    (CodexWindow, CodexWindow),
    CodexCliError,
>)
    ensures
        match *limits {
            None => r == Err::<(CodexWindow, CodexWindow), CodexCliError>(CodexCliError::Malformed),
            Some(l) => match (l.primary, l.secondary) {
                (Some(p), Some(s)) => match (rpc_window_reduces(p), rpc_window_reduces(s)) {
                    (Some(pw), Some(sw)) => r == Ok::<
                        (CodexWindow, CodexWindow),
                        CodexCliError,
                    >((pw, sw)),
                    _ => r == Err::<(CodexWindow, CodexWindow), CodexCliError>(
                        CodexCliError::Malformed,
                    ),
                },
                _ => r == Err::<(CodexWindow, CodexWindow), CodexCliError>(
                    CodexCliError::Malformed,
                ),
            },
        },
{
    let l = match limits {
        None => {
            return Err(CodexCliError::Malformed);
        },
        Some(l) => l,
    };
    let primary = match &l.primary {
        Some(p) => rpc_window_to_codex(p),
        None => None,
    };
    let secondary = match &l.secondary {
        Some(s) => rpc_window_to_codex(s),
        None => None,
    };
    match (primary, secondary) {
        (Some(pw), Some(sw)) => Ok((pw, sw)),
        _ => Err(CodexCliError::Malformed),
    }
}

} // verus!
