//! The organization-scoped provider's fetch logic: turning a usage response body into a
//! normalized snapshot, resolving the organization list, reading the CLI
//! credential file's content, and mapping HTTP status codes.
//!
//! The HTTP calls themselves live outside the library; what comes back — a
//! transport error, a status code, or a body — arrives here as plain values.
//! JSON documents are flattened by small trusted readers over `serde_json`,
//! and everything after that flattening is verified.

use serde_json::Value;
use vstd::prelude::*;

use crate::percent::{percent_from_text, parse_percent_hundredths};
use crate::redact::{redact_session_key, redact_session_key_spec};
use crate::strings::{
    ascii_upper,
    ascii_upper_char,
    dec_str,
    eq_str,
    is_space,
    match_at,
    matches_at,
    opt_view,
    string_from_chars,
    trim_of,
    trim_spec,
    u32_to_string,
};
use crate::types::{valid_percent, ClaudeModelUsage, ClaudeOrganization, ClaudeUsageSnapshot};

verus! {

/// What an HTTP fetch handed back, as plain values: the shell performs the
/// request and reports one of these.
#[derive(Debug, Clone)]
pub enum WebFetchResult {
    /// Transport or connection failure; the message may hold external text.
    Transport { message: String },
    /// A response with a non-success status.
    Status { code: u16 },
    /// A success response whose body was read.
    Body { text: String },
    /// A success response whose body could not be read.
    BodyRead { message: String },
}

#[derive(Debug, Clone, Copy, PartialEq, Eq, Structural)]
pub enum ClaudeWebErrorStatus {
    Unauthorized,
    RateLimited,
    Error,
}

pub open spec fn spec_map_http_status(status_code: u16) -> ClaudeWebErrorStatus {
    if status_code == 401 || status_code == 403 {
        ClaudeWebErrorStatus::Unauthorized
    } else if status_code == 429 {
        ClaudeWebErrorStatus::RateLimited
    } else {
        ClaudeWebErrorStatus::Error
    }
}

pub fn map_http_status(status_code: u16) -> (r: ClaudeWebErrorStatus)
    ensures
        r == spec_map_http_status(status_code),
{
    match status_code {
        401 | 403 => ClaudeWebErrorStatus::Unauthorized,
        429 => ClaudeWebErrorStatus::RateLimited,
        _ => ClaudeWebErrorStatus::Error,
    }
}

/// The `utilization` field of a usage window, as found in the document: a
/// number (kept as its decimal rendering), a string, something else, or
/// absent.
#[derive(Debug, Clone)]
pub enum UtilizationValue {
    Absent,
    Num(String),
    Text(String),
    Other,
}

/// One usage window object of the document.
#[derive(Debug, Clone)]
pub struct WindowDoc {
    pub utilization: UtilizationValue,
    pub resets_at: Option<String>,
}

/// One top-level entry of the usage document; `window` is `None` when the
/// value under the key is not an object.
#[derive(Debug, Clone)]
pub struct UsageDocEntry {
    pub key: String,
    pub window: Option<WindowDoc>,
}

/// What `serde_json` finds in a usage response body: `None` when the body is
/// not JSON, otherwise the top-level entries in the order the parsed map
/// yields them — sorted by key, as this build configures `serde_json` — and
/// an empty sequence when the root is not an object. A function of the body
/// alone.
pub uninterp spec fn usage_doc_of(s: Seq<char>) -> Option<Seq<UsageDocEntry>>;

/// Relies on `serde_json::from_str` and `Value`'s accessors (`as_object`,
/// `get`, `as_str`, `Number::to_string`) to flatten a usage response body
/// into plain entries.
#[verifier::external_body]
fn parse_usage_doc(body: &str) -> (r: Option<Vec<UsageDocEntry>>)
    ensures
        match r {
            Some(v) => usage_doc_of(body@) == Some(v@),
            None => usage_doc_of(body@) is None,
        },
{
    let v: Value = serde_json::from_str(body).ok()?;
    let Some(root) = v.as_object() else { return Some(Vec::new()) };
    Some(root.iter().map(|(key, val)| UsageDocEntry {
        key: key.clone(),
        window: val.as_object().map(|w| WindowDoc {
            utilization: match w.get("utilization") {
                None => UtilizationValue::Absent,
                Some(Value::Number(n)) => UtilizationValue::Num(n.to_string()),
                Some(Value::String(t)) => UtilizationValue::Text(t.clone()),
                Some(_) => UtilizationValue::Other,
            },
            resets_at: w.get("resets_at").and_then(Value::as_str).map(String::from),
        }),
    }).collect())
}

/// The percentage a utilization field denotes: numbers and numeric strings
/// are parsed and clamped, anything else counts as zero.
pub open spec fn util_percent(u: UtilizationValue) -> u32 {
    match u {
        UtilizationValue::Num(s) => percent_from_text(s@),
        UtilizationValue::Text(s) => percent_from_text(s@),
        UtilizationValue::Absent => 0,
        UtilizationValue::Other => 0,
    }
}

pub fn parse_utilization_percent(u: &UtilizationValue) -> (r: u32)
    ensures
        r == util_percent(*u),
        valid_percent(r),
{
    match u {
        UtilizationValue::Num(s) => parse_percent_hundredths(s.as_str()),
        UtilizationValue::Text(s) => parse_percent_hundredths(s.as_str()),
        UtilizationValue::Absent => 0,
        UtilizationValue::Other => 0,
    }
}

/// A timestamp string trimmed, with blank collapsing to absent.
pub open spec fn cleaned_timestamp(o: Option<Seq<char>>) -> Option<Seq<char>> {
    match o {
        Some(s) => if trim_spec(s).len() == 0 {
            None
        } else {
            Some(trim_spec(s))
        },
        None => None,
    }
}

pub fn read_timestamp(o: &Option<String>) -> (r: Option<String>)
    ensures
        opt_view(r) == cleaned_timestamp(opt_view(*o)),
{
    match o {
        Some(s) => {
            let t = trim_of(s.as_str());
            if t.as_str().unicode_len() == 0 {
                None
            } else {
                Some(t)
            }
        },
        None => None,
    }
}

/// The window under the first entry carrying `key`; absent when no entry
/// carries it or its value was not an object.
pub open spec fn lookup_window(doc: Seq<UsageDocEntry>, key: Seq<char>) -> Option<WindowDoc>
    decreases doc.len(),
{
    if doc.len() == 0 {
        None
    } else if doc[0].key@ == key {
        doc[0].window
    } else {
        lookup_window(doc.skip(1), key)
    }
}

fn find_window<'a>(doc: &'a Vec<UsageDocEntry>, key: &str) -> (r: Option<&'a WindowDoc>)
    ensures
        match r {
            Some(w) => lookup_window(doc@, key@) == Some(*w),
            None => lookup_window(doc@, key@) is None,
        },
{
    let mut i: usize = 0;
    proof {
        assert(doc@.skip(0) =~= doc@);
    }
    while i < doc.len()
        invariant
            0 <= i <= doc@.len(),
            lookup_window(doc@, key@) == lookup_window(doc@.skip(i as int), key@),
        decreases doc@.len() - i,
    {
        proof {
            assert(doc@.skip(i as int)[0] == doc@[i as int]);
            assert(doc@.skip(i as int).skip(1) =~= doc@.skip(i as int + 1));
        }
        let entry = &doc[i];
        if eq_str(entry.key.as_str(), key) {
            return match &entry.window {
                Some(w) => Some(w),
                None => None,
            };
        }
        i = i + 1;
    }
    proof {
        assert(doc@.skip(i as int) =~= Seq::<UsageDocEntry>::empty());
    }
    None
}

pub open spec fn window_percent(doc: Seq<UsageDocEntry>, key: Seq<char>) -> u32 {
    match lookup_window(doc, key) {
        Some(w) => util_percent(w.utilization),
        None => 0,
    }
}

pub open spec fn window_resets(doc: Seq<UsageDocEntry>, key: Seq<char>) -> Option<Seq<char>> {
    match lookup_window(doc, key) {
        Some(w) => cleaned_timestamp(opt_view(w.resets_at)),
        None => None,
    }
}

/// A word separator for title casing: `_` or whitespace.
pub open spec fn is_part_sep(c: char) -> bool {
    c == '_' || is_space(c)
}

/// Title casing, scanned left to right: separators split words, each word's
/// first character is ASCII-uppercased, words are joined by single spaces.
pub open spec fn title_case_rec(s: Seq<char>, in_word: bool, empty_out: bool) -> Seq<char>
    decreases s.len(),
{
    if s.len() == 0 {
        Seq::empty()
    } else if is_part_sep(s[0]) {
        title_case_rec(s.skip(1), false, empty_out)
    } else if in_word {
        seq![s[0]] + title_case_rec(s.skip(1), true, false)
    } else {
        (if empty_out {
            seq![ascii_upper(s[0])]
        } else {
            seq![' ', ascii_upper(s[0])]
        }) + title_case_rec(s.skip(1), true, false)
    }
}

pub open spec fn title_case_spec(s: Seq<char>) -> Seq<char> {
    title_case_rec(s, false, true)
}

pub fn title_case(value: &str) -> (r: String)
    ensures
        r@ == title_case_spec(value@),
{
    let len = value.unicode_len();
    let mut out: Vec<char> = Vec::new();
    let mut in_word = false;
    let mut i: usize = 0;
    proof {
        assert(value@.skip(0) =~= value@);
        assert(out@ + title_case_rec(value@, false, true) =~= title_case_rec(value@, false, true));
    }
    while i < len
        invariant
            0 <= i <= len,
            len == value@.len(),
            out@ + title_case_rec(value@.skip(i as int), in_word, out@.len() == 0)
                == title_case_spec(value@),
        decreases len - i,
    {
        let c = value.get_char(i);
        proof {
            assert(value@.skip(i as int)[0] == c);
            assert(value@.skip(i as int).skip(1) =~= value@.skip(i as int + 1));
        }
        if c == '_' || crate::strings::is_space_char(c) {
            in_word = false;
        } else if in_word {
            out.push(c);
        } else {
            if out.len() > 0 {
                out.push(' ');
            }
            out.push(ascii_upper_char(c));
            in_word = true;
        }
        i = i + 1;
    }
    proof {
        assert(value@.skip(len as int) =~= Seq::<char>::empty());
        assert(out@ + Seq::<char>::empty() =~= out@);
    }
    string_from_chars(&out)
}

/// The view of a model entry: name, percent, reset timestamp.
pub open spec fn model_view(m: ClaudeModelUsage) -> (Seq<char>, u32, Option<Seq<char>>) {
    (m.name@, m.percent, opt_view(m.resets_at))
}

/// The model name derived from a `seven_day_` key: the remainder of the key,
/// title-cased.
pub open spec fn model_name_of_key(key: Seq<char>) -> Seq<char> {
    title_case_spec(key.skip(10))
}

/// A preferred model entry, when its window is present (whatever its value).
pub open spec fn preferred_model(doc: Seq<UsageDocEntry>, key: Seq<char>) -> Seq<
    (Seq<char>, u32, Option<Seq<char>>),
> {
    match lookup_window(doc, key) {
        Some(w) => seq![
            (
                model_name_of_key(key),
                util_percent(w.utilization),
                cleaned_timestamp(opt_view(w.resets_at)),
            ),
        ],
        None => Seq::empty(),
    }
}

/// An entry picked up by the sibling scan: any other `seven_day_`-prefixed
/// window (not the bare total, not a preferred key) with a nonzero
/// percentage.
pub open spec fn scan_includes(e: UsageDocEntry) -> bool {
    &&& matches_at(e.key@, "seven_day_"@, 0)
    &&& e.key@ != "seven_day"@
    &&& e.key@ != "seven_day_sonnet"@
    &&& e.key@ != "seven_day_opus"@
    &&& e.window is Some
    &&& util_percent(e.window->Some_0.utilization) != 0
}

pub open spec fn scan_view(e: UsageDocEntry) -> (Seq<char>, u32, Option<Seq<char>>) {
    (
        model_name_of_key(e.key@),
        util_percent(e.window->Some_0.utilization),
        cleaned_timestamp(opt_view(e.window->Some_0.resets_at)),
    )
}

pub open spec fn scanned_model_views(doc: Seq<UsageDocEntry>) -> Seq<
    (Seq<char>, u32, Option<Seq<char>>),
>
    decreases doc.len(),
{
    if doc.len() == 0 {
        Seq::empty()
    } else {
        (if scan_includes(doc[0]) {
            seq![scan_view(doc[0])]
        } else {
            Seq::empty()
        }) + scanned_model_views(doc.skip(1))
    }
}

/// All sub-metric entries of a usage document: the two well-known model
/// windows first (in preference order), then the sibling scan in document
/// order.
pub open spec fn model_views_of(doc: Seq<UsageDocEntry>) -> Seq<
    (Seq<char>, u32, Option<Seq<char>>),
> {
    preferred_model(doc, "seven_day_sonnet"@) + preferred_model(doc, "seven_day_opus"@)
        + scanned_model_views(doc)
}

fn push_model(out: &mut Vec<ClaudeModelUsage>, name: String, percent: u32, resets_at: Option<String>)
    ensures
        final(out)@.map_values(|m: ClaudeModelUsage| model_view(m)) == old(out)@.map_values(
            |m: ClaudeModelUsage| model_view(m),
        ) + seq![(name@, percent, opt_view(resets_at))],
        final(out)@ == old(out)@.push(ClaudeModelUsage { name, percent, resets_at }),
{
    let ghost before = out@;
    out.push(ClaudeModelUsage { name, percent, resets_at });
    proof {
        assert(out@.map_values(|m: ClaudeModelUsage| model_view(m)) =~= before.map_values(
            |m: ClaudeModelUsage| model_view(m),
        ) + seq![model_view(out@[before.len() as int])]);
    }
}

/// Collect the sub-metric list from the usage document: the preferred model
/// windows first, then every other nonzero `seven_day_` sibling.
pub fn read_model_weekly_usages(doc: &Vec<UsageDocEntry>) -> (r: Vec<ClaudeModelUsage>)
    ensures
        r@.map_values(|m: ClaudeModelUsage| model_view(m)) == model_views_of(doc@),
        forall|i: int| 0 <= i < r@.len() ==> (#[trigger] r@[i]).wf(),
{
    let mut out: Vec<ClaudeModelUsage> = Vec::new();
    proof {
        reveal_strlit("seven_day_sonnet");
        reveal_strlit("seven_day_opus");
        reveal_strlit("seven_day_");
        reveal_strlit("seven_day");
        reveal_strlit("sonnet");
        reveal_strlit("opus");
        assert("seven_day_sonnet"@.skip(10) =~= "sonnet"@);
        assert("seven_day_opus"@.skip(10) =~= "opus"@);
    }
    match find_window(doc, "seven_day_sonnet") {
        Some(w) => {
            let percent = parse_utilization_percent(&w.utilization);
            let resets_at = read_timestamp(&w.resets_at);
            push_model(&mut out, title_case("sonnet"), percent, resets_at);
        },
        None => {},
    }
    match find_window(doc, "seven_day_opus") {
        Some(w) => {
            let percent = parse_utilization_percent(&w.utilization);
            let resets_at = read_timestamp(&w.resets_at);
            push_model(&mut out, title_case("opus"), percent, resets_at);
        },
        None => {},
    }
    proof {
        assert(out@.map_values(|m: ClaudeModelUsage| model_view(m)) =~= preferred_model(
            doc@,
            "seven_day_sonnet"@,
        ) + preferred_model(doc@, "seven_day_opus"@));
        assert(doc@.skip(0) =~= doc@);
    }
    let mut i: usize = 0;
    while i < doc.len()
        invariant
            0 <= i <= doc@.len(),
            out@.map_values(|m: ClaudeModelUsage| model_view(m)) + scanned_model_views(
                doc@.skip(i as int),
            ) == model_views_of(doc@),
            forall|k: int| 0 <= k < out@.len() ==> (#[trigger] out@[k]).wf(),
        decreases doc@.len() - i,
    {
        proof {
            reveal_strlit("seven_day_");
            reveal_strlit("seven_day");
            reveal_strlit("seven_day_sonnet");
            reveal_strlit("seven_day_opus");
            assert(doc@.skip(i as int)[0] == doc@[i as int]);
            assert(doc@.skip(i as int).skip(1) =~= doc@.skip(i as int + 1));
        }
        let entry = &doc[i];
        let key = entry.key.as_str();
        let included = match_at(key, "seven_day_", 0) && !eq_str(key, "seven_day") && !eq_str(
            key,
            "seven_day_sonnet",
        ) && !eq_str(key, "seven_day_opus");
        if included {
            match &entry.window {
                Some(w) => {
                    let percent = parse_utilization_percent(&w.utilization);
                    if percent != 0 {
                        let klen = key.unicode_len();
                        proof {
                            assert(matches_at(key@, "seven_day_"@, 0));
                            assert(klen >= 10);
                        }
                        let short = key.substring_char(10, klen);
                        proof {
                            assert(short@ =~= key@.skip(10));
                        }
                        let name = title_case(short);
                        let resets_at = read_timestamp(&w.resets_at);
                        push_model(&mut out, name, percent, resets_at);
                    }
                },
                None => {},
            }
        }
        i = i + 1;
    }
    proof {
        assert(doc@.skip(doc@.len() as int) =~= Seq::<UsageDocEntry>::empty());
        assert(out@.map_values(|m: ClaudeModelUsage| model_view(m)) + Seq::<
            (Seq<char>, u32, Option<Seq<char>>),
        >::empty() =~= out@.map_values(|m: ClaudeModelUsage| model_view(m)));
    }
    out
}

/// What a successful usage snapshot holds, given the flattened document.
pub open spec fn usage_snapshot_follows(
    r: ClaudeUsageSnapshot,
    doc: Seq<UsageDocEntry>,
    organization_id: Seq<char>,
    last_updated_at: Seq<char>,
) -> bool {
    &&& r matches ClaudeUsageSnapshot::Success {
        organization_id: org,
        session_percent,
        session_resets_at,
        weekly_percent,
        weekly_resets_at,
        models,
        last_updated_at: at,
    }
    &&& org@ == organization_id
    &&& at@ == last_updated_at
    &&& session_percent == window_percent(doc, "five_hour"@)
    &&& opt_view(session_resets_at) == window_resets(doc, "five_hour"@)
    &&& weekly_percent == window_percent(doc, "seven_day"@)
    &&& opt_view(weekly_resets_at) == window_resets(doc, "seven_day"@)
    &&& models@.map_values(|m: ClaudeModelUsage| model_view(m)) == model_views_of(doc)
}

/// Build the normalized success snapshot from a flattened usage document.
pub fn usage_snapshot_from_doc(
    doc: &Vec<UsageDocEntry>,
    organization_id: &str,
    last_updated_at: &str,
) -> (r: ClaudeUsageSnapshot)
    ensures
        usage_snapshot_follows(r, doc@, organization_id@, last_updated_at@),
        r.wf(),
{
    proof {
        reveal_strlit("five_hour");
        reveal_strlit("seven_day");
    }
    let (session_percent, session_resets_at) = match find_window(doc, "five_hour") {
        Some(w) => (parse_utilization_percent(&w.utilization), read_timestamp(&w.resets_at)),
        None => (0u32, None),
    };
    let (weekly_percent, weekly_resets_at) = match find_window(doc, "seven_day") {
        Some(w) => (parse_utilization_percent(&w.utilization), read_timestamp(&w.resets_at)),
        None => (0u32, None),
    };
    let models = read_model_weekly_usages(doc);
    ClaudeUsageSnapshot::Success {
        organization_id: organization_id.to_owned(),
        session_percent,
        session_resets_at,
        weekly_percent,
        weekly_resets_at,
        models,
        last_updated_at: last_updated_at.to_owned(),
    }
}

/// Parse a usage response body. A body that is not JSON yields an `Error`
/// snapshot with a generic message — parser internals are never surfaced.
pub fn usage_snapshot_from_body(
    body: &str,
    organization_id: &str,
    last_updated_at: &str,
) -> (r: ClaudeUsageSnapshot)
    ensures
        match usage_doc_of(body@) {
            Some(doc) => usage_snapshot_follows(r, doc, organization_id@, last_updated_at@),
            None => r matches ClaudeUsageSnapshot::Error {
                organization_id: org,
                last_updated_at: at,
                error_message,
            } && opt_view(org) == Some(organization_id@) && at@ == last_updated_at@ && opt_view(
                error_message,
            ) == Some("Invalid usage response."@),
        },
        r.wf(),
{
    match parse_usage_doc(body) {
        Some(doc) => usage_snapshot_from_doc(&doc, organization_id, last_updated_at),
        None => ClaudeUsageSnapshot::Error {
            organization_id: Some(organization_id.to_owned()),
            last_updated_at: last_updated_at.to_owned(),
            error_message: Some("Invalid usage response.".to_owned()),
        },
    }
}

/// The provider-specific message for a failed web usage request.
pub open spec fn web_error_message(code: u16) -> Seq<char> {
    "Usage API error ("@ + dec_str(code as nat) + ")"@
}

fn build_web_error_message(code: u16) -> (r: String)
    ensures
        r@ == web_error_message(code),
{
    let mut s = String::new();
    s.append("Usage API error (");
    let digits = u32_to_string(code as u32);
    s.append(digits.as_str());
    s.append(")");
    s
}

/// What the web usage fetch returns for each outcome of the HTTP exchange:
/// transport failures and unreadable bodies surface as `Error` with the
/// message passed through the session-key filter, non-success statuses map
/// through `map_http_status`, and a readable body is parsed.
pub open spec fn web_usage_snapshot_follows(
    r: ClaudeUsageSnapshot,
    result: WebFetchResult,
    organization_id: Seq<char>,
    observed_at: Seq<char>,
) -> bool {
    match result {
        WebFetchResult::Transport { message } => r
            matches ClaudeUsageSnapshot::Error { organization_id: org, last_updated_at, error_message }
            && opt_view(org) == Some(organization_id) && last_updated_at@ == observed_at
            && opt_view(error_message) == Some(redact_session_key_spec(message@)),
        WebFetchResult::Status { code } => {
            let msg = web_error_message(code);
            match spec_map_http_status(code) {
                ClaudeWebErrorStatus::Unauthorized => r
                    matches ClaudeUsageSnapshot::Unauthorized { organization_id: org, last_updated_at, error_message }
                    && opt_view(org) == Some(organization_id) && last_updated_at@ == observed_at
                    && opt_view(error_message) == Some(msg),
                ClaudeWebErrorStatus::RateLimited => r
                    matches ClaudeUsageSnapshot::RateLimited { organization_id: org, last_updated_at, error_message }
                    && opt_view(org) == Some(organization_id) && last_updated_at@ == observed_at
                    && opt_view(error_message) == Some(msg),
                ClaudeWebErrorStatus::Error => r
                    matches ClaudeUsageSnapshot::Error { organization_id: org, last_updated_at, error_message }
                    && opt_view(org) == Some(organization_id) && last_updated_at@ == observed_at
                    && opt_view(error_message) == Some(msg),
            }
        },
        WebFetchResult::Body { text } => match usage_doc_of(text@) {
            Some(doc) => usage_snapshot_follows(r, doc, organization_id, observed_at),
            None => r
                matches ClaudeUsageSnapshot::Error { organization_id: org, last_updated_at, error_message }
                && opt_view(org) == Some(organization_id) && last_updated_at@ == observed_at
                && opt_view(error_message) == Some("Invalid usage response."@),
        },
        WebFetchResult::BodyRead { message } => r
            matches ClaudeUsageSnapshot::Error { organization_id: org, last_updated_at, error_message }
            && opt_view(org) == Some(organization_id) && last_updated_at@ == observed_at
            && opt_view(error_message) == Some(redact_session_key_spec(message@)),
    }
}

/// Map one web usage exchange to a snapshot; `observed_at` is the capture
/// time, recorded even on failure.
pub fn usage_snapshot_from_web_response(
    result: &WebFetchResult,
    organization_id: &str,
    observed_at: &str,
) -> (r: ClaudeUsageSnapshot)
    ensures
        web_usage_snapshot_follows(r, *result, organization_id@, observed_at@),
        r.wf(),
{
    match result {
        WebFetchResult::Transport { message } => ClaudeUsageSnapshot::Error {
            organization_id: Some(organization_id.to_owned()),
            last_updated_at: observed_at.to_owned(),
            error_message: Some(redact_session_key(message.as_str())),
        },
        WebFetchResult::Status { code } => {
            let msg = build_web_error_message(*code);
            match map_http_status(*code) {
                ClaudeWebErrorStatus::Unauthorized => ClaudeUsageSnapshot::Unauthorized {
                    organization_id: Some(organization_id.to_owned()),
                    last_updated_at: observed_at.to_owned(),
                    error_message: Some(msg),
                },
                ClaudeWebErrorStatus::RateLimited => ClaudeUsageSnapshot::RateLimited {
                    organization_id: Some(organization_id.to_owned()),
                    last_updated_at: observed_at.to_owned(),
                    error_message: Some(msg),
                },
                ClaudeWebErrorStatus::Error => ClaudeUsageSnapshot::Error {
                    organization_id: Some(organization_id.to_owned()),
                    last_updated_at: observed_at.to_owned(),
                    error_message: Some(msg),
                },
            }
        },
        WebFetchResult::Body { text } => usage_snapshot_from_body(
            text.as_str(),
            organization_id,
            observed_at,
        ),
        WebFetchResult::BodyRead { message } => ClaudeUsageSnapshot::Error {
            organization_id: Some(organization_id.to_owned()),
            last_updated_at: observed_at.to_owned(),
            error_message: Some(redact_session_key(message.as_str())),
        },
    }
}

/// One element of the organizations response: the `uuid` and `name` fields
/// as found (absent when missing, not a string, or the element is not an
/// object).
#[derive(Debug, Clone)]
pub struct OrgDocEntry {
    pub uuid: Option<String>,
    pub name: Option<String>,
}

/// What `serde_json` finds in an organizations response body: `None` when
/// the body is not JSON, otherwise the array elements in order (an empty
/// sequence when the root is not an array). A function of the body alone.
pub uninterp spec fn orgs_doc_of(s: Seq<char>) -> Option<Seq<OrgDocEntry>>;

/// Relies on `serde_json::from_str` and `Value`'s accessors (`as_array`,
/// `get`, `as_str`) to flatten an organizations response body.
#[verifier::external_body]
fn parse_orgs_doc(body: &str) -> (r: Option<Vec<OrgDocEntry>>)
    ensures
        match r {
            Some(v) => orgs_doc_of(body@) == Some(v@),
            None => orgs_doc_of(body@) is None,
        },
{
    let v: Value = serde_json::from_str(body).ok()?;
    let Some(arr) = v.as_array() else { return Some(Vec::new()) };
    Some(arr.iter().map(|entry| OrgDocEntry {
        uuid: entry.get("uuid").and_then(|u| u.as_str()).map(String::from),
        name: entry.get("name").and_then(|n| n.as_str()).map(String::from),
    }).collect())
}

/// The view of an organization: identifier and optional display name.
pub open spec fn org_view(o: ClaudeOrganization) -> (Seq<char>, Option<Seq<char>>) {
    (o.id@, opt_view(o.name))
}

/// The organizations kept from a response: entries with a nonblank `uuid`,
/// trimmed, with blank names collapsing to absent.
pub open spec fn orgs_views(doc: Seq<OrgDocEntry>) -> Seq<(Seq<char>, Option<Seq<char>>)>
    decreases doc.len(),
{
    if doc.len() == 0 {
        Seq::empty()
    } else {
        (match doc[0].uuid {
            Some(u) => if trim_spec(u@).len() == 0 {
                Seq::empty()
            } else {
                seq![(trim_spec(u@), cleaned_timestamp(opt_view(doc[0].name)))]
            },
            None => Seq::empty(),
        }) + orgs_views(doc.skip(1))
    }
}

/// Collect the organization list out of a flattened response document.
pub fn organizations_from_doc(doc: &Vec<OrgDocEntry>) -> (r: Vec<ClaudeOrganization>)
    ensures
        r@.map_values(|o: ClaudeOrganization| org_view(o)) == orgs_views(doc@),
{
    let mut out: Vec<ClaudeOrganization> = Vec::new();
    let mut i: usize = 0;
    proof {
        assert(doc@.skip(0) =~= doc@);
        assert(out@.map_values(|o: ClaudeOrganization| org_view(o)) + orgs_views(doc@)
            =~= orgs_views(doc@));
    }
    while i < doc.len()
        invariant
            0 <= i <= doc@.len(),
            out@.map_values(|o: ClaudeOrganization| org_view(o)) + orgs_views(doc@.skip(i as int))
                == orgs_views(doc@),
        decreases doc@.len() - i,
    {
        proof {
            assert(doc@.skip(i as int)[0] == doc@[i as int]);
            assert(doc@.skip(i as int).skip(1) =~= doc@.skip(i as int + 1));
        }
        let entry = &doc[i];
        match &entry.uuid {
            Some(u) => {
                let id = trim_of(u.as_str());
                if id.as_str().unicode_len() > 0 {
                    let name = read_timestamp(&entry.name);
                    let ghost before = out@;
                    out.push(ClaudeOrganization { id, name });
                    proof {
                        assert(out@.map_values(|o: ClaudeOrganization| org_view(o))
                            =~= before.map_values(|o: ClaudeOrganization| org_view(o)) + seq![
                            org_view(out@[before.len() as int]),
                        ]);
                    }
                }
            },
            None => {},
        }
        i = i + 1;
    }
    proof {
        assert(doc@.skip(doc@.len() as int) =~= Seq::<OrgDocEntry>::empty());
        assert(out@.map_values(|o: ClaudeOrganization| org_view(o)) + Seq::<
            (Seq<char>, Option<Seq<char>>),
        >::empty() =~= out@.map_values(|o: ClaudeOrganization| org_view(o)));
    }
    out
}

/// What resolving the organization list returns for each outcome of the
/// HTTP exchange: any failure to obtain or parse the body maps to an error
/// status, a readable JSON body yields the kept organizations.
pub fn organizations_from_response(result: &WebFetchResult) -> (r: Result<
    Vec<ClaudeOrganization>,
    ClaudeWebErrorStatus,
>)
    ensures
        match *result {
            WebFetchResult::Transport { .. } => r == Err::<
                Vec<ClaudeOrganization>,
                ClaudeWebErrorStatus,
            >(ClaudeWebErrorStatus::Error),
            WebFetchResult::Status { code } => r == Err::<
                Vec<ClaudeOrganization>,
                ClaudeWebErrorStatus,
            >(spec_map_http_status(code)),
            WebFetchResult::Body { text } => match orgs_doc_of(text@) {
                Some(doc) => r matches Ok(orgs) && orgs@.map_values(
                    |o: ClaudeOrganization| org_view(o),
                ) == orgs_views(doc),
                None => r == Err::<Vec<ClaudeOrganization>, ClaudeWebErrorStatus>(
                    ClaudeWebErrorStatus::Error,
                ),
            },
            WebFetchResult::BodyRead { .. } => r == Err::<
                Vec<ClaudeOrganization>,
                ClaudeWebErrorStatus,
            >(ClaudeWebErrorStatus::Error),
        },
{
    match result {
        WebFetchResult::Transport { .. } => Err(ClaudeWebErrorStatus::Error),
        WebFetchResult::Status { code } => Err(map_http_status(*code)),
        WebFetchResult::Body { text } => match parse_orgs_doc(text.as_str()) {
            Some(doc) => Ok(organizations_from_doc(&doc)),
            None => Err(ClaudeWebErrorStatus::Error),
        },
        WebFetchResult::BodyRead { .. } => Err(ClaudeWebErrorStatus::Error),
    }
}

#[derive(Debug, Clone, Copy, PartialEq, Eq, Structural)]
pub enum CliCredentialsError {
    HomeMissing,
    MissingFile,
    InvalidJson,
    MissingAccessToken,
}

/// What `serde_json` finds in the CLI credential file: `None` when the
/// content is not JSON, otherwise the `claudeAiOauth.accessToken` string as
/// found (untrimmed), when present. A function of the content alone.
pub uninterp spec fn claude_credentials_of(s: Seq<char>) -> Option<Option<Seq<char>>>;

/// Relies on `serde_json::from_str` and `Value`'s accessors (`get`,
/// `as_str`) to read the access token out of the credential file content.
#[verifier::external_body]
fn parse_claude_credentials(contents: &str) -> (r: Option<Option<String>>)
    ensures
        match r {
            Some(tok) => claude_credentials_of(contents@) == Some(
                match tok {
                    Some(t) => Some(t@),
                    None => None::<Seq<char>>,
                },
            ),
            None => claude_credentials_of(contents@) is None,
        },
{
    let v: Value = serde_json::from_str(contents).ok()?;
    Some(
        v.get("claudeAiOauth")
            .and_then(|o| o.get("accessToken"))
            .and_then(|t| t.as_str())
            .map(String::from),
    )
}

/// Read the OAuth access token out of the CLI credential file's content:
/// the token under `claudeAiOauth.accessToken`, trimmed; unparsable content
/// and a missing or blank token are distinct errors.
pub fn read_cli_oauth_access_token_from_contents(contents: &str) -> (r: Result<
    String,
    CliCredentialsError,
>)
    ensures
        match claude_credentials_of(contents@) {
            None => r == Err::<String, CliCredentialsError>(CliCredentialsError::InvalidJson),
            Some(None) => r == Err::<String, CliCredentialsError>(
                CliCredentialsError::MissingAccessToken,
            ),
            Some(Some(tok)) => if trim_spec(tok).len() == 0 {
                r == Err::<String, CliCredentialsError>(CliCredentialsError::MissingAccessToken)
            } else {
                r matches Ok(t) && t@ == trim_spec(tok)
            },
        },
{
    match parse_claude_credentials(contents) {
        None => Err(CliCredentialsError::InvalidJson),
        Some(None) => Err(CliCredentialsError::MissingAccessToken),
        Some(Some(tok)) => {
            let t = trim_of(tok.as_str());
            if t.as_str().unicode_len() == 0 {
                Err(CliCredentialsError::MissingAccessToken)
            } else {
                Ok(t)
            }
        },
    }
}

/// The snapshot shown when CLI credentials cannot be read: a missing `HOME`
/// is an environment error, everything else asks the user to re-authenticate.
pub fn claude_cli_failure_snapshot(err: &CliCredentialsError, observed_at: &str) -> (r:
    ClaudeUsageSnapshot)
    ensures
        match *err {
            CliCredentialsError::HomeMissing => r matches ClaudeUsageSnapshot::Error {
                organization_id,
                last_updated_at,
                error_message,
            } && organization_id is None && last_updated_at@ == observed_at@ && opt_view(
                error_message,
            ) == Some("HOME is not set; cannot locate CLI credentials."@),
            CliCredentialsError::MissingFile | CliCredentialsError::MissingAccessToken => r
                matches ClaudeUsageSnapshot::Unauthorized { organization_id, last_updated_at, error_message }
                && organization_id is None && last_updated_at@ == observed_at@ && opt_view(
                error_message,
            ) == Some("CLI credentials not found. Log in with the provider CLI and try again."@),
            CliCredentialsError::InvalidJson => r
                matches ClaudeUsageSnapshot::Unauthorized { organization_id, last_updated_at, error_message }
                && organization_id is None && last_updated_at@ == observed_at@ && opt_view(
                error_message,
            ) == Some(
                "CLI credentials are invalid. Re-authenticate with the provider CLI."@,
            ),
        },
{
    match err {
        CliCredentialsError::HomeMissing => ClaudeUsageSnapshot::Error {
            organization_id: None,
            last_updated_at: observed_at.to_owned(),
            error_message: Some("HOME is not set; cannot locate CLI credentials.".to_owned()),
        },
        CliCredentialsError::MissingFile | CliCredentialsError::MissingAccessToken => {
            ClaudeUsageSnapshot::Unauthorized {
                organization_id: None,
                last_updated_at: observed_at.to_owned(),
                error_message: Some(
                    "CLI credentials not found. Log in with the provider CLI and try again.".to_owned(),
                ),
            }
        },
        CliCredentialsError::InvalidJson => ClaudeUsageSnapshot::Unauthorized {
            organization_id: None,
            last_updated_at: observed_at.to_owned(),
            error_message: Some(
                "CLI credentials are invalid. Re-authenticate with the provider CLI.".to_owned(),
            ),
        },
    }
}

/// What the OAuth usage fetch returns for each outcome, with its fixed
/// user-facing messages; the scope is the `oauth` sentinel.
pub fn oauth_usage_snapshot_from_response(result: &WebFetchResult, observed_at: &str) -> (r:
    ClaudeUsageSnapshot)
    ensures
        match *result {
            WebFetchResult::Transport { .. } => r matches ClaudeUsageSnapshot::Error {
                organization_id,
                last_updated_at,
                error_message,
            } && opt_view(organization_id) == Some("oauth"@) && last_updated_at@ == observed_at@
                && opt_view(error_message) == Some("Network error while fetching OAuth usage."@),
            WebFetchResult::Status { code } => match spec_map_http_status(code) {
                ClaudeWebErrorStatus::Unauthorized => r
                    matches ClaudeUsageSnapshot::Unauthorized { organization_id, last_updated_at, error_message }
                    && opt_view(organization_id) == Some("oauth"@) && last_updated_at@
                    == observed_at@ && opt_view(error_message) == Some(
                    "OAuth usage is unauthorized. Re-authenticate with the provider CLI."@,
                ),
                ClaudeWebErrorStatus::RateLimited => r
                    matches ClaudeUsageSnapshot::RateLimited { organization_id, last_updated_at, error_message }
                    && opt_view(organization_id) == Some("oauth"@) && last_updated_at@
                    == observed_at@ && opt_view(error_message) == Some(
                    "OAuth usage is rate limited."@,
                ),
                ClaudeWebErrorStatus::Error => r
                    matches ClaudeUsageSnapshot::Error { organization_id, last_updated_at, error_message }
                    && opt_view(organization_id) == Some("oauth"@) && last_updated_at@
                    == observed_at@ && opt_view(error_message) == Some(
                    "OAuth usage request failed."@,
                ),
            },
            WebFetchResult::Body { text } => match usage_doc_of(text@) {
                Some(doc) => usage_snapshot_follows(r, doc, "oauth"@, observed_at@),
                None => r
                    matches ClaudeUsageSnapshot::Error { organization_id, last_updated_at, error_message }
                    && opt_view(organization_id) == Some("oauth"@) && last_updated_at@
                    == observed_at@ && opt_view(error_message) == Some(
                    "Invalid JSON returned by OAuth usage endpoint."@,
                ),
            },
            WebFetchResult::BodyRead { .. } => r matches ClaudeUsageSnapshot::Error {
                organization_id,
                last_updated_at,
                error_message,
            } && opt_view(organization_id) == Some("oauth"@) && last_updated_at@ == observed_at@
                && opt_view(error_message) == Some("Failed to read OAuth usage response."@),
        },
        r.wf(),
{
    match result {
        WebFetchResult::Transport { .. } => ClaudeUsageSnapshot::Error {
            organization_id: Some("oauth".to_owned()),
            last_updated_at: observed_at.to_owned(),
            error_message: Some("Network error while fetching OAuth usage.".to_owned()),
        },
        WebFetchResult::Status { code } => match map_http_status(*code) {
            ClaudeWebErrorStatus::Unauthorized => ClaudeUsageSnapshot::Unauthorized {
                organization_id: Some("oauth".to_owned()),
                last_updated_at: observed_at.to_owned(),
                error_message: Some(
                    "OAuth usage is unauthorized. Re-authenticate with the provider CLI.".to_owned(),
                ),
            },
            ClaudeWebErrorStatus::RateLimited => ClaudeUsageSnapshot::RateLimited {
                organization_id: Some("oauth".to_owned()),
                last_updated_at: observed_at.to_owned(),
                error_message: Some("OAuth usage is rate limited.".to_owned()),
            },
            ClaudeWebErrorStatus::Error => ClaudeUsageSnapshot::Error {
                organization_id: Some("oauth".to_owned()),
                last_updated_at: observed_at.to_owned(),
                error_message: Some("OAuth usage request failed.".to_owned()),
            },
        },
        WebFetchResult::Body { text } => {
            let r = usage_snapshot_from_body(text.as_str(), "oauth", observed_at);
            match &r {
                ClaudeUsageSnapshot::Error { .. } => ClaudeUsageSnapshot::Error {
                    organization_id: Some("oauth".to_owned()),
                    last_updated_at: observed_at.to_owned(),
                    error_message: Some(
                        "Invalid JSON returned by OAuth usage endpoint.".to_owned(),
                    ),
                },
                _ => r,
            }
        },
        WebFetchResult::BodyRead { .. } => ClaudeUsageSnapshot::Error {
            organization_id: Some("oauth".to_owned()),
            last_updated_at: observed_at.to_owned(),
            error_message: Some("Failed to read OAuth usage response.".to_owned()),
        },
    }
}

} // verus!
