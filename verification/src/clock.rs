//! Trusted access to the wall clock: the capture timestamp written into
//! every snapshot, the rendering of an epoch value to RFC 3339, and a raw
//! clock reading used only as jitter entropy.

use vstd::prelude::*;

verus! {

/// The RFC 3339 rendering of an epoch second count, if it is in range for
/// the calendar; the result depends on the argument alone.
pub uninterp spec fn rfc3339_of_epoch(seconds: i64) -> Option<Seq<char>>;

/// Relies on `time::OffsetDateTime::now_utc` and `format` with the RFC 3339
/// description: the current instant rendered as a nonempty timestamp string
/// (with a fixed fallback if formatting ever fails).
#[verifier::external_body]
pub fn now_rfc3339() -> (r: String)
    ensures
        r@.len() > 0,
{
    time::OffsetDateTime::now_utc()
        .format(&time::format_description::well_known::Rfc3339)
        .unwrap_or_else(|_| "1970-01-01T00:00:00Z".to_string())
}

/// Relies on `time::OffsetDateTime::from_unix_timestamp` and `format` with
/// the RFC 3339 description: a pure function of the epoch value, `None`
/// exactly when the value falls outside the representable calendar range.
#[verifier::external_body]
pub fn epoch_seconds_to_rfc3339(seconds: i64) -> (r: Option<String>)
    ensures
        match r {
            Some(s) => rfc3339_of_epoch(seconds) == Some(s@),
            None => rfc3339_of_epoch(seconds) is None,
        },
{
    let dt = time::OffsetDateTime::from_unix_timestamp(seconds).ok()?;
    dt.format(&time::format_description::well_known::Rfc3339).ok()
}

/// Relies on `time::OffsetDateTime::now_utc` and `unix_timestamp_nanos`: a
/// raw clock reading, promised nothing — it serves only as jitter entropy.
#[verifier::external_body]
pub fn clock_nanos() -> u64 {
    time::OffsetDateTime::now_utc().unix_timestamp_nanos() as u64
}

} // verus!
