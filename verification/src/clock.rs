//! The text of instants, written by `chrono`.

use vstd::prelude::*;
use vstd::string::*;
use crate::models::Timestamp;

verus! {

/// The pattern of an instant to the minute: `2024-05-01 13:07 UTC`.
pub open spec fn minute_pattern() -> Seq<char> {
    "%Y-%m-%d %H:%M UTC"@
}

/// The pattern of an instant to the second: `2024-05-01 13:07:42 UTC`.
pub open spec fn second_pattern() -> Seq<char> {
    "%Y-%m-%d %H:%M:%S UTC"@
}

/// What `chrono` writes for the UTC instant `secs` seconds and `nanos` nanoseconds after
/// 1970-01-01 00:00:00 with the strftime pattern `pattern`; `None` where `chrono` has no
/// such instant.
pub uninterp spec fn utc_text(secs: i64, nanos: u32, pattern: Seq<char>) -> Option<Seq<char>>;

/// Calls `chrono::DateTime::<Utc>::from_timestamp(secs, nanos)`, and where that gives an
/// instant, writes it with `DateTime::format(pattern)`. Claimed: the result is `utc_text` of
/// the arguments, which depends on them alone. Not claimed: which instants exist and what
/// their text is; the pattern is held to the two this crate uses, which `chrono` writes
/// without error.
#[verifier::external_body]
fn format_utc(secs: i64, nanos: u32, pattern: &str) -> (text: Option<String>)
    requires
        pattern@ == minute_pattern() || pattern@ == second_pattern(),
    ensures
        text is Some <==> utc_text(secs, nanos, pattern@) is Some,
        text matches Some(t) ==> utc_text(secs, nanos, pattern@) == Some(t@),
{
    match chrono::DateTime::<chrono::Utc>::from_timestamp(secs, nanos) {
        Some(instant) => Some(instant.format(pattern).to_string()),
        None => None,
    }
}

/// The text of `t` with `pattern`, or nothing where `chrono` has no such instant.
pub open spec fn timestamp_text(t: Timestamp, pattern: Seq<char>) -> Seq<char> {
    match utc_text(t.secs, t.nanos, pattern) {
        Some(s) => s,
        None => Seq::empty(),
    }
}

/// Writes `t` to the minute: `2024-05-01 13:07 UTC`.
pub fn minute_string(t: Timestamp) -> (s: String)
    ensures
        s@ == timestamp_text(t, minute_pattern()),
{
    match format_utc(t.secs, t.nanos, "%Y-%m-%d %H:%M UTC") {
        Some(s) => s,
        None => String::new(),
    }
}

/// Writes `t` to the second: `2024-05-01 13:07:42 UTC`.
pub fn second_string(t: Timestamp) -> (s: String)
    ensures
        s@ == timestamp_text(t, second_pattern()),
{
    match format_utc(t.secs, t.nanos, "%Y-%m-%d %H:%M:%S UTC") {
        Some(s) => s,
        None => String::new(),
    }
}

} // verus!
