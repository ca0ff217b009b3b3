//! Wall-clock time and RFC 3339 timestamps, through chrono.

use vstd::prelude::*;

verus! {

/// What chrono's RFC 3339 parser yields for a string: `None` where the string
/// is not a valid RFC 3339 date-time, otherwise the parsed instant as non-leap
/// seconds since the Unix epoch. The result depends on the characters alone.
pub uninterp spec fn rfc3339_seconds(s: Seq<char>) -> Option<int>;

/// Relies on chrono::DateTime::parse_from_rfc3339, which parses an RFC 3339
/// date-time string, and chrono::DateTime::timestamp, which converts the
/// parsed instant to non-leap seconds since the Unix epoch.
#[verifier::external_body]
pub fn parse_rfc3339_seconds(s: &str) -> (r: Option<i64>)
    ensures
        r is Some <==> rfc3339_seconds(s@) is Some,
        r is Some ==> r->0 as int == rfc3339_seconds(s@)->0,
{
    match chrono::DateTime::parse_from_rfc3339(s) {
        Ok(t) => Some(t.timestamp()),
        Err(_) => None,
    }
}

/// Relies on chrono::Utc::now for the current wall-clock time and
/// chrono::DateTime::timestamp for its value as non-leap seconds since the
/// Unix epoch. Nothing is promised of the value: the clock moves between
/// calls.
#[verifier::external_body]
pub fn now_unix_seconds() -> i64 {
    chrono::Utc::now().timestamp()
}

/// Relies on chrono::Utc::now for the current wall-clock time and
/// chrono::DateTime::to_rfc3339 to render it as an RFC 3339 date-time string.
/// Nothing is promised of the value: the clock moves between calls.
#[verifier::external_body]
pub fn now_rfc3339() -> String {
    chrono::Utc::now().to_rfc3339()
}

} // verus!
