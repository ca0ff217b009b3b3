//! The aggregation gate: decides whether a scope is due for re-aggregation,
//! from its last-aggregated timestamp and its probe interval.

use vstd::prelude::*;

use crate::clock::{now_unix_seconds, parse_rfc3339_seconds, rfc3339_seconds};
use crate::model::HealthStatus;

verus! {

/// The probe interval a scope falls back to when its spec names none.
pub const DEFAULT_PROBE_INTERVAL: i64 = 30;

/// Due on known times: when the interval is zero or negative, when no
/// last-aggregation time is known, or when at least `interval` seconds have
/// passed since it.
pub open spec fn spec_due(last: Option<i64>, interval: i64, now: i64) -> bool {
    ||| interval <= 0
    ||| last is None
    ||| now - last->0 >= interval
}

/// Decides whether to aggregate, with every time given in seconds since the
/// Unix epoch.
pub fn due_at(last: Option<i64>, interval: i64, now: i64) -> (due: bool)
    ensures
        due == spec_due(last, interval, now),
{
    if interval <= 0 {
        return true;
    }
    match last {
        None => true,
        Some(l) => (now as i128) - (l as i128) >= (interval as i128),
    }
}

/// The probe interval of a scope: its declared one, or the default.
pub fn effective_interval(probe_interval: Option<i64>) -> (interval: i64)
    ensures
        interval == match probe_interval {
            Some(declared) => declared,
            None => DEFAULT_PROBE_INTERVAL,
        },
{
    match probe_interval {
        Some(declared) => declared,
        None => DEFAULT_PROBE_INTERVAL,
    }
}

/// Whether a scope with the given stored status is due for re-aggregation,
/// judged against the current wall-clock time. The decision errs toward
/// aggregating: a scope that was never aggregated, carries no timestamp, or
/// carries one that does not parse as RFC 3339 is always due, as is any scope
/// whose interval is zero or negative. Only a scope whose timestamp parses can
/// be held back, and then exactly until `interval` seconds have passed.
pub fn time_to_aggregate(status: Option<HealthStatus>, interval: i64) -> (due: bool)
    ensures
        interval <= 0 ==> due,
        status is None ==> due,
        status is Some && status->0.last_aggregate_timestamp is None ==> due,
        status is Some && status->0.last_aggregate_timestamp is Some
            && rfc3339_seconds(status->0.last_aggregate_timestamp->0@) is None ==> due,
        !due ==> interval > 0 && status is Some
            && status->0.last_aggregate_timestamp is Some
            && rfc3339_seconds(status->0.last_aggregate_timestamp->0@) is Some,
{
    let last: Option<i64> = match &status {
        None => None,
        Some(st) => match &st.last_aggregate_timestamp {
            None => None,
            Some(ts) => parse_rfc3339_seconds(ts.as_str()),
        },
    };
    due_at(last, interval, now_unix_seconds())
}

} // verus!
