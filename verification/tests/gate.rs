use chrono::{Duration, Utc};
use healthscope::gate::{due_at, effective_interval, time_to_aggregate, DEFAULT_PROBE_INTERVAL};
use healthscope::model::HealthStatus;

fn status_with_timestamp(ts: Option<String>) -> Option<HealthStatus> {
    Some(HealthStatus { components: None, last_aggregate_timestamp: ts })
}

#[test]
fn test_time_to_action() {
    assert_eq!(time_to_aggregate(None, 10), true);
    let status = status_with_timestamp(None);
    assert_eq!(time_to_aggregate(status, 10), true);
    let status = status_with_timestamp(Some(
        Utc::now()
            .checked_sub_signed(Duration::seconds(11))
            .unwrap()
            .to_rfc3339(),
    ));
    assert_eq!(time_to_aggregate(status.clone(), 10), true);
    assert_eq!(time_to_aggregate(status.clone(), 15), false);
    assert_eq!(time_to_aggregate(status.clone(), 0), true);
}

#[test]
fn non_positive_interval_is_always_due() {
    let recent = status_with_timestamp(Some(Utc::now().to_rfc3339()));
    assert_eq!(time_to_aggregate(recent.clone(), 0), true);
    assert_eq!(time_to_aggregate(recent, -5), true);
    assert_eq!(time_to_aggregate(None, -1), true);
}

#[test]
fn absent_status_or_timestamp_is_due() {
    assert_eq!(time_to_aggregate(None, 1_000_000), true);
    assert_eq!(time_to_aggregate(status_with_timestamp(None), 1_000_000), true);
}

#[test]
fn malformed_timestamp_fails_open() {
    let status = status_with_timestamp(Some("not-a-timestamp".to_string()));
    assert_eq!(time_to_aggregate(status, i64::MAX), true);
}

#[test]
fn old_timestamp_is_parsed_and_due() {
    // The Unix epoch is long past any reasonable interval...
    let status = status_with_timestamp(Some("1970-01-01T00:00:00+00:00".to_string()));
    assert_eq!(time_to_aggregate(status.clone(), 60), true);
    // ...but an interval larger than the age of the epoch holds the scope
    // back, which shows the timestamp was genuinely parsed and compared.
    assert_eq!(time_to_aggregate(status, i64::MAX), false);
}

#[test]
fn due_at_compares_in_seconds() {
    assert_eq!(due_at(Some(100), 10, 111), true);
    assert_eq!(due_at(Some(100), 10, 110), true);
    assert_eq!(due_at(Some(100), 15, 111), false);
    assert_eq!(due_at(Some(100), 0, 100), true);
    assert_eq!(due_at(None, i64::MAX, 0), true);
    // The subtraction is exact even at the extremes of the range.
    assert_eq!(due_at(Some(i64::MIN), i64::MAX, i64::MAX), true);
}

#[test]
fn interval_defaults_to_thirty_seconds() {
    assert_eq!(effective_interval(None), 30);
    assert_eq!(DEFAULT_PROBE_INTERVAL, 30);
    assert_eq!(effective_interval(Some(10)), 10);
    assert_eq!(effective_interval(Some(-3)), -3);
}
