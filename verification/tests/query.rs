use healthscope::aggregate::{check_probe, refresh_status};
use healthscope::gate::{effective_interval, time_to_aggregate};
use healthscope::model::{ComponentInfo, HealthScope, HealthScopeSpec, HealthStatus};
use healthscope::query::scope_health;

fn component(name: &str, instance: &str, status: Option<&str>) -> ComponentInfo {
    ComponentInfo {
        name: name.to_string(),
        instance_name: instance.to_string(),
        status: status.map(|s| s.to_string()),
    }
}

fn status_of(components: Option<Vec<ComponentInfo>>) -> Option<HealthStatus> {
    Some(HealthStatus { components, last_aggregate_timestamp: None })
}

#[test]
fn all_healthy_components_fold_to_healthy() {
    let status = status_of(Some(vec![
        component("a", "inst1", Some("healthy")),
        component("b", "inst2", Some("healthy")),
    ]));
    assert_eq!(scope_health(&status), "healthy");
}

#[test]
fn one_unhealthy_component_folds_to_unhealthy() {
    let status = status_of(Some(vec![
        component("a", "inst1", Some("healthy")),
        component("b", "inst2", Some("unhealthy")),
        component("c", "inst3", Some("healthy")),
    ]));
    assert_eq!(scope_health(&status), "unhealthy");
    let status = status_of(Some(vec![component("a", "inst1", Some("broken"))]));
    assert_eq!(scope_health(&status), "unhealthy");
}

#[test]
fn absent_pieces_fold_to_healthy() {
    assert_eq!(scope_health(&None), "healthy");
    assert_eq!(scope_health(&status_of(None)), "healthy");
    assert_eq!(scope_health(&status_of(Some(vec![]))), "healthy");
}

#[test]
fn component_without_recorded_status_counts_as_healthy_in_the_fold() {
    // The query fold reads an absent recorded status as healthy, while the
    // aggregation pass substitutes "unhealthy" for a component it cannot
    // fetch: the two paths deliberately differ on absence.
    let status = status_of(Some(vec![
        component("a", "inst1", None),
        component("b", "inst2", Some("healthy")),
    ]));
    assert_eq!(scope_health(&status), "healthy");
}

#[test]
fn end_to_end_aggregation_then_query() {
    // Scope s1 probes every 10 seconds, was never aggregated, and lists two
    // components; the live fetch finds inst1 healthy and inst2 unhealthy.
    let scope = HealthScope {
        name: "s1".to_string(),
        namespace: "default".to_string(),
        spec: HealthScopeSpec {
            probe_interval: Some(10),
            probe_method: "poll-status".to_string(),
            probe_endpoint: ".status".to_string(),
        },
        status: Some(HealthStatus {
            components: Some(vec![
                component("a", "inst1", None),
                component("b", "inst2", None),
            ]),
            last_aggregate_timestamp: None,
        }),
    };
    let interval = effective_interval(scope.spec.probe_interval);
    assert_eq!(interval, 10);
    assert!(time_to_aggregate(scope.status.clone(), interval));
    assert!(check_probe(&scope.spec.probe_method, &scope.spec.probe_endpoint).is_ok());
    let fetched = vec![Some("healthy".to_string()), Some("unhealthy".to_string())];
    let aggregated = refresh_status(scope.status, fetched);
    assert_eq!(
        aggregated.components,
        Some(vec![
            component("a", "inst1", Some("healthy")),
            component("b", "inst2", Some("unhealthy")),
        ])
    );
    assert!(aggregated.last_aggregate_timestamp.is_some());
    assert_eq!(scope_health(&Some(aggregated)), "unhealthy");
}
