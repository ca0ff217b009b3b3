//! The data the controller works on: scopes, their stored statuses, and the
//! errors the engine can report.

use vstd::prelude::*;

verus! {

/// One constituent workload listed in a scope's status. `name` and
/// `instance_name` together address the component-instance object that holds
/// the live status; `status` is the verdict recorded by the most recent
/// aggregation, absent if none was recorded yet.
#[derive(Clone, Debug, PartialEq)]
pub struct ComponentInfo {
    pub name: String,
    pub instance_name: String,
    pub status: Option<String>,
}

/// The status subresource of a scope: the recorded per-component verdicts and
/// the time of the most recent successful aggregation as an RFC 3339 string.
/// An absent timestamp means the scope was never aggregated.
#[derive(Clone, Debug, PartialEq)]
pub struct HealthStatus {
    pub components: Option<Vec<ComponentInfo>>,
    pub last_aggregate_timestamp: Option<String>,
}

/// The spec half of a scope object: how often to re-aggregate and which probe
/// method and endpoint derive the component health.
#[derive(Clone, Debug, PartialEq)]
pub struct HealthScopeSpec {
    pub probe_interval: Option<i64>,
    pub probe_method: String,
    pub probe_endpoint: String,
}

/// A scope object as read from the store: a named, namespaced grouping of
/// components together with its spec and its stored status.
#[derive(Clone, Debug, PartialEq)]
pub struct HealthScope {
    pub name: String,
    pub namespace: String,
    pub spec: HealthScopeSpec,
    pub status: Option<HealthStatus>,
}

/// The failures the engine distinguishes. Fetch failures for a single
/// component do not appear here: they are substituted inside the aggregation
/// pass and never abort it.
#[derive(Clone, Debug, PartialEq)]
pub enum HealthError {
    /// A scope declares a probe method/endpoint pair the engine does not
    /// support; the scope is skipped without any write.
    UnsupportedProbe { method: String, endpoint: String },
    /// Writing the refreshed status back to the store failed.
    PatchFailure { message: String },
    /// Listing the scopes of the namespace failed; the loop retries on its
    /// next iteration.
    ListFailure { message: String },
    /// An on-demand query could not read the scope; the message becomes the
    /// query response body.
    QueryFetchFailure { message: String },
}

/// The component list stored under a scope's status, if there is one.
pub open spec fn spec_components(status: Option<HealthStatus>) -> Option<Seq<ComponentInfo>> {
    if status is Some && status->0.components is Some {
        Some(status->0.components->0@)
    } else {
        None
    }
}

/// The per-component verdicts of a component list, as recorded.
pub open spec fn spec_verdicts(cs: Seq<ComponentInfo>) -> Seq<Option<Seq<char>>> {
    Seq::new(cs.len(), |i: int| cs[i].status.deep_view())
}

} // verus!
