//! One aggregation pass over a scope: dispatch on the probe pair, refresh the
//! recorded per-component statuses from the fetched live ones, and build the
//! status to write back. Fetching and patching are I/O and happen outside;
//! these functions take the fetched values and return the status to store.

use vstd::prelude::*;
use vstd::string::StringExecFns;

use crate::clock::now_rfc3339;
use crate::model::{ComponentInfo, HealthError, HealthStatus, spec_components, spec_verdicts};

verus! {

/// The one probe pair the engine supports: read the component instances'
/// status fields.
pub open spec fn spec_probe_supported(method: Seq<char>, endpoint: Seq<char>) -> bool {
    method == "poll-status"@ && endpoint == ".status"@
}

/// Dispatches on a scope's probe pair: `Ok` exactly for the supported pair,
/// otherwise an `UnsupportedProbe` error naming the offending pair. A scope
/// with an unsupported pair is skipped by the caller without any write.
pub fn check_probe(method: &String, endpoint: &String) -> (r: Result<(), HealthError>)
    ensures
        r is Ok <==> spec_probe_supported(method@, endpoint@),
        r is Err ==> (r->Err_0 matches HealthError::UnsupportedProbe { method: m, endpoint: e }
            && m@ == method@ && e@ == endpoint@),
{
    let supported_method: String = String::from_str("poll-status");
    let supported_endpoint: String = String::from_str(".status");
    if *method == supported_method && *endpoint == supported_endpoint {
        Ok(())
    } else {
        Err(HealthError::UnsupportedProbe { method: method.clone(), endpoint: endpoint.clone() })
    }
}

/// The verdict recorded for one component from its fetched live status:
/// the status as fetched, or `"unhealthy"` where the instance could not be
/// fetched or carries no status field.
pub open spec fn spec_status_or_unhealthy(fetched: Option<Seq<char>>) -> Seq<char> {
    match fetched {
        Some(s) => s,
        None => "unhealthy"@,
    }
}

/// The verdicts one refresh records, one per fetched live status.
pub open spec fn spec_refreshed_verdicts(fetched: Seq<Option<Seq<char>>>) -> Seq<Option<Seq<char>>> {
    Seq::new(fetched.len(), |i: int| Some(spec_status_or_unhealthy(fetched[i])))
}

/// Substitutes `"unhealthy"` for an absent live status.
pub fn status_or_unhealthy(fetched: Option<String>) -> (verdict: String)
    ensures
        verdict@ == spec_status_or_unhealthy(fetched.deep_view()),
{
    match fetched {
        Some(s) => s,
        None => String::from_str("unhealthy"),
    }
}

/// Refreshes a component list from the live statuses fetched for it, entry by
/// entry: names are kept, and every entry's recorded status becomes the
/// fetched one, with `"unhealthy"` substituted where the fetch came back
/// empty-handed.
pub fn refresh_components(components: Vec<ComponentInfo>, fetched: Vec<Option<String>>) -> (updated: Vec<ComponentInfo>)
    requires
        fetched@.len() == components@.len(),
    ensures
        updated@.len() == components@.len(),
        forall|i: int| 0 <= i < components@.len() ==> {
            &&& (#[trigger] updated@[i]).name@ == components@[i].name@
            &&& updated@[i].instance_name@ == components@[i].instance_name@
        },
        spec_verdicts(updated@) == spec_refreshed_verdicts(fetched.deep_view()),
{
    let mut updated: Vec<ComponentInfo> = Vec::new();
    let mut i: usize = 0;
    while i < components.len()
        invariant
            i <= components@.len(),
            fetched@.len() == components@.len(),
            updated@.len() == i,
            forall|j: int| 0 <= j < i ==> {
                &&& (#[trigger] updated@[j]).name@ == components@[j].name@
                &&& updated@[j].instance_name@ == components@[j].instance_name@
                &&& updated@[j].status is Some
                &&& updated@[j].status->0@ == spec_status_or_unhealthy(fetched@[j].deep_view())
            },
        decreases components@.len() - i,
    {
        let live: Option<String> = match &fetched[i] {
            Some(s) => Some(s.clone()),
            None => None,
        };
        let entry = &components[i];
        updated.push(ComponentInfo {
            name: entry.name.clone(),
            instance_name: entry.instance_name.clone(),
            status: Some(status_or_unhealthy(live)),
        });
        i += 1;
    }
    proof {
        assert(spec_verdicts(updated@) =~= spec_refreshed_verdicts(fetched.deep_view()));
    }
    updated
}

/// Builds the status to write back, for a known timestamp: the refreshed
/// component list (absent where the scope listed none) and the timestamp.
pub fn aggregated_status(components: Option<Vec<ComponentInfo>>, fetched: Vec<Option<String>>, timestamp: String) -> (st: HealthStatus)
    requires
        components is Some ==> fetched@.len() == components->0@.len(),
        components is None ==> fetched@.len() == 0,
    ensures
        st.last_aggregate_timestamp is Some,
        st.last_aggregate_timestamp->0@ == timestamp@,
        st.components is Some <==> components is Some,
        components is Some ==> {
            &&& st.components->0@.len() == components->0@.len()
            &&& forall|i: int| 0 <= i < components->0@.len() ==> {
                &&& (#[trigger] st.components->0@[i]).name@ == components->0@[i].name@
                &&& st.components->0@[i].instance_name@ == components->0@[i].instance_name@
            }
            &&& spec_verdicts(st.components->0@) == spec_refreshed_verdicts(fetched.deep_view())
        },
{
    match components {
        Some(cs) => HealthStatus {
            components: Some(refresh_components(cs, fetched)),
            last_aggregate_timestamp: Some(timestamp),
        },
        None => HealthStatus {
            components: None,
            last_aggregate_timestamp: Some(timestamp),
        },
    }
}

/// One aggregation pass, stamped with the current wall-clock time: takes the
/// component list stored under the scope's status and the live statuses
/// fetched for it, and returns the status to write back. The timestamp is
/// whatever the clock gave; everything else is pinned down by
/// `aggregated_status`.
pub fn refresh_status(status: Option<HealthStatus>, fetched: Vec<Option<String>>) -> (st: HealthStatus)
    requires
        spec_components(status) is Some ==> fetched@.len() == spec_components(status)->0.len(),
        spec_components(status) is None ==> fetched@.len() == 0,
    ensures
        st.last_aggregate_timestamp is Some,
        st.components is Some <==> spec_components(status) is Some,
        spec_components(status) is Some ==> {
            &&& st.components->0@.len() == spec_components(status)->0.len()
            &&& forall|i: int| 0 <= i < spec_components(status)->0.len() ==> {
                &&& (#[trigger] st.components->0@[i]).name@ == spec_components(status)->0[i].name@
                &&& st.components->0@[i].instance_name@ == spec_components(status)->0[i].instance_name@
            }
            &&& spec_verdicts(st.components->0@) == spec_refreshed_verdicts(fetched.deep_view())
        },
{
    let components: Option<Vec<ComponentInfo>> = match status {
        Some(st) => st.components,
        None => None,
    };
    let timestamp = now_rfc3339();
    aggregated_status(components, fetched, timestamp)
}

/// Aggregation is idempotent when no component state changed: where every
/// listed component already carries a recorded status and the fetch returned
/// that same status for each, a refresh records exactly the verdicts that
/// were already stored — only the timestamp moves.
pub proof fn lemma_refresh_idempotent(cs: Seq<ComponentInfo>, fetched: Seq<Option<Seq<char>>>)
    requires
        fetched.len() == cs.len(),
        forall|i: int| 0 <= i < cs.len() ==> (#[trigger] cs[i]).status is Some,
        forall|i: int| 0 <= i < cs.len() ==> fetched[i] == Some(cs[i].status->0@),
    ensures
        spec_refreshed_verdicts(fetched) == spec_verdicts(cs),
{
    assert(spec_refreshed_verdicts(fetched) =~= spec_verdicts(cs));
}

/// The name of the component-instance object addressed by a component entry:
/// the component name and the instance name joined by a hyphen.
pub fn combine_name(name: String, instance_name: String) -> (combined: String)
    ensures
        combined@ == name@ + "-"@ + instance_name@,
{
    name.concat("-").concat(instance_name.as_str())
}

} // verus!
