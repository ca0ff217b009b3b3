//! The verdict a query returns: fold a scope's stored component statuses
//! into `"healthy"` or `"unhealthy"`. The fetch of the scope is I/O and
//! happens outside; this fold takes the fetched status.

use vstd::prelude::*;
use vstd::string::StringExecFns;

use crate::aggregate::{spec_refreshed_verdicts, spec_status_or_unhealthy};
use crate::model::{ComponentInfo, HealthStatus, spec_components, spec_verdicts};

verus! {

/// A component counts against the scope only when it carries a recorded
/// status other than `"healthy"`; an entry without a recorded status does not.
/// (The aggregation pass, by contrast, records `"unhealthy"` for a component
/// it cannot fetch: the two paths deliberately read absence differently.)
pub open spec fn spec_component_healthy(c: ComponentInfo) -> bool {
    c.status is Some ==> c.status->0@ == "healthy"@
}

pub open spec fn spec_all_healthy(cs: Seq<ComponentInfo>) -> bool {
    forall|i: int| 0 <= i < cs.len() ==> spec_component_healthy(#[trigger] cs[i])
}

/// The query verdict for a stored status: `"unhealthy"` exactly when some
/// listed component carries a recorded status other than `"healthy"`; a scope
/// without a stored component list is `"healthy"`.
pub open spec fn spec_scope_health(status: Option<HealthStatus>) -> Seq<char> {
    match spec_components(status) {
        Some(cs) => if spec_all_healthy(cs) {
            "healthy"@
        } else {
            "unhealthy"@
        },
        None => "healthy"@,
    }
}

/// Fold correctness: a scope whose listed components all carry the recorded
/// status `"healthy"` folds to `"healthy"`, and one where any listed
/// component carries a recorded status other than `"healthy"` folds to
/// `"unhealthy"` — and those two verdicts are distinct strings.
pub proof fn lemma_fold_verdicts(status: Option<HealthStatus>)
    requires
        spec_components(status) is Some,
    ensures
        (forall|i: int| 0 <= i < spec_components(status)->0.len()
            ==> (#[trigger] spec_components(status)->0[i]).status is Some
                && spec_components(status)->0[i].status->0@ == "healthy"@)
            ==> spec_scope_health(status) == "healthy"@,
        (exists|i: int| 0 <= i < spec_components(status)->0.len()
            && (#[trigger] spec_components(status)->0[i]).status is Some
            && spec_components(status)->0[i].status->0@ != "healthy"@)
            ==> spec_scope_health(status) == "unhealthy"@,
        "healthy"@ != "unhealthy"@,
{
    reveal_strlit("healthy");
    reveal_strlit("unhealthy");
    assert("healthy"@.len() == 7);
    assert("unhealthy"@.len() == 9);
    let cs = spec_components(status)->0;
    if exists|i: int| 0 <= i < cs.len()
        && (#[trigger] cs[i]).status is Some
        && cs[i].status->0@ != "healthy"@ {
        let i = choose|i: int| 0 <= i < cs.len()
            && (#[trigger] cs[i]).status is Some
            && cs[i].status->0@ != "healthy"@;
        assert(!spec_component_healthy(cs[i]));
        assert(!spec_all_healthy(cs));
    }
}

/// What a fresh aggregation means for the next query: a component list whose
/// verdicts were just refreshed folds to `"healthy"` exactly when every
/// fetched live status was `"healthy"` — with `"unhealthy"` standing in for
/// the components that could not be fetched.
pub proof fn lemma_aggregate_then_query(cs: Seq<ComponentInfo>, fetched: Seq<Option<Seq<char>>>)
    requires
        spec_verdicts(cs) == spec_refreshed_verdicts(fetched),
    ensures
        cs.len() == fetched.len(),
        spec_all_healthy(cs) <==> (forall|i: int| 0 <= i < fetched.len()
            ==> spec_status_or_unhealthy(#[trigger] fetched[i]) == "healthy"@),
{
    assert(spec_verdicts(cs).len() == cs.len());
    assert(spec_refreshed_verdicts(fetched).len() == fetched.len());
    assert forall|i: int| 0 <= i < cs.len() implies (#[trigger] cs[i]).status is Some
        && cs[i].status->0@ == spec_status_or_unhealthy(fetched[i]) by {
        assert(spec_verdicts(cs)[i] == spec_refreshed_verdicts(fetched)[i]);
        assert(cs[i].status.deep_view() == Some(spec_status_or_unhealthy(fetched[i])));
    }
    if spec_all_healthy(cs) {
        assert forall|i: int| 0 <= i < fetched.len() implies
            spec_status_or_unhealthy(#[trigger] fetched[i]) == "healthy"@ by {
            assert(spec_component_healthy(cs[i]));
        }
    }
    if forall|i: int| 0 <= i < fetched.len()
        ==> spec_status_or_unhealthy(#[trigger] fetched[i]) == "healthy"@ {
        assert forall|i: int| 0 <= i < cs.len() implies
            spec_component_healthy(#[trigger] cs[i]) by {
            assert(spec_status_or_unhealthy(fetched[i]) == "healthy"@);
        }
    }
}

/// Folds a scope's stored status into its query verdict.
pub fn scope_health(status: &Option<HealthStatus>) -> (verdict: String)
    ensures
        verdict@ == spec_scope_health(*status),
{
    let healthy_label: String = String::from_str("healthy");
    let mut healthy = true;
    if let Some(st) = status {
        if let Some(cs) = &st.components {
            let mut i: usize = 0;
            while i < cs.len()
                invariant
                    i <= cs@.len(),
                    healthy == spec_all_healthy(cs@.take(i as int)),
                    healthy_label@ == "healthy"@,
                decreases cs@.len() - i,
            {
                if let Some(recorded) = &cs[i].status {
                    if !(*recorded == healthy_label) {
                        healthy = false;
                    }
                }
                proof {
                    assert(cs@.take(i + 1 as int).drop_last() =~= cs@.take(i as int));
                    assert(cs@.take(i + 1 as int).last() == cs@[i as int]);
                }
                i += 1;
            }
            proof {
                assert(cs@.take(cs@.len() as int) =~= cs@);
            }
        }
    }
    if healthy {
        healthy_label
    } else {
        String::from_str("unhealthy")
    }
}

} // verus!
