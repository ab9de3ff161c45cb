//! The disruption budget that keeps a container's single pod in place.
use crate::labels::{common_labels_of, pod_selector_labels, resource_labels, CONTAINER};
use crate::model::{Challenge, ChallengeInstance, ContainerSpec};
use crate::text::{join2, owned, pairs_view};
use vstd::prelude::*;

verus! {

/// A pod disruption budget over the pods of one container.
#[derive(Clone, Debug)]
pub struct PodDisruptionBudget {
    pub name: String,
    pub namespace: String,
    pub labels: Vec<(String, String)>,
    pub max_unavailable: i32,
    pub selector: Vec<(String, String)>,
}

/// Suffix of the name of a container's disruption budget.
pub const PDB_SUFFIX: &'static str = "-pdb";

/// Whether `p` is the disruption budget of container `c` in `namespace`.
pub open spec fn pdb_is(p: PodDisruptionBudget, instance: ChallengeInstance, c: ContainerSpec, namespace: Seq<char>) -> bool {
    &&& p.name@ == c.hostname@ + PDB_SUFFIX@
    &&& p.namespace@ == namespace
    &&& pairs_view(p.labels@) == common_labels_of(instance)
    &&& p.max_unavailable == 0
    &&& pairs_view(p.selector@) == seq![(CONTAINER@, c.hostname@)]
}

/// The budget `{hostname}-pdb`: no pod of the container may be evicted.
pub fn build_pdb(instance: &ChallengeInstance, challenge: &Challenge, container: &ContainerSpec, namespace: &str) -> (r: PodDisruptionBudget)
    ensures
        pdb_is(r, *instance, *container, namespace@),
{
    PodDisruptionBudget {
        name: join2(container.hostname.as_str(), PDB_SUFFIX),
        namespace: owned(namespace),
        labels: resource_labels(instance, challenge),
        max_unavailable: 0,
        selector: pod_selector_labels(container),
    }
}

} // verus!
