//! The namespace that holds all resources of an instance.
use crate::labels::{namespace_labels, namespace_labels_of};
use crate::model::{ChallengeInstance, ControllerConfig};
use crate::text::{owned, pairs_view};
use vstd::prelude::*;

verus! {

/// A namespace; the owner reference to its instance is added where it is created.
#[derive(Clone, Debug)]
pub struct Namespace {
    pub name: String,
    pub labels: Vec<(String, String)>,
}

/// The namespace `name` of an instance, with the namespace labels.
pub fn build_namespace(instance: &ChallengeInstance, name: &str, config: &ControllerConfig) -> (r: Namespace)
    ensures
        r.name@ == name@,
        pairs_view(r.labels@) == namespace_labels_of(*instance, config.challenge_namespace@),
{
    Namespace { name: owned(name), labels: namespace_labels(instance, config) }
}

} // verus!
