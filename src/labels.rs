//! The label vocabulary shared by every child resource of an instance.
use crate::model::{Challenge, ChallengeInstance, ContainerSpec, ControllerConfig};
use crate::text::{pair, pairs_view};
use vstd::prelude::*;

verus! {

pub const MANAGED_BY: &'static str = "app.kubernetes.io/managed-by";
pub const COMPONENT: &'static str = "app.kubernetes.io/component";
pub const CHALLENGE: &'static str = "berg.norelect.ch/challenge";
pub const CHALLENGE_NAMESPACE: &'static str = "berg.norelect.ch/challenge-namespace";
pub const OWNER_ID: &'static str = "berg.norelect.ch/owner-id";
pub const INSTANCE_ID: &'static str = "berg.norelect.ch/instance-id";
pub const CONTAINER: &'static str = "berg.norelect.ch/container";
pub const MANAGER: &'static str = "berg";
pub const CHALLENGE_COMPONENT: &'static str = "challenge";


/// The instance id recorded on `i`, if any.
pub open spec fn instance_id_of(i: ChallengeInstance) -> Option<Seq<char>> {
    match i.status {
        Some(s) => match s.instance_id {
            Some(id) => Some(id@),
            None => None,
        },
        None => None,
    }
}

/// The labels that every child resource of `i` carries.
pub open spec fn common_labels_of(i: ChallengeInstance) -> Seq<(Seq<char>, Seq<char>)> {
    let base = seq![
        (MANAGED_BY@, MANAGER@),
        (COMPONENT@, CHALLENGE_COMPONENT@),
        (CHALLENGE@, i.spec.challenge_ref.name@),
        (OWNER_ID@, i.spec.owner_id@),
    ];
    match instance_id_of(i) {
        Some(id) => base.push((INSTANCE_ID@, id)),
        None => base,
    }
}

/// The namespace of the challenge that `i` names; `default_ns` where the
/// reference names none.
pub open spec fn challenge_namespace_of(i: ChallengeInstance, default_ns: Seq<char>) -> Seq<char> {
    match i.spec.challenge_ref.namespace {
        Some(n) => n@,
        None => default_ns,
    }
}

/// The labels of the namespace of `i`; `default_ns` is the namespace of
/// challenges whose reference names none.
pub open spec fn namespace_labels_of(i: ChallengeInstance, default_ns: Seq<char>) -> Seq<(Seq<char>, Seq<char>)> {
    let ns = challenge_namespace_of(i, default_ns);
    let base = seq![
        (MANAGED_BY@, MANAGER@),
        (COMPONENT@, CHALLENGE_COMPONENT@),
        (CHALLENGE@, i.spec.challenge_ref.name@),
        (CHALLENGE_NAMESPACE@, ns),
        (OWNER_ID@, i.spec.owner_id@),
    ];
    match instance_id_of(i) {
        Some(id) => base.push((INSTANCE_ID@, id)),
        None => base,
    }
}


fn push_instance_id(labels: &mut Vec<(String, String)>, instance: &ChallengeInstance)
    ensures
        pairs_view(final(labels)@) == match instance_id_of(*instance) {
            Some(id) => pairs_view(old(labels)@).push((INSTANCE_ID@, id)),
            None => pairs_view(old(labels)@),
        },
{
    let ghost before = labels@;
    if let Some(status) = &instance.status {
        if let Some(id) = &status.instance_id {
            labels.push(pair(INSTANCE_ID, id.as_str()));
            proof {
                assert(pairs_view(labels@) =~= pairs_view(before).push((INSTANCE_ID@, id@)));
            }
        }
    }
}

/// Standard labels for all resources of an instance.
pub fn common_labels(instance: &ChallengeInstance, _challenge: &Challenge) -> (r: Vec<(String, String)>)
    ensures
        pairs_view(r@) == common_labels_of(*instance),
{
    let mut labels: Vec<(String, String)> = Vec::new();
    labels.push(pair(MANAGED_BY, MANAGER));
    labels.push(pair(COMPONENT, CHALLENGE_COMPONENT));
    labels.push(pair(CHALLENGE, instance.spec.challenge_ref.name.as_str()));
    labels.push(pair(OWNER_ID, instance.spec.owner_id.as_str()));
    proof {
        assert(pairs_view(labels@) =~= seq![
            (MANAGED_BY@, MANAGER@),
            (COMPONENT@, CHALLENGE_COMPONENT@),
            (CHALLENGE@, instance.spec.challenge_ref.name@),
            (OWNER_ID@, instance.spec.owner_id@),
        ]);
    }
    push_instance_id(&mut labels, instance);
    labels
}

/// Labels of an instance's namespace.
pub fn namespace_labels(instance: &ChallengeInstance, config: &ControllerConfig) -> (r: Vec<(String, String)>)
    ensures
        pairs_view(r@) == namespace_labels_of(*instance, config.challenge_namespace@),
{
    let mut labels: Vec<(String, String)> = Vec::new();
    labels.push(pair(MANAGED_BY, MANAGER));
    labels.push(pair(COMPONENT, CHALLENGE_COMPONENT));
    labels.push(pair(CHALLENGE, instance.spec.challenge_ref.name.as_str()));
    let ns = match &instance.spec.challenge_ref.namespace {
        Some(n) => n.as_str(),
        None => config.challenge_namespace.as_str(),
    };
    labels.push(pair(CHALLENGE_NAMESPACE, ns));
    labels.push(pair(OWNER_ID, instance.spec.owner_id.as_str()));
    proof {
        let nsv = challenge_namespace_of(*instance, config.challenge_namespace@);
        assert(pairs_view(labels@) =~= seq![
            (MANAGED_BY@, MANAGER@),
            (COMPONENT@, CHALLENGE_COMPONENT@),
            (CHALLENGE@, instance.spec.challenge_ref.name@),
            (CHALLENGE_NAMESPACE@, nsv),
            (OWNER_ID@, instance.spec.owner_id@),
        ]);
    }
    push_instance_id(&mut labels, instance);
    labels
}

/// Labels of the pods of a container: the common labels and the container's hostname.
pub fn pod_labels(instance: &ChallengeInstance, challenge: &Challenge, container: &ContainerSpec) -> (r: Vec<(String, String)>)
    ensures
        pairs_view(r@) == common_labels_of(*instance).push((CONTAINER@, container.hostname@)),
{
    let mut labels = common_labels(instance, challenge);
    let ghost before = labels@;
    labels.push(pair(CONTAINER, container.hostname.as_str()));
    proof {
        assert(pairs_view(labels@) =~= pairs_view(before).push((CONTAINER@, container.hostname@)));
    }
    labels
}

/// The selector of a container's pods: exactly its container label.
pub fn pod_selector_labels(container: &ContainerSpec) -> (r: Vec<(String, String)>)
    ensures
        pairs_view(r@) == seq![(CONTAINER@, container.hostname@)],
{
    let mut labels: Vec<(String, String)> = Vec::new();
    labels.push(pair(CONTAINER, container.hostname.as_str()));
    proof {
        assert(pairs_view(labels@) =~= seq![(CONTAINER@, container.hostname@)]);
    }
    labels
}

/// Labels of a child resource of an instance.
pub fn resource_labels(instance: &ChallengeInstance, challenge: &Challenge) -> (r: Vec<(String, String)>)
    ensures
        pairs_view(r@) == common_labels_of(*instance),
{
    common_labels(instance, challenge)
}

} // verus!
