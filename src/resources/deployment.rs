//! The single-replica workload of one challenge container.
use crate::flag::volume::FlagVolume;
use crate::labels::{common_labels_of, pod_labels, pod_selector_labels, resource_labels, CONTAINER};
use crate::model::{
    Challenge, ChallengeInstance, ChallengeInstanceClass, ContainerSpec, ResourceDefaults, ResourceSpec,
};
use crate::text::{copy_opt, copy_pairs, copy_strings, opt_view, owned, pair, pairs_view, strings_view};
use vstd::prelude::*;

verus! {

/// CPU and memory requests and limits of a container.
#[derive(Clone, Debug)]
pub struct ResourceRequirements {
    pub cpu_limit: String,
    pub cpu_request: String,
    pub memory_limit: String,
    pub memory_request: String,
}

/// Privileges of a container.
#[derive(Clone, Debug)]
pub struct SecurityContext {
    pub privileged: bool,
    pub allow_privilege_escalation: bool,
    pub capabilities_add: Vec<String>,
    pub capabilities_drop: Vec<String>,
}

/// A deployment of one replica of one container.
#[derive(Clone, Debug)]
pub struct Deployment {
    pub name: String,
    pub namespace: String,
    pub labels: Vec<(String, String)>,
    pub replicas: i32,
    pub selector: Vec<(String, String)>,
    pub pod_labels: Vec<(String, String)>,
    pub pod_annotations: Vec<(String, String)>,
    pub hostname: String,
    pub container_name: String,
    pub image: String,
    pub image_pull_policy: Option<String>,
    pub env: Vec<(String, String)>,
    pub volumes: Vec<FlagVolume>,
    pub resources: ResourceRequirements,
    pub readiness_probe: Option<String>,
    pub liveness_probe: Option<String>,
    pub security_context: SecurityContext,
    pub runtime_class_name: Option<String>,
    pub enable_service_links: bool,
    pub automount_service_account_token: bool,
    pub termination_grace_period_seconds: i64,
}

pub const NAMESPACE_ENV: &'static str = "CHALLENGE_NAMESPACE";
pub const EGRESS_BANDWIDTH: &'static str = "kubernetes.io/egress-bandwidth";
pub const INGRESS_BANDWIDTH: &'static str = "kubernetes.io/ingress-bandwidth";
pub const SAFE_TO_EVICT: &'static str = "cluster-autoscaler.kubernetes.io/safe-to-evict";
pub const FALSE_TEXT: &'static str = "false";
pub const DAC_OVERRIDE: &'static str = "DAC_OVERRIDE";
pub const FALLBACK_CPU_LIMIT: &'static str = "1000m";
pub const FALLBACK_CPU_REQUEST: &'static str = "100m";
pub const FALLBACK_MEMORY_LIMIT: &'static str = "512Mi";
pub const FALLBACK_MEMORY_REQUEST: &'static str = "128Mi";

/// A quantity of a container, else of the class, else the fallback.
pub open spec fn chosen(own: Option<Seq<char>>, class_default: Option<Seq<char>>, fallback: Seq<char>) -> Seq<char> {
    match own {
        Some(q) => q,
        None => match class_default {
            Some(q) => q,
            None => fallback,
        },
    }
}

pub open spec fn cpu_of(r: Option<ResourceSpec>) -> Option<Seq<char>> {
    match r {
        Some(x) => opt_view(x.cpu),
        None => None,
    }
}

pub open spec fn memory_of(r: Option<ResourceSpec>) -> Option<Seq<char>> {
    match r {
        Some(x) => opt_view(x.memory),
        None => None,
    }
}

/// The resources of a container under a class.
pub open spec fn resources_are(r: ResourceRequirements, c: ContainerSpec, class: ChallengeInstanceClass) -> bool {
    let d = class.spec.default_resources;
    let dflt = |f: spec_fn(ResourceDefaults) -> Option<String>|
        match d {
            Some(x) => opt_view(f(x)),
            None => None,
        };
    &&& r.cpu_limit@ == chosen(cpu_of(c.resource_limits), dflt(|x: ResourceDefaults| x.cpu_limit), FALLBACK_CPU_LIMIT@)
    &&& r.cpu_request@ == chosen(cpu_of(c.resource_requests), dflt(|x: ResourceDefaults| x.cpu_request), FALLBACK_CPU_REQUEST@)
    &&& r.memory_limit@ == chosen(memory_of(c.resource_limits), dflt(|x: ResourceDefaults| x.memory_limit), FALLBACK_MEMORY_LIMIT@)
    &&& r.memory_request@ == chosen(memory_of(c.resource_requests), dflt(|x: ResourceDefaults| x.memory_request), FALLBACK_MEMORY_REQUEST@)
}

fn quantity(own: &Option<String>, class_default: &Option<String>, fallback: &str) -> (r: String)
    ensures
        r@ == chosen(opt_view(*own), opt_view(*class_default), fallback@),
{
    match own {
        Some(q) => owned(q.as_str()),
        None => match class_default {
            Some(q) => owned(q.as_str()),
            None => owned(fallback),
        },
    }
}

fn no_quantity() -> (r: Option<String>)
    ensures
        r is None,
{
    None
}

/// Requests and limits: the container's own, else the class defaults, else
/// 100m/1000m of CPU and 128Mi/512Mi of memory.
pub fn build_resources(container_spec: &ContainerSpec, class: &ChallengeInstanceClass) -> (r: ResourceRequirements)
    ensures
        resources_are(r, *container_spec, *class),
{
    let none = no_quantity();
    let (dcl, dcr, dml, dmr) = match &class.spec.default_resources {
        Some(d) => (&d.cpu_limit, &d.cpu_request, &d.memory_limit, &d.memory_request),
        None => (&none, &none, &none, &none),
    };
    let (lc, lm) = match &container_spec.resource_limits {
        Some(l) => (&l.cpu, &l.memory),
        None => (&none, &none),
    };
    let (rc, rm) = match &container_spec.resource_requests {
        Some(q) => (&q.cpu, &q.memory),
        None => (&none, &none),
    };
    ResourceRequirements {
        cpu_limit: quantity(lc, dcl, FALLBACK_CPU_LIMIT),
        cpu_request: quantity(rc, dcr, FALLBACK_CPU_REQUEST),
        memory_limit: quantity(lm, dml, FALLBACK_MEMORY_LIMIT),
        memory_request: quantity(rm, dmr, FALLBACK_MEMORY_REQUEST),
    }
}

/// Whether the container receives its flag through an executable.
pub open spec fn uses_executable_flag(c: ContainerSpec) -> bool {
    c.dynamic_flag matches Some(f) && f.executable is Some
}

/// The security context of a container.
pub open spec fn security_context_is(s: SecurityContext, c: ContainerSpec) -> bool {
    &&& !s.privileged
    &&& s.allow_privilege_escalation
    &&& strings_view(s.capabilities_add@) == strings_view(c.additional_capabilities@)
    &&& strings_view(s.capabilities_drop@) == if uses_executable_flag(c) {
        seq![DAC_OVERRIDE@]
    } else {
        Seq::<Seq<char>>::empty()
    }
}

/// Unprivileged, with the container's extra capabilities; `DAC_OVERRIDE` is
/// dropped when the flag comes as an executable, so that the read-only
/// binary cannot be overwritten.
pub fn build_security_context(container_spec: &ContainerSpec) -> (r: SecurityContext)
    ensures
        security_context_is(r, *container_spec),
{
    let add = copy_strings(&container_spec.additional_capabilities);
    let mut drop: Vec<String> = Vec::new();
    let executable = match &container_spec.dynamic_flag {
        Some(f) => f.executable.is_some(),
        None => false,
    };
    if executable {
        drop.push(owned(DAC_OVERRIDE));
    }
    proof {
        if executable {
            assert(strings_view(drop@) =~= seq![DAC_OVERRIDE@]);
        } else {
            assert(strings_view(drop@) =~= Seq::<Seq<char>>::empty());
        }
    }
    SecurityContext { privileged: false, allow_privilege_escalation: true, capabilities_add: add, capabilities_drop: drop }
}

/// The environment of a container: its own variables, the namespace, and the
/// flag under the name the challenge gives when it asks for one.
pub open spec fn env_of(c: ContainerSpec, namespace: Seq<char>, flag: Seq<char>) -> Seq<(Seq<char>, Seq<char>)> {
    let base = pairs_view(c.environment@).push((NAMESPACE_ENV@, namespace));
    match c.dynamic_flag {
        Some(f) => match f.env {
            Some(e) => base.push((e.name@, flag)),
            None => base,
        },
        None => base,
    }
}

/// The annotations of a container's pods.
pub open spec fn annotations_of(c: ContainerSpec) -> Seq<(Seq<char>, Seq<char>)> {
    let e = match c.egress_bandwidth {
        Some(b) => seq![(EGRESS_BANDWIDTH@, b@)],
        None => Seq::empty(),
    };
    let i = match c.ingress_bandwidth {
        Some(b) => seq![(INGRESS_BANDWIDTH@, b@)],
        None => Seq::empty(),
    };
    e + i + seq![(SAFE_TO_EVICT@, FALSE_TEXT@)]
}

/// The runtime class: the container's, else the class's.
pub open spec fn runtime_class_of(c: ContainerSpec, class: ChallengeInstanceClass) -> Option<Seq<char>> {
    match c.runtime_class_name {
        Some(r) => Some(r@),
        None => match class.spec.security {
            Some(s) => opt_view(s.runtime_class_name),
            None => None,
        },
    }
}

/// The pull policy of the class, if it names one.
pub open spec fn pull_policy_of(class: ChallengeInstanceClass) -> Option<Seq<char>> {
    match class.spec.image_pull {
        Some(p) => Some(p.policy@),
        None => None,
    }
}

/// Whether `d` is the deployment of container `c` of an instance in
/// `namespace`, with the flag volumes `volumes`.
pub open spec fn deployment_is(
    d: Deployment,
    instance: ChallengeInstance,
    c: ContainerSpec,
    namespace: Seq<char>,
    class: ChallengeInstanceClass,
    volumes: Seq<FlagVolume>,
) -> bool {
    &&& d.name@ == c.hostname@
    &&& d.namespace@ == namespace
    &&& pairs_view(d.labels@) == common_labels_of(instance)
    &&& d.replicas == 1
    &&& pairs_view(d.selector@) == seq![(CONTAINER@, c.hostname@)]
    &&& pairs_view(d.pod_labels@) == common_labels_of(instance).push((CONTAINER@, c.hostname@))
    &&& pairs_view(d.pod_annotations@) == annotations_of(c)
    &&& d.hostname@ == c.hostname@
    &&& d.container_name@ == c.hostname@
    &&& d.image@ == c.image@
    &&& opt_view(d.image_pull_policy) == pull_policy_of(class)
    &&& pairs_view(d.env@) == env_of(c, namespace, instance.spec.flag@)
    &&& d.volumes@ == volumes
    &&& resources_are(d.resources, c, class)
    &&& opt_view(d.readiness_probe) == opt_view(c.readiness_probe)
    &&& opt_view(d.liveness_probe) == opt_view(c.liveness_probe)
    &&& security_context_is(d.security_context, c)
    &&& opt_view(d.runtime_class_name) == runtime_class_of(c, class)
    &&& !d.enable_service_links
    &&& !d.automount_service_account_token
    &&& d.termination_grace_period_seconds == 0
}

fn build_env(container_spec: &ContainerSpec, namespace: &str, flag: &str) -> (r: Vec<(String, String)>)
    ensures
        pairs_view(r@) == env_of(*container_spec, namespace@, flag@),
{
    let mut env = copy_pairs(&container_spec.environment);
    let ghost e0 = env@;
    env.push(pair(NAMESPACE_ENV, namespace));
    proof {
        assert(pairs_view(env@) =~= pairs_view(e0).push((NAMESPACE_ENV@, namespace@)));
    }
    if let Some(f) = &container_spec.dynamic_flag {
        if let Some(e) = &f.env {
            let ghost e1 = env@;
            env.push(pair(e.name.as_str(), flag));
            proof {
                assert(pairs_view(env@) =~= pairs_view(e1).push((e.name@, flag@)));
            }
        }
    }
    env
}

fn build_annotations(container_spec: &ContainerSpec) -> (r: Vec<(String, String)>)
    ensures
        pairs_view(r@) == annotations_of(*container_spec),
{
    let mut a: Vec<(String, String)> = Vec::new();
    if let Some(b) = &container_spec.egress_bandwidth {
        a.push(pair(EGRESS_BANDWIDTH, b.as_str()));
    }
    let ghost a1 = a@;
    if let Some(b) = &container_spec.ingress_bandwidth {
        a.push(pair(INGRESS_BANDWIDTH, b.as_str()));
    }
    let ghost a2 = a@;
    a.push(pair(SAFE_TO_EVICT, FALSE_TEXT));
    proof {
        let c = *container_spec;
        let e = match c.egress_bandwidth {
            Some(b) => seq![(EGRESS_BANDWIDTH@, b@)],
            None => Seq::empty(),
        };
        let i = match c.ingress_bandwidth {
            Some(b) => seq![(INGRESS_BANDWIDTH@, b@)],
            None => Seq::empty(),
        };
        assert(pairs_view(a1) =~= e);
        assert(pairs_view(a2) =~= e + i);
        assert(pairs_view(a@) =~= e + i + seq![(SAFE_TO_EVICT@, FALSE_TEXT@)]);
    }
    a
}

fn runtime_class(container_spec: &ContainerSpec, class: &ChallengeInstanceClass) -> (r: Option<String>)
    ensures
        opt_view(r) == runtime_class_of(*container_spec, *class),
{
    match &container_spec.runtime_class_name {
        Some(r) => Some(owned(r.as_str())),
        None => match &class.spec.security {
            Some(s) => copy_opt(&s.runtime_class_name),
            None => None,
        },
    }
}

/// The deployment of one container of an instance, in `namespace`, with the
/// flag volumes already built for it.
pub fn build_deployment(
    instance: &ChallengeInstance,
    challenge: &Challenge,
    container_spec: &ContainerSpec,
    namespace: &str,
    class: &ChallengeInstanceClass,
    volumes: Vec<FlagVolume>,
) -> (r: Deployment)
    ensures
        deployment_is(r, *instance, *container_spec, namespace@, *class, volumes@),
{
    let pull = match &class.spec.image_pull {
        Some(p) => Some(owned(p.policy.as_str())),
        None => None,
    };
    Deployment {
        name: owned(container_spec.hostname.as_str()),
        namespace: owned(namespace),
        labels: resource_labels(instance, challenge),
        replicas: 1,
        selector: pod_selector_labels(container_spec),
        pod_labels: pod_labels(instance, challenge, container_spec),
        pod_annotations: build_annotations(container_spec),
        hostname: owned(container_spec.hostname.as_str()),
        container_name: owned(container_spec.hostname.as_str()),
        image: owned(container_spec.image.as_str()),
        image_pull_policy: pull,
        env: build_env(container_spec, namespace, instance.spec.flag.as_str()),
        volumes,
        resources: build_resources(container_spec, class),
        readiness_probe: copy_opt(&container_spec.readiness_probe),
        liveness_probe: copy_opt(&container_spec.liveness_probe),
        security_context: build_security_context(container_spec),
        runtime_class_name: runtime_class(container_spec, class),
        enable_service_links: false,
        automount_service_account_token: false,
        termination_grace_period_seconds: 0,
    }
}

} // verus!
