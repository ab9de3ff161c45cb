//! The services of one challenge container.
use crate::labels::{common_labels_of, pod_selector_labels, resource_labels, CONTAINER};
use crate::model::{Challenge, ChallengeInstance, ContainerSpec, PortSpec, PortType};
use crate::text::{copy_opt, join2, opt_view, owned, pairs_view};
use vstd::prelude::*;

verus! {

/// How a service is exposed.
#[derive(PartialEq, Eq, Structural, Clone, Copy, Debug)]
pub enum ServiceType {
    ClusterIp,
    NodePort,
}

/// One port of a service.
#[derive(Clone, Debug)]
pub struct ServicePort {
    pub name: Option<String>,
    pub port: u16,
    /// Upper case: `TCP` or `UDP`.
    pub protocol: String,
    pub app_protocol: Option<String>,
}

/// A service that selects the pods of one container.
#[derive(Clone, Debug)]
pub struct Service {
    pub name: String,
    pub namespace: String,
    pub service_type: ServiceType,
    pub labels: Vec<(String, String)>,
    pub selector: Vec<(String, String)>,
    pub ports: Vec<ServicePort>,
}

/// Suffix of the name of a container's node port service.
pub const NODE_PORT_SUFFIX: &'static str = "-node-port";

/// The upper-case form of a text.
pub uninterp spec fn upper_of(s: Seq<char>) -> Seq<char>;

/// Relies on std's `str::to_uppercase`: the result depends on the text alone.
#[verifier::external_body]
fn uppercase(s: &str) -> (r: String)
    ensures
        r@ == upper_of(s@),
{
    s.to_uppercase()
}

/// Whether `sp` exposes the container port `p`.
pub open spec fn service_port_is(sp: ServicePort, p: PortSpec) -> bool {
    &&& opt_view(sp.name) == opt_view(p.name)
    &&& sp.port == p.port
    &&& sp.protocol@ == upper_of(p.protocol@)
    &&& opt_view(sp.app_protocol) == opt_view(p.app_protocol)
}

/// Whether `sps` exposes exactly the ports `ps`, in order.
pub open spec fn exposes(sps: Seq<ServicePort>, ps: Seq<PortSpec>) -> bool {
    sps.len() == ps.len() && forall|i: int| 0 <= i < ps.len() ==> service_port_is(#[trigger] sps[i], ps[i])
}

/// The ports of `ps` of type `t`, in order.
pub open spec fn ports_of_type(ps: Seq<PortSpec>, t: PortType) -> Seq<PortSpec>
    decreases ps.len(),
{
    if ps.len() == 0 {
        ps
    } else if ps.last().port_type == t {
        ports_of_type(ps.drop_last(), t).push(ps.last())
    } else {
        ports_of_type(ps.drop_last(), t)
    }
}

/// The ports of `ps` that are published on a node port, in order.
pub open spec fn public_ports(ps: Seq<PortSpec>) -> Seq<PortSpec> {
    ports_of_type(ps, PortType::PublicPort)
}

/// Whether `s` is a service of container `c` in `namespace` of the given
/// type and name, exposing `ports`.
pub open spec fn service_is(
    s: Service,
    instance: ChallengeInstance,
    c: ContainerSpec,
    namespace: Seq<char>,
    service_type: ServiceType,
    name: Seq<char>,
    ports: Seq<PortSpec>,
) -> bool {
    &&& s.name@ == name
    &&& s.namespace@ == namespace
    &&& s.service_type == service_type
    &&& pairs_view(s.labels@) == common_labels_of(instance)
    &&& pairs_view(s.selector@) == seq![(CONTAINER@, c.hostname@)]
    &&& exposes(s.ports@, ports)
}

/// Whether `r` are the services of container `c` in `namespace`: a
/// cluster-internal service named after its hostname with all its ports,
/// then, when some port is public, a node port service
/// `{hostname}-node-port` with only those ports.
pub open spec fn services_are(r: Seq<Service>, instance: ChallengeInstance, c: ContainerSpec, namespace: Seq<char>) -> bool {
    &&& r.len() == if public_ports(c.ports@).len() > 0 { 2int } else { 1int }
    &&& service_is(r[0], instance, c, namespace, ServiceType::ClusterIp, c.hostname@, c.ports@)
    &&& r.len() == 2 ==> service_is(
        r[1],
        instance,
        c,
        namespace,
        ServiceType::NodePort,
        c.hostname@ + NODE_PORT_SUFFIX@,
        public_ports(c.ports@),
    )
}

fn service_port(p: &PortSpec) -> (r: ServicePort)
    ensures
        service_port_is(r, *p),
{
    ServicePort {
        name: copy_opt(&p.name),
        port: p.port,
        protocol: uppercase(p.protocol.as_str()),
        app_protocol: copy_opt(&p.app_protocol),
    }
}

fn service_ports(ps: &Vec<PortSpec>, only_public: bool) -> (r: Vec<ServicePort>)
    ensures
        exposes(r@, if only_public { public_ports(ps@) } else { ps@ }),
{
    let mut r: Vec<ServicePort> = Vec::new();
    let mut i: usize = 0;
    while i < ps.len()
        invariant
            i <= ps@.len(),
            exposes(r@, if only_public { public_ports(ps@.subrange(0, i as int)) } else { ps@.subrange(0, i as int) }),
        decreases ps@.len() - i,
    {
        let ghost sub = ps@.subrange(0, i + 1);
        proof {
            assert(sub.drop_last() =~= ps@.subrange(0, i as int));
            assert(sub.last() == ps@[i as int]);
        }
        if !only_public || ps[i].port_type == PortType::PublicPort {
            r.push(service_port(&ps[i]));
        }
        i += 1;
    }
    proof {
        assert(ps@.subrange(0, ps@.len() as int) =~= ps@);
    }
    r
}

/// Whether some port of `ps` is published on a node port.
pub fn has_public_port(ps: &Vec<PortSpec>) -> (r: bool)
    ensures
        r == (public_ports(ps@).len() > 0),
{
    let sps = service_ports(ps, true);
    sps.len() > 0
}

/// The services of a container.
pub fn build_services(
    instance: &ChallengeInstance,
    challenge: &Challenge,
    container: &ContainerSpec,
    namespace: &str,
) -> (r: Vec<Service>)
    ensures
        services_are(r@, *instance, *container, namespace@),
{
    let mut r: Vec<Service> = Vec::new();
    r.push(Service {
        name: owned(container.hostname.as_str()),
        namespace: owned(namespace),
        service_type: ServiceType::ClusterIp,
        labels: resource_labels(instance, challenge),
        selector: pod_selector_labels(container),
        ports: service_ports(&container.ports, false),
    });
    let public = service_ports(&container.ports, true);
    if public.len() > 0 {
        r.push(Service {
            name: join2(container.hostname.as_str(), NODE_PORT_SUFFIX),
            namespace: owned(namespace),
            service_type: ServiceType::NodePort,
            labels: resource_labels(instance, challenge),
            selector: pod_selector_labels(container),
            ports: public,
        });
    }
    r
}

} // verus!
