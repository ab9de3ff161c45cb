//! Routes of the gateway to a container's ports, and the endpoints they publish.
use crate::labels::{instance_id_of, INSTANCE_ID, MANAGED_BY, MANAGER};
use crate::model::{ChallengeInstance, ChallengeInstanceClass, ContainerSpec, PortSpec, ServiceEndpoint};
use crate::text::{decimal, decimal_text, join3, opt_view, owned, pair, pairs_view};
use crate::labels::COMPONENT;
use vstd::prelude::*;

verus! {

/// A reference from a route to a gateway listener.
#[derive(Clone, Debug)]
pub struct ParentReference {
    pub group: Option<String>,
    pub kind: Option<String>,
    pub namespace: Option<String>,
    pub name: String,
    pub section_name: Option<String>,
    pub port: Option<i32>,
}

/// The service port behind a TLS route.
#[derive(Clone, Debug)]
pub struct BackendRef {
    pub group: Option<String>,
    pub kind: Option<String>,
    pub namespace: Option<String>,
    pub name: String,
    pub port: Option<i32>,
    pub weight: Option<i32>,
}

/// The service port behind an HTTP route.
#[derive(Clone, Debug)]
pub struct HTTPBackendRef {
    pub group: Option<String>,
    pub kind: Option<String>,
    pub namespace: Option<String>,
    pub name: String,
    pub port: Option<i32>,
    pub weight: Option<i32>,
}

/// One rule of an HTTP route.
#[derive(Clone, Debug)]
pub struct HTTPRouteRule {
    pub name: Option<String>,
    pub backend_refs: Vec<HTTPBackendRef>,
}

/// One rule of a TLS route.
#[derive(Clone, Debug)]
pub struct TLSRouteRule {
    pub name: String,
    pub backend_refs: Vec<BackendRef>,
}

/// What an HTTP route matches and where it sends traffic.
#[derive(Clone, Debug)]
pub struct HTTPRouteSpec {
    pub hostnames: Vec<String>,
    pub parent_refs: Vec<ParentReference>,
    pub rules: Vec<HTTPRouteRule>,
}

/// What a TLS route matches and where it sends traffic.
#[derive(Clone, Debug)]
pub struct TLSRouteSpec {
    pub hostnames: Vec<String>,
    pub parent_refs: Vec<ParentReference>,
    pub rules: Vec<TLSRouteRule>,
}

/// An HTTP route of the gateway.
#[derive(Clone, Debug)]
pub struct HTTPRoute {
    pub name: String,
    pub namespace: String,
    pub labels: Vec<(String, String)>,
    pub spec: HTTPRouteSpec,
}

/// A TLS route of the gateway.
#[derive(Clone, Debug)]
pub struct TLSRoute {
    pub name: String,
    pub namespace: String,
    pub labels: Vec<(String, String)>,
    pub spec: TLSRouteSpec,
}

pub const HOSTNAME_LABEL: &'static str = "berg.norelect.ch/hostname";
pub const HTTP_ROUTE_COMPONENT: &'static str = "http-route";
pub const TLS_ROUTE_COMPONENT: &'static str = "tls-route";
pub const GATEWAY_KIND: &'static str = "Gateway";
pub const TCP: &'static str = "TCP";
pub const HTTP: &'static str = "HTTP";

/// `{hostname}-{port}`: the name of the route to a container port.
pub open spec fn route_name(c: ContainerSpec, p: PortSpec) -> Seq<char> {
    c.hostname@ + seq!['-'] + decimal(p.port as nat)
}

/// `{id}.{domain}`: the host name of a route.
pub open spec fn route_host(id: Seq<char>, class: ChallengeInstanceClass) -> Seq<char> {
    id + seq!['.'] + class.spec.gateway.domain@
}

/// Labels of a route: manager, role, the random id of its host name, and the instance id.
pub open spec fn route_labels_of(i: ChallengeInstance, component: Seq<char>, id: Seq<char>) -> Seq<(Seq<char>, Seq<char>)> {
    let base = seq![(MANAGED_BY@, MANAGER@), (COMPONENT@, component), (HOSTNAME_LABEL@, id)];
    match instance_id_of(i) {
        Some(x) => base.push((INSTANCE_ID@, x)),
        None => base,
    }
}

/// Whether `r` refers to the listener `listener` of the class's gateway.
pub open spec fn parent_is(r: ParentReference, class: ChallengeInstanceClass, listener: Seq<char>) -> bool {
    &&& r.group is None
    &&& opt_view(r.kind) == Some(GATEWAY_KIND@)
    &&& opt_view(r.namespace) == Some(class.spec.gateway.namespace@)
    &&& r.name@ == class.spec.gateway.name@
    &&& opt_view(r.section_name) == Some(listener)
    &&& r.port is None
}

/// Whether `r` is the HTTP route, with host name id `id`, to port `p` of container `c`.
pub open spec fn http_route_is(
    r: HTTPRoute,
    i: ChallengeInstance,
    c: ContainerSpec,
    p: PortSpec,
    namespace: Seq<char>,
    class: ChallengeInstanceClass,
    id: Seq<char>,
) -> bool {
    &&& r.name@ == route_name(c, p)
    &&& r.namespace@ == namespace
    &&& pairs_view(r.labels@) == route_labels_of(i, HTTP_ROUTE_COMPONENT@, id)
    &&& r.spec.hostnames@.len() == 1
    &&& r.spec.hostnames@[0]@ == route_host(id, class)
    &&& r.spec.parent_refs@.len() == 1
    &&& parent_is(r.spec.parent_refs@[0], class, class.spec.gateway.http_listener_name@)
    &&& r.spec.rules@.len() == 1
    &&& r.spec.rules@[0].name is None
    &&& r.spec.rules@[0].backend_refs@.len() == 1
    &&& r.spec.rules@[0].backend_refs@[0].group is None
    &&& r.spec.rules@[0].backend_refs@[0].kind is None
    &&& opt_view(r.spec.rules@[0].backend_refs@[0].namespace) == Some(namespace)
    &&& r.spec.rules@[0].backend_refs@[0].name@ == c.hostname@
    &&& r.spec.rules@[0].backend_refs@[0].port == Some(p.port as i32)
    &&& r.spec.rules@[0].backend_refs@[0].weight is None
}

/// Whether `r` is the TLS route, with host name id `id`, to port `p` of container `c`.
pub open spec fn tls_route_is(
    r: TLSRoute,
    i: ChallengeInstance,
    c: ContainerSpec,
    p: PortSpec,
    namespace: Seq<char>,
    class: ChallengeInstanceClass,
    id: Seq<char>,
) -> bool {
    &&& r.name@ == route_name(c, p)
    &&& r.namespace@ == namespace
    &&& pairs_view(r.labels@) == route_labels_of(i, TLS_ROUTE_COMPONENT@, id)
    &&& r.spec.hostnames@.len() == 1
    &&& r.spec.hostnames@[0]@ == route_host(id, class)
    &&& r.spec.parent_refs@.len() == 1
    &&& parent_is(r.spec.parent_refs@[0], class, class.spec.gateway.tls_listener_name@)
    &&& r.spec.rules@.len() == 1
    &&& r.spec.rules@[0].name@ == route_name(c, p)
    &&& r.spec.rules@[0].backend_refs@.len() == 1
    &&& r.spec.rules@[0].backend_refs@[0].group is None
    &&& r.spec.rules@[0].backend_refs@[0].kind is None
    &&& opt_view(r.spec.rules@[0].backend_refs@[0].namespace) == Some(namespace)
    &&& r.spec.rules@[0].backend_refs@[0].name@ == c.hostname@
    &&& r.spec.rules@[0].backend_refs@[0].port == Some(p.port as i32)
    &&& r.spec.rules@[0].backend_refs@[0].weight is None
}

fn route_labels(instance: &ChallengeInstance, component: &str, id: &str) -> (r: Vec<(String, String)>)
    ensures
        pairs_view(r@) == route_labels_of(*instance, component@, id@),
{
    let mut labels: Vec<(String, String)> = Vec::new();
    labels.push(pair(MANAGED_BY, MANAGER));
    labels.push(pair(COMPONENT, component));
    labels.push(pair(HOSTNAME_LABEL, id));
    let ghost base = labels@;
    proof {
        assert(pairs_view(base) =~= seq![(MANAGED_BY@, MANAGER@), (COMPONENT@, component@), (HOSTNAME_LABEL@, id@)]);
    }
    if let Some(status) = &instance.status {
        if let Some(x) = &status.instance_id {
            labels.push(pair(INSTANCE_ID, x.as_str()));
            proof {
                assert(pairs_view(labels@) =~= pairs_view(base).push((INSTANCE_ID@, x@)));
            }
        }
    }
    labels
}

fn parent(class: &ChallengeInstanceClass, listener: &str) -> (r: ParentReference)
    ensures
        parent_is(r, *class, listener@),
{
    ParentReference {
        group: None,
        kind: Some(owned(GATEWAY_KIND)),
        namespace: Some(owned(class.spec.gateway.namespace.as_str())),
        name: owned(class.spec.gateway.name.as_str()),
        section_name: Some(owned(listener)),
        port: None,
    }
}

/// The name of the route to port `p` of container `c`.
pub fn build_route_name(container: &ContainerSpec, port: &PortSpec) -> (r: String)
    ensures
        r@ == route_name(*container, *port),
{
    let n = decimal_text(port.port as u64);
    let r = join3(container.hostname.as_str(), "-", n.as_str());
    proof {
        reveal_strlit("-");
    }
    r
}

/// The host name `{id}.{domain}` of a route.
pub fn build_route_host(id: &str, class: &ChallengeInstanceClass) -> (r: String)
    ensures
        r@ == route_host(id@, *class),
{
    let r = join3(id, ".", class.spec.gateway.domain.as_str());
    proof {
        reveal_strlit(".");
    }
    r
}

/// The HTTP route to port `port` of a container, bound to the HTTP listener
/// of the class's gateway, with host name `{id}.{domain}`.
pub fn build_http_route(
    instance: &ChallengeInstance,
    container: &ContainerSpec,
    port: &PortSpec,
    namespace: &str,
    class: &ChallengeInstanceClass,
    id: &str,
) -> (r: HTTPRoute)
    ensures
        http_route_is(r, *instance, *container, *port, namespace@, *class, id@),
{
    let backend = HTTPBackendRef {
        group: None,
        kind: None,
        namespace: Some(owned(namespace)),
        name: owned(container.hostname.as_str()),
        port: Some(port.port as i32),
        weight: None,
    };
    let mut backends: Vec<HTTPBackendRef> = Vec::new();
    backends.push(backend);
    let mut rules: Vec<HTTPRouteRule> = Vec::new();
    rules.push(HTTPRouteRule { name: None, backend_refs: backends });
    let mut hostnames: Vec<String> = Vec::new();
    hostnames.push(build_route_host(id, class));
    let mut parents: Vec<ParentReference> = Vec::new();
    parents.push(parent(class, class.spec.gateway.http_listener_name.as_str()));
    HTTPRoute {
        name: build_route_name(container, port),
        namespace: owned(namespace),
        labels: route_labels(instance, HTTP_ROUTE_COMPONENT, id),
        spec: HTTPRouteSpec { hostnames, parent_refs: parents, rules },
    }
}

/// The TLS route to port `port` of a container, bound to the TLS listener of
/// the class's gateway, with host name `{id}.{domain}`.
pub fn build_tls_route(
    instance: &ChallengeInstance,
    container: &ContainerSpec,
    port: &PortSpec,
    namespace: &str,
    class: &ChallengeInstanceClass,
    id: &str,
) -> (r: TLSRoute)
    ensures
        tls_route_is(r, *instance, *container, *port, namespace@, *class, id@),
{
    let backend = BackendRef {
        group: None,
        kind: None,
        namespace: Some(owned(namespace)),
        name: owned(container.hostname.as_str()),
        port: Some(port.port as i32),
        weight: None,
    };
    let mut backends: Vec<BackendRef> = Vec::new();
    backends.push(backend);
    let mut rules: Vec<TLSRouteRule> = Vec::new();
    rules.push(TLSRouteRule { name: build_route_name(container, port), backend_refs: backends });
    let mut hostnames: Vec<String> = Vec::new();
    hostnames.push(build_route_host(id, class));
    let mut parents: Vec<ParentReference> = Vec::new();
    parents.push(parent(class, class.spec.gateway.tls_listener_name.as_str()));
    TLSRoute {
        name: build_route_name(container, port),
        namespace: owned(namespace),
        labels: route_labels(instance, TLS_ROUTE_COMPONENT, id),
        spec: TLSRouteSpec { hostnames, parent_refs: parents, rules },
    }
}

/// The name under which a port is published: its own, else the container's hostname.
pub open spec fn endpoint_name(c: ContainerSpec, p: PortSpec) -> Seq<char> {
    match p.name {
        Some(n) => n@,
        None => c.hostname@,
    }
}

/// Whether `e` publishes port `p` of `c` through a route with host name
/// `host`: on the gateway's HTTP port for an HTTP route, on its TLS port
/// (application protocol `TCP`) for a TLS route; the gateway speaks TLS.
pub open spec fn route_endpoint_is(
    e: ServiceEndpoint,
    c: ContainerSpec,
    p: PortSpec,
    class: ChallengeInstanceClass,
    host: Seq<char>,
    tls_route: bool,
) -> bool {
    &&& e.name@ == endpoint_name(c, p)
    &&& e.hostname@ == host
    &&& e.port == if tls_route { class.spec.gateway.tls_port } else { class.spec.gateway.http_port }
    &&& e.protocol@ == TCP@
    &&& opt_view(e.app_protocol) == Some(if tls_route { TCP@ } else { HTTP@ })
    &&& e.tls == Some(true)
}

fn endpoint_name_of(container: &ContainerSpec, port: &PortSpec) -> (r: String)
    ensures
        r@ == endpoint_name(*container, *port),
{
    match &port.name {
        Some(n) => owned(n.as_str()),
        None => owned(container.hostname.as_str()),
    }
}

/// The endpoint that a route publishes. `host` is the host name the route
/// carries: the one just built, or the one stored on a route that already
/// existed.
pub fn route_endpoint(
    container: &ContainerSpec,
    port: &PortSpec,
    class: &ChallengeInstanceClass,
    host: &str,
    tls_route: bool,
) -> (r: ServiceEndpoint)
    ensures
        route_endpoint_is(r, *container, *port, *class, host@, tls_route),
{
    ServiceEndpoint {
        name: endpoint_name_of(container, port),
        hostname: owned(host),
        port: if tls_route { class.spec.gateway.tls_port } else { class.spec.gateway.http_port },
        protocol: owned(TCP),
        app_protocol: Some(owned(if tls_route { TCP } else { HTTP })),
        tls: Some(true),
    }
}

/// The node port that the platform assigned to container port `port`, if any.
pub open spec fn assigned_node_port(assigned: Seq<(u16, u16)>, port: u16) -> Option<u16>
    decreases assigned.len(),
{
    if assigned.len() == 0 {
        None
    } else if assigned[0].0 == port {
        Some(assigned[0].1)
    } else {
        assigned_node_port(assigned.subrange(1, assigned.len() as int), port)
    }
}

/// Looks up the node port assigned to `port` among (port, node port) pairs.
pub fn find_node_port(assigned: &Vec<(u16, u16)>, port: u16) -> (r: Option<u16>)
    ensures
        r == assigned_node_port(assigned@, port),
{
    let mut i: usize = 0;
    proof {
        assert(assigned@.subrange(0, assigned@.len() as int) =~= assigned@);
    }
    while i < assigned.len()
        invariant
            i <= assigned@.len(),
            assigned_node_port(assigned@.subrange(i as int, assigned@.len() as int), port) == assigned_node_port(
                assigned@,
                port,
            ),
        decreases assigned@.len() - i,
    {
        proof {
            let s = assigned@.subrange(i as int, assigned@.len() as int);
            assert(s.subrange(1, s.len() as int) =~= assigned@.subrange(i + 1, assigned@.len() as int));
        }
        if assigned[i].0 == port {
            return Some(assigned[i].1);
        }
        i += 1;
    }
    None
}

/// Whether `e` publishes port `p` of `c` on node port `node_port` of the
/// class's domain.
pub open spec fn node_port_endpoint_is(
    e: ServiceEndpoint,
    c: ContainerSpec,
    p: PortSpec,
    class: ChallengeInstanceClass,
    node_port: u16,
) -> bool {
    &&& e.name@ == endpoint_name(c, p)
    &&& e.hostname@ == class.spec.gateway.domain@
    &&& e.port == node_port
    &&& e.protocol@ == TCP@
    &&& opt_view(e.app_protocol) == opt_view(p.app_protocol)
    &&& e.tls == Some(false)
}

/// The endpoint of a public port on the node port the platform assigned it.
pub fn node_port_endpoint(container: &ContainerSpec, port: &PortSpec, class: &ChallengeInstanceClass, node_port: u16) -> (r: ServiceEndpoint)
    ensures
        node_port_endpoint_is(r, *container, *port, *class, node_port),
{
    ServiceEndpoint {
        name: endpoint_name_of(container, port),
        hostname: owned(class.spec.gateway.domain.as_str()),
        port: node_port,
        protocol: owned(TCP),
        app_protocol: match &port.app_protocol {
            Some(a) => Some(owned(a.as_str())),
            None => None,
        },
        tls: Some(false),
    }
}

} // verus!
