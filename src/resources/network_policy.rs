//! The network policy that fences an instance's namespace.
use crate::labels::common_labels_of;
use crate::model::{Challenge, ChallengeInstance, ChallengeInstanceClass};
use crate::labels::resource_labels;
use crate::text::{decimal, decimal_text, join3, owned, pair, pairs_view};
use vstd::prelude::*;

verus! {

/// A port and protocol that a rule opens.
#[derive(Clone, Debug)]
pub struct CiliumPortProtocol {
    pub port: Option<String>,
    pub protocol: Option<String>,
}

/// A DNS name or pattern that pods may resolve.
#[derive(Clone, Debug)]
pub struct CiliumDnsRule {
    pub match_name: Option<String>,
    pub match_pattern: Option<String>,
}

/// Application-level restrictions on a port rule.
#[derive(Clone, Debug)]
pub struct CiliumL7Rule {
    pub dns: Vec<CiliumDnsRule>,
}

/// Ports that an egress rule opens, with optional DNS restrictions.
#[derive(Clone, Debug)]
pub struct CiliumPortRule {
    pub ports: Vec<CiliumPortProtocol>,
    pub rules: Option<CiliumL7Rule>,
}

/// One egress rule: to pods selected by labels, or to named entities.
#[derive(Clone, Debug)]
pub struct CiliumEgressRule {
    /// Label selectors of the pods the rule reaches; an empty one selects
    /// every pod of the namespace.
    pub to_endpoints: Vec<Vec<(String, String)>>,
    pub to_entities: Vec<String>,
    pub to_ports: Vec<CiliumPortRule>,
}

/// The policy body: the pods it covers (empty: all) and what they may reach.
#[derive(Clone, Debug)]
pub struct CiliumNetworkPolicySpec {
    pub endpoint_selector: Vec<(String, String)>,
    pub egress: Vec<CiliumEgressRule>,
}

/// The network policy of an instance's namespace.
#[derive(Clone, Debug)]
pub struct CiliumNetworkPolicy {
    pub name: String,
    pub namespace: String,
    pub labels: Vec<(String, String)>,
    pub spec: CiliumNetworkPolicySpec,
}

pub const POLICY_NAME: &'static str = "challenge-network-policy";
pub const POD_NAMESPACE_KEY: &'static str = "k8s:io.kubernetes.pod.namespace";
pub const DNS_NAMESPACE: &'static str = "kube-system";
pub const APP_KEY: &'static str = "k8s:k8s-app";
pub const DNS_APP: &'static str = "kube-dns";
pub const DNS_PORT: &'static str = "53";
pub const ANY: &'static str = "ANY";
pub const TCP: &'static str = "TCP";
pub const HOST_ENTITY: &'static str = "host";
pub const WORLD_ENTITY: &'static str = "world";
pub const DNS_PATTERN_HEAD: &'static str = "*.";
pub const DNS_PATTERN_TAIL: &'static str = ".svc.cluster.local.";

/// `*.{namespace}.svc.cluster.local.`: the only names that pods of a
/// closed instance may resolve.
pub open spec fn dns_pattern(namespace: Seq<char>) -> Seq<char> {
    DNS_PATTERN_HEAD@ + namespace + DNS_PATTERN_TAIL@
}

/// The selector of the platform's DNS pods.
pub open spec fn dns_selector() -> Seq<(Seq<char>, Seq<char>)> {
    seq![(POD_NAMESPACE_KEY@, DNS_NAMESPACE@), (APP_KEY@, DNS_APP@)]
}

/// Whether `r` lets pods query the platform DNS on port 53, restricted to
/// names of the namespace unless outbound traffic is allowed.
pub open spec fn dns_rule_is(r: CiliumEgressRule, namespace: Seq<char>, allow_outbound: bool) -> bool {
    &&& r.to_endpoints@.len() == 1
    &&& pairs_view(r.to_endpoints@[0]@) == dns_selector()
    &&& r.to_entities@.len() == 0
    &&& r.to_ports@.len() == 1
    &&& r.to_ports@[0].ports@.len() == 1
    &&& r.to_ports@[0].ports@[0].port matches Some(p) && p@ == DNS_PORT@
    &&& r.to_ports@[0].ports@[0].protocol matches Some(p) && p@ == ANY@
    &&& if allow_outbound {
        r.to_ports@[0].rules is None
    } else {
        &&& r.to_ports@[0].rules matches Some(l7) && l7.dns@.len() == 1
        &&& r.to_ports@[0].rules->0.dns@[0].match_name is None
        &&& r.to_ports@[0].rules->0.dns@[0].match_pattern matches Some(p) && p@ == dns_pattern(namespace)
    }
}

/// Whether `r` reaches every pod of the namespace.
pub open spec fn mesh_rule_is(r: CiliumEgressRule) -> bool {
    &&& r.to_endpoints@.len() == 1
    &&& r.to_endpoints@[0]@.len() == 0
    &&& r.to_entities@.len() == 0
    &&& r.to_ports@.len() == 0
}

/// Whether `r` reaches the entity `entity` with no port restriction.
pub open spec fn entity_rule_is(r: CiliumEgressRule, entity: Seq<char>) -> bool {
    &&& r.to_endpoints@.len() == 0
    &&& r.to_entities@.len() == 1
    &&& r.to_entities@[0]@ == entity
    &&& r.to_ports@.len() == 0
}

/// Whether `r` reaches the host on the gateway's HTTP and TLS ports.
pub open spec fn host_rule_is(r: CiliumEgressRule, http_port: u16, tls_port: u16) -> bool {
    &&& r.to_endpoints@.len() == 0
    &&& r.to_entities@.len() == 1
    &&& r.to_entities@[0]@ == HOST_ENTITY@
    &&& r.to_ports@.len() == 1
    &&& r.to_ports@[0].rules is None
    &&& r.to_ports@[0].ports@.len() == 2
    &&& r.to_ports@[0].ports@[0].port matches Some(p) && p@ == decimal(http_port as nat)
    &&& r.to_ports@[0].ports@[0].protocol matches Some(p) && p@ == TCP@
    &&& r.to_ports@[0].ports@[1].port matches Some(p) && p@ == decimal(tls_port as nat)
    &&& r.to_ports@[0].ports@[1].protocol matches Some(p) && p@ == TCP@
}

/// Whether `p` is the policy of an instance's namespace: all pods, egress to
/// DNS, to the namespace, to the host on the gateway ports, and to the world
/// only when the challenge allows outbound traffic.
pub open spec fn policy_is(
    p: CiliumNetworkPolicy,
    instance: ChallengeInstance,
    challenge: Challenge,
    namespace: Seq<char>,
    class: ChallengeInstanceClass,
) -> bool {
    let allow = challenge.spec.allow_outbound_traffic;
    &&& p.name@ == POLICY_NAME@
    &&& p.namespace@ == namespace
    &&& pairs_view(p.labels@) == common_labels_of(instance)
    &&& p.spec.endpoint_selector@.len() == 0
    &&& p.spec.egress@.len() == if allow { 4int } else { 3int }
    &&& dns_rule_is(p.spec.egress@[0], namespace, allow)
    &&& mesh_rule_is(p.spec.egress@[1])
    &&& host_rule_is(p.spec.egress@[2], class.spec.gateway.http_port, class.spec.gateway.tls_port)
    &&& allow ==> entity_rule_is(p.spec.egress@[3], WORLD_ENTITY@)
}

fn port_protocol(port: String, protocol: &str) -> (r: CiliumPortProtocol)
    ensures
        r.port matches Some(p) && p@ == port@,
        r.protocol matches Some(p) && p@ == protocol@,
{
    CiliumPortProtocol { port: Some(port), protocol: Some(owned(protocol)) }
}

fn dns_rule(namespace: &str, allow_outbound: bool) -> (r: CiliumEgressRule)
    ensures
        dns_rule_is(r, namespace@, allow_outbound),
{
    let mut selector: Vec<(String, String)> = Vec::new();
    selector.push(pair(POD_NAMESPACE_KEY, DNS_NAMESPACE));
    selector.push(pair(APP_KEY, DNS_APP));
    proof {
        assert(pairs_view(selector@) =~= dns_selector());
    }
    let mut endpoints: Vec<Vec<(String, String)>> = Vec::new();
    endpoints.push(selector);
    let mut ports: Vec<CiliumPortProtocol> = Vec::new();
    ports.push(port_protocol(owned(DNS_PORT), ANY));
    let rules = if allow_outbound {
        None
    } else {
        let mut dns: Vec<CiliumDnsRule> = Vec::new();
        dns.push(CiliumDnsRule {
            match_name: None,
            match_pattern: Some(join3(DNS_PATTERN_HEAD, namespace, DNS_PATTERN_TAIL)),
        });
        Some(CiliumL7Rule { dns })
    };
    let mut to_ports: Vec<CiliumPortRule> = Vec::new();
    to_ports.push(CiliumPortRule { ports, rules });
    CiliumEgressRule { to_endpoints: endpoints, to_entities: Vec::new(), to_ports }
}

fn mesh_rule() -> (r: CiliumEgressRule)
    ensures
        mesh_rule_is(r),
{
    let mut endpoints: Vec<Vec<(String, String)>> = Vec::new();
    endpoints.push(Vec::new());
    CiliumEgressRule { to_endpoints: endpoints, to_entities: Vec::new(), to_ports: Vec::new() }
}

fn host_rule(http_port: u16, tls_port: u16) -> (r: CiliumEgressRule)
    ensures
        host_rule_is(r, http_port, tls_port),
{
    let mut ports: Vec<CiliumPortProtocol> = Vec::new();
    ports.push(port_protocol(decimal_text(http_port as u64), TCP));
    ports.push(port_protocol(decimal_text(tls_port as u64), TCP));
    let mut to_ports: Vec<CiliumPortRule> = Vec::new();
    to_ports.push(CiliumPortRule { ports, rules: None });
    let mut entities: Vec<String> = Vec::new();
    entities.push(owned(HOST_ENTITY));
    CiliumEgressRule { to_endpoints: Vec::new(), to_entities: entities, to_ports }
}

fn world_rule() -> (r: CiliumEgressRule)
    ensures
        entity_rule_is(r, WORLD_ENTITY@),
{
    let mut entities: Vec<String> = Vec::new();
    entities.push(owned(WORLD_ENTITY));
    CiliumEgressRule { to_endpoints: Vec::new(), to_entities: entities, to_ports: Vec::new() }
}

/// The policy `challenge-network-policy` of an instance's namespace.
pub fn build_network_policy(
    instance: &ChallengeInstance,
    challenge: &Challenge,
    namespace: &str,
    class: &ChallengeInstanceClass,
) -> (r: CiliumNetworkPolicy)
    ensures
        policy_is(r, *instance, *challenge, namespace@, *class),
{
    let allow = challenge.spec.allow_outbound_traffic;
    let mut egress: Vec<CiliumEgressRule> = Vec::new();
    egress.push(dns_rule(namespace, allow));
    egress.push(mesh_rule());
    egress.push(host_rule(class.spec.gateway.http_port, class.spec.gateway.tls_port));
    if allow {
        egress.push(world_rule());
    }
    CiliumNetworkPolicy {
        name: owned(POLICY_NAME),
        namespace: owned(namespace),
        labels: resource_labels(instance, challenge),
        spec: CiliumNetworkPolicySpec { endpoint_selector: Vec::new(), egress },
    }
}

} // verus!
