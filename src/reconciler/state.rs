//! How each phase changes an instance's status, and when to look again.
use crate::error::Error;
use crate::ids::{is_uuid_text, new_uuid};
use crate::model::{
    Challenge, ChallengeInstance, ChallengeInstanceStatus, Condition, ConditionStatus, ContainerSpec, ControllerConfig,
    PortSpec, PortType, ServiceEndpoint,
};
use crate::model::ChallengeInstanceClass;
use crate::reconciler::entry::Action;
use crate::resources::gateway::{
    assigned_node_port, find_node_port, node_port_endpoint, node_port_endpoint_is, route_endpoint,
    route_endpoint_is,
};
use crate::resources::service::{ports_of_type, public_ports};
use crate::text::{copy_opt, opt_view, owned, pairs_view, text_eq};
use crate::time::{format_rfc3339, rfc3339_text};
use crate::timeout::{calculate_expiry, expiry_instant, expiry_representable, seconds_left, time_left};
use vstd::prelude::*;

verus! {

pub const FLAG_VALIDATION: &'static str = "FlagValidation";
pub const NAMESPACE_CREATED: &'static str = "NamespaceCreated";
pub const RESOURCES_CREATED: &'static str = "ResourcesCreated";
pub const PODS_READY: &'static str = "PodsReady";
pub const RUNNING: &'static str = "Running";
pub const READY: &'static str = "Ready";
pub const TRUE_TEXT: &'static str = "True";

/// Seconds between the steps of setting an instance up.
pub const STEP_SECONDS: u64 = 1;
/// Seconds to wait for children that are still being materialised.
pub const PROGRESS_SECONDS: u64 = 2;
/// Seconds between readiness checks.
pub const READINESS_SECONDS: u64 = 5;
/// Longest wait while an instance runs.
pub const MAX_RUNNING_WAIT_SECONDS: u64 = 600;
/// Wait when the expiry cannot be read, while starting.
pub const STARTING_FALLBACK_SECONDS: u64 = 3600;
/// Wait when the expiry cannot be read, while running.
pub const RUNNING_FALLBACK_SECONDS: u64 = 60;

/// Whether `c` is a condition of type `t` with status `s` at `time`, with
/// reason and message.
pub open spec fn condition_is(
    c: Condition,
    t: Seq<char>,
    s: ConditionStatus,
    time: Seq<char>,
    reason: Seq<char>,
    message: Seq<char>,
) -> bool {
    &&& c.condition_type@ == t
    &&& c.status == s
    &&& opt_view(c.last_transition_time) == Some(time)
    &&& opt_view(c.reason) == Some(reason)
    &&& opt_view(c.message) == Some(message)
}

/// Builds a condition.
pub fn condition(t: &str, s: ConditionStatus, time: &str, reason: &str, message: &str) -> (r: Condition)
    ensures
        condition_is(r, t@, s, time@, reason@, message@),
{
    Condition {
        condition_type: owned(t),
        status: s,
        last_transition_time: Some(owned(time)),
        reason: Some(owned(reason)),
        message: Some(owned(message)),
    }
}

/// The timeout an instance runs under: its own, else its class's, else the controller's.
pub open spec fn timeout_of(i: ChallengeInstance, class_timeout: Option<String>, config: ControllerConfig) -> Seq<char> {
    match i.spec.timeout {
        Some(t) => t@,
        None => match class_timeout {
            Some(t) => t@,
            None => config.default_timeout@,
        },
    }
}

/// The start and expiry texts of an instance first seen at `now`.
pub fn initial_times(
    instance: &ChallengeInstance,
    class_timeout: &Option<String>,
    config: &ControllerConfig,
    now: i64,
) -> (r: Result<(String, String), Error>)
    ensures
        r is Ok <==> (rfc3339_text(now) is Some && expiry_representable(timeout_of(*instance, *class_timeout, *config), now)),
        r matches Ok(t) ==> {
            &&& rfc3339_text(now) == Some(t.0@)
            &&& rfc3339_text(expiry_instant(timeout_of(*instance, *class_timeout, *config), now)->0 as i64) == Some(t.1@)
        },
        r matches Err(e) ==> e is TimeoutParseError,
{
    let timeout = match &instance.spec.timeout {
        Some(t) => t.as_str(),
        None => match class_timeout {
            Some(t) => t.as_str(),
            None => config.default_timeout.as_str(),
        },
    };
    let started = match format_rfc3339(now) {
        Some(t) => t,
        None => return Err(Error::TimeoutParseError(owned("the current time lies outside the range of dates"))),
    };
    match calculate_expiry(timeout, now) {
        Ok(e) => Ok((started, e)),
        Err(e) => Err(e),
    }
}

/// Records a fresh instance: its id, phase `Pending`, start and expiry.
pub fn initialize(status: &mut ChallengeInstanceStatus, instance_id: String, started_at: String, expires_at: String) -> (r: Action)
    ensures
        opt_view(final(status).instance_id) == Some(instance_id@),
        final(status).phase == Some(crate::model::Phase::Pending),
        opt_view(final(status).started_at) == Some(started_at@),
        opt_view(final(status).expires_at) == Some(expires_at@),
        final(status).namespace == old(status).namespace,
        final(status).services == old(status).services,
        final(status).ready_at == old(status).ready_at,
        final(status).terminated_at == old(status).terminated_at,
        final(status).conditions == old(status).conditions,
        final(status).observed_generation == old(status).observed_generation,
        r == (Action::Requeue { seconds: STEP_SECONDS }),
{
    status.instance_id = Some(instance_id);
    status.phase = Some(crate::model::Phase::Pending);
    status.started_at = Some(started_at);
    status.expires_at = Some(expires_at);
    Action::Requeue { seconds: STEP_SECONDS }
}

/// Starts the clock of a fresh instance at `now`: a new random instance id,
/// phase `Pending`, the start time and the expiry after its timeout (its
/// own, else its class's, else the controller's). Fails when the timeout is
/// malformed or the expiry lies outside the range of dates.
pub fn initialize_instance(
    status: &mut ChallengeInstanceStatus,
    instance: &ChallengeInstance,
    class_timeout: &Option<String>,
    config: &ControllerConfig,
    now: i64,
) -> (r: Result<Action, Error>)
    ensures
        r is Ok <==> (rfc3339_text(now) is Some && expiry_representable(timeout_of(*instance, *class_timeout, *config), now)),
        r matches Err(e) ==> e is TimeoutParseError && *final(status) == *old(status),
        r matches Ok(a) ==> {
            &&& a == (Action::Requeue { seconds: STEP_SECONDS })
            &&& final(status).instance_id matches Some(id) && is_uuid_text(id@)
            &&& final(status).phase == Some(crate::model::Phase::Pending)
            &&& opt_view(final(status).started_at) == rfc3339_text(now)
            &&& opt_view(final(status).expires_at) == rfc3339_text(
                expiry_instant(timeout_of(*instance, *class_timeout, *config), now)->0 as i64,
            )
            &&& final(status).namespace == old(status).namespace
            &&& final(status).services == old(status).services
            &&& final(status).conditions == old(status).conditions
        },
{
    match initial_times(instance, class_timeout, config, now) {
        Ok((started, expires)) => Ok(initialize(status, new_uuid(), started, expires)),
        Err(e) => Err(e),
    }
}

/// Validates the flag: a challenge that asks for a dynamic flag needs a
/// non-empty one. Fails the instance, or moves it on to `Creating`.
pub fn reconcile_pending(status: &mut ChallengeInstanceStatus, challenge: &Challenge, flag: &str, now: &str) -> (r: Action)
    ensures
        final(status).conditions@.len() == old(status).conditions@.len() + 1,
        forall|k: int| 0 <= k < old(status).conditions@.len() ==> #[trigger] final(status).conditions@[k] == old(status).conditions@[k],
        if challenge.spec.needs_flag() && flag@.len() == 0 {
            &&& final(status).phase == Some(crate::model::Phase::Failed)
            &&& condition_is(
                final(status).conditions@.last(),
                FLAG_VALIDATION@,
                ConditionStatus::False,
                now@,
                "FlagMissing"@,
                "Flag required but not provided"@,
            )
            &&& r == Action::AwaitChange
        } else {
            &&& final(status).phase == Some(crate::model::Phase::Creating)
            &&& condition_is(
                final(status).conditions@.last(),
                FLAG_VALIDATION@,
                ConditionStatus::True,
                now@,
                "FlagValid"@,
                "Flag validation passed"@,
            )
            &&& r == (Action::Requeue { seconds: STEP_SECONDS })
        },
        final(status).instance_id == old(status).instance_id,
        final(status).namespace == old(status).namespace,
        final(status).services == old(status).services,
        final(status).started_at == old(status).started_at,
        final(status).expires_at == old(status).expires_at,
        final(status).ready_at == old(status).ready_at,
        final(status).terminated_at == old(status).terminated_at,
{
    if challenge.spec.supports_dynamic_flags() && flag.is_empty() {
        status.phase = Some(crate::model::Phase::Failed);
        status.conditions.push(
            condition(FLAG_VALIDATION, ConditionStatus::False, now, "FlagMissing", "Flag required but not provided"),
        );
        Action::AwaitChange
    } else {
        status.phase = Some(crate::model::Phase::Creating);
        status.conditions.push(
            condition(FLAG_VALIDATION, ConditionStatus::True, now, "FlagValid", "Flag validation passed"),
        );
        Action::Requeue { seconds: STEP_SECONDS }
    }
}

/// The port on which a public port is published: the node port assigned to
/// it, else its own number.
pub open spec fn published_port(assigned: Seq<(u16, u16)>, p: PortSpec) -> u16 {
    match assigned_node_port(assigned, p.port) {
        Some(n) => n,
        None => p.port,
    }
}

/// Whether `eps` are the endpoints of container `c`: one per public port on
/// its node port, then one per HTTP route, then one per TLS route, with the
/// host names the routes carry.
pub open spec fn container_endpoints_are(
    eps: Seq<ServiceEndpoint>,
    c: ContainerSpec,
    class: ChallengeInstanceClass,
    assigned: Seq<(u16, u16)>,
    http_hosts: Seq<String>,
    tls_hosts: Seq<String>,
) -> bool {
    let pp = public_ports(c.ports@);
    let hp = ports_of_type(c.ports@, PortType::PublicHttpRoute);
    let tp = ports_of_type(c.ports@, PortType::PublicTlsRoute);
    &&& eps.len() == pp.len() + hp.len() + tp.len()
    &&& forall|k: int| 0 <= k < pp.len() ==> node_port_endpoint_is(#[trigger] eps[k], c, pp[k], class, published_port(assigned, pp[k]))
    &&& forall|k: int| 0 <= k < hp.len() ==> route_endpoint_is(#[trigger] eps[pp.len() + k], c, hp[k], class, http_hosts[k]@, false)
    &&& forall|k: int|
        0 <= k < tp.len() ==> route_endpoint_is(#[trigger] eps[pp.len() + hp.len() + k], c, tp[k], class, tls_hosts[k]@, true)
}

fn push_node_port_endpoints(
    eps: &mut Vec<ServiceEndpoint>,
    c: &ContainerSpec,
    class: &ChallengeInstanceClass,
    assigned: &Vec<(u16, u16)>,
)
    ensures
        final(eps)@.len() == old(eps)@.len() + public_ports(c.ports@).len(),
        forall|k: int| 0 <= k < old(eps)@.len() ==> #[trigger] final(eps)@[k] == old(eps)@[k],
        forall|k: int|
            0 <= k < public_ports(c.ports@).len() ==> node_port_endpoint_is(
                #[trigger] final(eps)@[old(eps)@.len() + k],
                *c,
                public_ports(c.ports@)[k],
                *class,
                published_port(assigned@, public_ports(c.ports@)[k]),
            ),
{
    let ghost base = eps@;
    let mut i: usize = 0;
    while i < c.ports.len()
        invariant
            i <= c.ports@.len(),
            eps@.len() == base.len() + public_ports(c.ports@.subrange(0, i as int)).len(),
            forall|k: int| 0 <= k < base.len() ==> #[trigger] eps@[k] == base[k],
            forall|k: int|
                0 <= k < public_ports(c.ports@.subrange(0, i as int)).len() ==> node_port_endpoint_is(
                    #[trigger] eps@[base.len() + k],
                    *c,
                    public_ports(c.ports@.subrange(0, i as int))[k],
                    *class,
                    published_port(assigned@, public_ports(c.ports@.subrange(0, i as int))[k]),
                ),
        decreases c.ports@.len() - i,
    {
        let ghost sub = c.ports@.subrange(0, i + 1);
        let ghost prefix = c.ports@.subrange(0, i as int);
        proof {
            assert(sub.drop_last() =~= prefix);
            assert(sub.last() == c.ports@[i as int]);
        }
        if c.ports[i].port_type == PortType::PublicPort {
            let n = match find_node_port(assigned, c.ports[i].port) {
                Some(n) => n,
                None => c.ports[i].port,
            };
            eps.push(node_port_endpoint(c, &c.ports[i], class, n));
        }
        i += 1;
    }
    proof {
        assert(c.ports@.subrange(0, c.ports@.len() as int) =~= c.ports@);
    }
}

fn push_route_endpoints(
    eps: &mut Vec<ServiceEndpoint>,
    c: &ContainerSpec,
    class: &ChallengeInstanceClass,
    hosts: &Vec<String>,
    tls_route: bool,
)
    requires
        hosts@.len() == ports_of_type(
            c.ports@,
            if tls_route { PortType::PublicTlsRoute } else { PortType::PublicHttpRoute },
        ).len(),
    ensures
        final(eps)@.len() == old(eps)@.len() + hosts@.len(),
        forall|k: int| 0 <= k < old(eps)@.len() ==> #[trigger] final(eps)@[k] == old(eps)@[k],
        forall|k: int|
            0 <= k < hosts@.len() ==> route_endpoint_is(
                #[trigger] final(eps)@[old(eps)@.len() + k],
                *c,
                ports_of_type(c.ports@, if tls_route { PortType::PublicTlsRoute } else { PortType::PublicHttpRoute })[k],
                *class,
                hosts@[k]@,
                tls_route,
            ),
{
    let t = if tls_route {
        PortType::PublicTlsRoute
    } else {
        PortType::PublicHttpRoute
    };
    let ghost base = eps@;
    let mut i: usize = 0;
    let mut j: usize = 0;
    let hl = hosts.len();
    while i < c.ports.len()
        invariant
            i <= c.ports@.len(),
            hl == hosts@.len(),
            j == ports_of_type(c.ports@.subrange(0, i as int), t).len(),
            t == (if tls_route { PortType::PublicTlsRoute } else { PortType::PublicHttpRoute }),
            hosts@.len() == ports_of_type(c.ports@, t).len(),
            ports_of_type(c.ports@.subrange(0, i as int), t).len() <= hosts@.len(),
            eps@.len() == base.len() + ports_of_type(c.ports@.subrange(0, i as int), t).len(),
            forall|k: int| 0 <= k < base.len() ==> #[trigger] eps@[k] == base[k],
            forall|k: int|
                0 <= k < ports_of_type(c.ports@.subrange(0, i as int), t).len() ==> route_endpoint_is(
                    #[trigger] eps@[base.len() + k],
                    *c,
                    ports_of_type(c.ports@.subrange(0, i as int), t)[k],
                    *class,
                    hosts@[k]@,
                    tls_route,
                ),
            forall|k: int|
                0 <= k < ports_of_type(c.ports@.subrange(0, i as int), t).len() ==> #[trigger] ports_of_type(
                    c.ports@.subrange(0, i as int),
                    t,
                )[k] == ports_of_type(c.ports@, t)[k],
        decreases c.ports@.len() - i,
    {
        let ghost sub = c.ports@.subrange(0, i + 1);
        let ghost prefix = c.ports@.subrange(0, i as int);
        proof {
            assert(sub.drop_last() =~= prefix);
            assert(sub.last() == c.ports@[i as int]);
            ports_of_type_prefix(c.ports@, t, i as int + 1);
        }
        if c.ports[i].port_type == t {
            eps.push(route_endpoint(c, &c.ports[i], class, hosts[j].as_str(), tls_route));
            j += 1;
        }
        i += 1;
    }
    proof {
        assert(c.ports@.subrange(0, c.ports@.len() as int) =~= c.ports@);
    }
}

/// The ports of a prefix of `ps` are a prefix of the ports of `ps`.
proof fn ports_of_type_prefix(ps: Seq<PortSpec>, t: PortType, n: int)
    requires
        0 <= n <= ps.len(),
    ensures
        ports_of_type(ps.subrange(0, n), t).len() <= ports_of_type(ps, t).len(),
        forall|k: int|
            0 <= k < ports_of_type(ps.subrange(0, n), t).len() ==> #[trigger] ports_of_type(ps.subrange(0, n), t)[k]
                == ports_of_type(ps, t)[k],
    decreases ps.len(),
{
    if n == ps.len() {
        assert(ps.subrange(0, n) =~= ps);
    } else {
        assert(ps.drop_last().subrange(0, n) =~= ps.subrange(0, n));
        ports_of_type_prefix(ps.drop_last(), t, n);
    }
}

/// The endpoints of a container, from the node ports the platform assigned
/// to its public ports (as port, node port pairs) and the host names its
/// HTTP and TLS routes carry, in port order.
pub fn container_endpoints(
    c: &ContainerSpec,
    class: &ChallengeInstanceClass,
    assigned: &Vec<(u16, u16)>,
    http_hosts: &Vec<String>,
    tls_hosts: &Vec<String>,
) -> (r: Vec<ServiceEndpoint>)
    requires
        http_hosts@.len() == ports_of_type(c.ports@, PortType::PublicHttpRoute).len(),
        tls_hosts@.len() == ports_of_type(c.ports@, PortType::PublicTlsRoute).len(),
    ensures
        container_endpoints_are(r@, *c, *class, assigned@, http_hosts@, tls_hosts@),
{
    let mut eps: Vec<ServiceEndpoint> = Vec::new();
    push_node_port_endpoints(&mut eps, c, class, assigned);
    let ghost e1 = eps@;
    push_route_endpoints(&mut eps, c, class, http_hosts, false);
    let ghost e2 = eps@;
    push_route_endpoints(&mut eps, c, class, tls_hosts, true);
    proof {
        let pp = public_ports(c.ports@);
        assert forall|k: int| 0 <= k < pp.len() implies node_port_endpoint_is(
            #[trigger] eps@[k],
            *c,
            pp[k],
            *class,
            published_port(assigned@, pp[k]),
        ) by {
            assert(eps@[k] == e2[k]);
            assert(e2[k] == e1[k]);
            assert(e1[0 + k] == e1[k]);
        }
        assert forall|k: int| 0 <= k < http_hosts@.len() implies route_endpoint_is(
            #[trigger] eps@[pp.len() + k],
            *c,
            ports_of_type(c.ports@, PortType::PublicHttpRoute)[k],
            *class,
            http_hosts@[k]@,
            false,
        ) by {
            assert(eps@[pp.len() + k] == e2[e1.len() + k]);
        }
    }
    eps
}

/// Records a created instance: phase `Starting`, its namespace (kept when
/// one is recorded already), its endpoints, and the conditions
/// `NamespaceCreated` and `ResourcesCreated`.
pub fn reconcile_creating(
    status: &mut ChallengeInstanceStatus,
    namespace: &str,
    endpoints: Vec<ServiceEndpoint>,
    now: &str,
) -> (r: Action)
    ensures
        final(status).phase == Some(crate::model::Phase::Starting),
        opt_view(final(status).namespace) == match old(status).namespace {
            Some(n) => Some(n@),
            None => Some(namespace@),
        },
        final(status).services@ == endpoints@,
        final(status).conditions@.len() == old(status).conditions@.len() + 2,
        forall|k: int| 0 <= k < old(status).conditions@.len() ==> #[trigger] final(status).conditions@[k] == old(status).conditions@[k],
        condition_is(
            final(status).conditions@[old(status).conditions@.len() as int],
            NAMESPACE_CREATED@,
            ConditionStatus::True,
            now@,
            "Created"@,
            "Namespace created"@,
        ),
        condition_is(
            final(status).conditions@[old(status).conditions@.len() + 1int],
            RESOURCES_CREATED@,
            ConditionStatus::True,
            now@,
            "Created"@,
            "All resources created"@,
        ),
        final(status).instance_id == old(status).instance_id,
        final(status).started_at == old(status).started_at,
        final(status).expires_at == old(status).expires_at,
        final(status).ready_at == old(status).ready_at,
        final(status).terminated_at == old(status).terminated_at,
        r == (Action::Requeue { seconds: PROGRESS_SECONDS }),
{
    if status.namespace.is_none() {
        status.namespace = Some(owned(namespace));
    }
    status.phase = Some(crate::model::Phase::Starting);
    status.services = endpoints;
    status.conditions.push(condition(NAMESPACE_CREATED, ConditionStatus::True, now, "Created", "Namespace created"));
    status.conditions.push(condition(RESOURCES_CREATED, ConditionStatus::True, now, "Created", "All resources created"));
    Action::Requeue { seconds: PROGRESS_SECONDS }
}

/// What the controller sees of one managed pod: its phase and its
/// conditions as (type, status) pairs.
#[derive(Clone, Debug)]
pub struct PodState {
    pub phase: Option<String>,
    pub conditions: Vec<(String, String)>,
}

/// The status of the first `Ready` condition, if any.
pub open spec fn ready_status(conds: Seq<(Seq<char>, Seq<char>)>) -> Option<Seq<char>>
    decreases conds.len(),
{
    if conds.len() == 0 {
        None
    } else if conds[0].0 == READY@ {
        Some(conds[0].1)
    } else {
        ready_status(conds.subrange(1, conds.len() as int))
    }
}

/// Whether a pod is running and ready.
pub open spec fn pod_ready(p: PodState) -> bool {
    opt_view(p.phase) == Some(RUNNING@) && ready_status(pairs_view(p.conditions@)) == Some(TRUE_TEXT@)
}

/// Whether there are pods and every one is running and ready.
pub open spec fn all_pods_ready(pods: Seq<PodState>) -> bool {
    pods.len() > 0 && forall|k: int| 0 <= k < pods.len() ==> pod_ready(#[trigger] pods[k])
}

fn pod_is_ready(p: &PodState) -> (r: bool)
    ensures
        r == pod_ready(*p),
{
    proof {
        reveal_strlit("Running");
        reveal_strlit("Ready");
        reveal_strlit("True");
    }
    let running = match &p.phase {
        Some(ph) => text_eq(ph.as_str(), RUNNING),
        None => false,
    };
    if !running {
        return false;
    }
    let ghost cs = pairs_view(p.conditions@);
    let mut i: usize = 0;
    proof {
        assert(cs.subrange(0, cs.len() as int) =~= cs);
    }
    while i < p.conditions.len()
        invariant
            i <= p.conditions@.len(),
            cs == pairs_view(p.conditions@),
            opt_view(p.phase) == Some(RUNNING@),
            ready_status(cs.subrange(i as int, cs.len() as int)) == ready_status(cs),
        decreases p.conditions@.len() - i,
    {
        let ghost rest = cs.subrange(i as int, cs.len() as int);
        proof {
            assert(rest.subrange(1, rest.len() as int) =~= cs.subrange(i + 1, cs.len() as int));
            assert(rest[0] == (p.conditions@[i as int].0@, p.conditions@[i as int].1@));
        }
        if text_eq(p.conditions[i].0.as_str(), READY) {
            return text_eq(p.conditions[i].1.as_str(), TRUE_TEXT);
        }
        i += 1;
    }
    false
}

/// Checks that there are managed pods and that all are running and ready.
pub fn check_pods_ready(pods: &Vec<PodState>) -> (r: bool)
    ensures
        r == all_pods_ready(pods@),
{
    if pods.len() == 0 {
        return false;
    }
    let mut i: usize = 0;
    while i < pods.len()
        invariant
            i <= pods@.len(),
            forall|k: int| 0 <= k < i ==> pod_ready(#[trigger] pods@[k]),
        decreases pods@.len() - i,
    {
        if !pod_is_ready(&pods[i]) {
            return false;
        }
        i += 1;
    }
    true
}

/// Whether some condition has type `t`.
pub open spec fn has_condition(conds: Seq<Condition>, t: Seq<char>) -> bool {
    exists|k: int| 0 <= k < conds.len() && #[trigger] conds[k].condition_type@ == t
}

/// Whether `j` is the first condition of type `t`.
pub open spec fn first_condition_at(conds: Seq<Condition>, t: Seq<char>, j: int) -> bool {
    &&& 0 <= j < conds.len()
    &&& conds[j].condition_type@ == t
    &&& forall|k: int| 0 <= k < j ==> #[trigger] conds[k].condition_type@ != t
}

fn find_condition(conds: &Vec<Condition>, t: &str) -> (r: Option<usize>)
    ensures
        match r {
            Some(j) => first_condition_at(conds@, t@, j as int),
            None => !has_condition(conds@, t@),
        },
{
    let mut i: usize = 0;
    while i < conds.len()
        invariant
            i <= conds@.len(),
            forall|k: int| 0 <= k < i ==> #[trigger] conds@[k].condition_type@ != t@,
        decreases conds@.len() - i,
    {
        if text_eq(conds[i].condition_type.as_str(), t) {
            return Some(i);
        }
        i += 1;
    }
    None
}

/// Seconds to wait while starting once pods are ready: until the expiry, or
/// an hour when it cannot be read.
pub open spec fn starting_wait(expires_at: Option<String>, now: i64) -> u64 {
    match time_left(expires_at, now) {
        Some(s) => s as u64,
        None => STARTING_FALLBACK_SECONDS,
    }
}

/// Watches the pods come up: once all are running and ready the instance
/// runs, and is looked at again at its expiry; until then the first
/// `PodsReady` condition is set to unknown status at `now_text` (one is added
/// when there is none) and the pods are checked again in five seconds.
pub fn reconcile_starting(status: &mut ChallengeInstanceStatus, pods: &Vec<PodState>, now_text: &str, now: i64) -> (r: Action)
    ensures
        final(status).instance_id == old(status).instance_id,
        final(status).namespace == old(status).namespace,
        final(status).services == old(status).services,
        final(status).started_at == old(status).started_at,
        final(status).expires_at == old(status).expires_at,
        final(status).terminated_at == old(status).terminated_at,
        if all_pods_ready(pods@) {
            &&& forall|k: int|
                0 <= k < old(status).conditions@.len() ==> #[trigger] final(status).conditions@[k] == old(status).conditions@[k]
            &&& final(status).phase == Some(crate::model::Phase::Running)
            &&& opt_view(final(status).ready_at) == Some(now_text@)
            &&& final(status).conditions@.len() == old(status).conditions@.len() + 1
            &&& condition_is(
                final(status).conditions@.last(),
                PODS_READY@,
                ConditionStatus::True,
                now_text@,
                "AllReady"@,
                "All pods are ready"@,
            )
            &&& r == (Action::Requeue { seconds: starting_wait(old(status).expires_at, now) })
        } else {
            &&& final(status).phase == old(status).phase
            &&& final(status).ready_at == old(status).ready_at
            &&& if has_condition(old(status).conditions@, PODS_READY@) {
                exists|j: int|
                    {
                        &&& first_condition_at(old(status).conditions@, PODS_READY@, j)
                        &&& final(status).conditions@ == old(status).conditions@.update(j, final(status).conditions@[j])
                        &&& final(status).conditions@[j].condition_type@ == PODS_READY@
                        &&& final(status).conditions@[j].status == ConditionStatus::Unknown
                        &&& opt_view(final(status).conditions@[j].last_transition_time) == Some(now_text@)
                        &&& opt_view(final(status).conditions@[j].reason) == opt_view(old(status).conditions@[j].reason)
                        &&& opt_view(final(status).conditions@[j].message) == opt_view(old(status).conditions@[j].message)
                    }
            } else {
                &&& forall|k: int|
                    0 <= k < old(status).conditions@.len() ==> #[trigger] final(status).conditions@[k]
                        == old(status).conditions@[k]
                &&& final(status).conditions@.len() == old(status).conditions@.len() + 1
                &&& condition_is(
                    final(status).conditions@.last(),
                    PODS_READY@,
                    ConditionStatus::Unknown,
                    now_text@,
                    "WaitingForPods"@,
                    "Waiting for pods to be ready"@,
                )
            }
            &&& r == (Action::Requeue { seconds: READINESS_SECONDS })
        },
{
    if check_pods_ready(pods) {
        status.phase = Some(crate::model::Phase::Running);
        status.ready_at = Some(owned(now_text));
        status.conditions.push(condition(PODS_READY, ConditionStatus::True, now_text, "AllReady", "All pods are ready"));
        let wait = match seconds_left(&status.expires_at, now) {
            Some(s) => s,
            None => STARTING_FALLBACK_SECONDS,
        };
        Action::Requeue { seconds: wait }
    } else {
        match find_condition(&status.conditions, PODS_READY) {
            Some(j) => {
                let updated = Condition {
                    condition_type: owned(status.conditions[j].condition_type.as_str()),
                    status: ConditionStatus::Unknown,
                    last_transition_time: Some(owned(now_text)),
                    reason: copy_opt(&status.conditions[j].reason),
                    message: copy_opt(&status.conditions[j].message),
                };
                let ghost before = status.conditions@;
                status.conditions.set(j, updated);
                proof {
                    assert(first_condition_at(before, PODS_READY@, j as int));
                    assert(status.conditions@ == before.update(j as int, status.conditions@[j as int]));
                }
            },
            None => {
                status.conditions.push(
                    condition(PODS_READY, ConditionStatus::Unknown, now_text, "WaitingForPods", "Waiting for pods to be ready"),
                );
            },
        }
        Action::Requeue { seconds: READINESS_SECONDS }
    }
}

/// Seconds to wait while running: until the expiry but at most ten minutes,
/// or a minute when the expiry cannot be read.
pub open spec fn running_wait(expires_at: Option<String>, now: i64) -> u64 {
    match time_left(expires_at, now) {
        Some(s) => if s <= MAX_RUNNING_WAIT_SECONDS {
            s as u64
        } else {
            MAX_RUNNING_WAIT_SECONDS
        },
        None => RUNNING_FALLBACK_SECONDS,
    }
}

/// Keeps watching a running instance until its expiry.
pub fn reconcile_running(status: &ChallengeInstanceStatus, now: i64) -> (r: Action)
    ensures
        r == (Action::Requeue { seconds: running_wait(status.expires_at, now) }),
{
    let wait = match seconds_left(&status.expires_at, now) {
        Some(s) => if s <= MAX_RUNNING_WAIT_SECONDS {
            s
        } else {
            MAX_RUNNING_WAIT_SECONDS
        },
        None => RUNNING_FALLBACK_SECONDS,
    };
    Action::Requeue { seconds: wait }
}

/// The texts and numbers of an endpoint.
pub open spec fn endpoint_view(e: ServiceEndpoint) -> (Seq<char>, Seq<char>, u16, Seq<char>, Option<Seq<char>>, Option<bool>) {
    (e.name@, e.hostname@, e.port, e.protocol@, opt_view(e.app_protocol), e.tls)
}

/// The endpoints of a container are fixed by its ports, the class, the
/// node ports the platform assigned and the host names its routes carry:
/// a repeated reconcile that reads back the same routes and services
/// records the same endpoints.
pub proof fn endpoints_are_determined(
    first: Seq<ServiceEndpoint>,
    second: Seq<ServiceEndpoint>,
    c: ContainerSpec,
    class: ChallengeInstanceClass,
    assigned: Seq<(u16, u16)>,
    http_hosts: Seq<String>,
    tls_hosts: Seq<String>,
)
    requires
        container_endpoints_are(first, c, class, assigned, http_hosts, tls_hosts),
        container_endpoints_are(second, c, class, assigned, http_hosts, tls_hosts),
    ensures
        first.map_values(|e: ServiceEndpoint| endpoint_view(e)) == second.map_values(|e: ServiceEndpoint| endpoint_view(e)),
{
    let pp = public_ports(c.ports@);
    let hp = ports_of_type(c.ports@, PortType::PublicHttpRoute);
    let tp = ports_of_type(c.ports@, PortType::PublicTlsRoute);
    assert forall|k: int| 0 <= k < first.len() implies #[trigger] endpoint_view(first[k]) == endpoint_view(second[k]) by {
        if k < pp.len() {
        } else if k < pp.len() + hp.len() {
            let i = k - pp.len();
            assert(first[pp.len() + i] == first[k]);
            assert(second[pp.len() + i] == second[k]);
        } else {
            let i = k - pp.len() - hp.len();
            assert(first[pp.len() + hp.len() + i] == first[k]);
            assert(second[pp.len() + hp.len() + i] == second[k]);
        }
    }
    assert(first.map_values(|e: ServiceEndpoint| endpoint_view(e)) =~= second.map_values(
        |e: ServiceEndpoint| endpoint_view(e),
    ));
}

} // verus!
