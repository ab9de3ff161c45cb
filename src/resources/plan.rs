//! Everything an instance needs, in the order it is created.
use crate::error::Error;
use crate::flag::entropy::expands_to;
use crate::flag::executable::{utf8, MAX_FLAG_BYTES};
use crate::flag::volume::{file_name_of, flag_volume_at, flag_volume_is, FlagFileKind, FlagVolume};
use crate::ids::{is_uuid_text, new_uuid};
use crate::model::{Challenge, ChallengeInstance, ChallengeInstanceClass, ContainerSpec, ControllerConfig, PortSpec, PortType};
use crate::naming::{generate_namespace_name, namespace_name};
use crate::resources::configmap::{build_flag_configmaps, content_map_is, executable_map_is, FlagConfigMap};
use crate::resources::deployment::{build_deployment, deployment_is, Deployment};
use crate::resources::gateway::{build_http_route, build_tls_route, http_route_is, tls_route_is, HTTPRoute, TLSRoute};
use crate::resources::namespace::{build_namespace, Namespace};
use crate::resources::network_policy::{build_network_policy, policy_is, CiliumNetworkPolicy};
use crate::resources::pdb::{build_pdb, pdb_is, PodDisruptionBudget};
use crate::resources::service::{build_services, ports_of_type, public_ports, services_are, Service, NODE_PORT_SUFFIX};
use crate::resources::gateway::route_name;
use crate::resources::pdb::PDB_SUFFIX;
use crate::resources::network_policy::POLICY_NAME;
use crate::flag::volume::{CONTENT_NAME, EXECUTABLE_NAME};
use crate::labels::namespace_labels_of;
use crate::text::{copy_strings, pairs_view, strings_view};
use vstd::prelude::*;

verus! {

/// The children of one challenge container.
#[derive(Clone, Debug)]
pub struct ContainerChildren {
    pub services: Vec<Service>,
    pub http_routes: Vec<HTTPRoute>,
    pub tls_routes: Vec<TLSRoute>,
    pub config_maps: Vec<FlagConfigMap>,
    pub pdb: PodDisruptionBudget,
    pub deployment: Deployment,
}

/// The children of an instance, in creation order: the namespace, the pull
/// secrets to copy into it, the network policy, then each container's
/// services, routes, flag config maps, disruption budget and deployment.
#[derive(Clone, Debug)]
pub struct CreationPlan {
    pub namespace: Namespace,
    pub pull_secrets: Vec<String>,
    pub network_policy: CiliumNetworkPolicy,
    pub containers: Vec<ContainerChildren>,
}

/// Whether some expansion of the flag path `path` has no file name.
pub open spec fn unnamed_expansion(path: Seq<char>) -> bool {
    exists|p: Seq<char>| expands_to(path, p) && file_name_of(p) is None
}

/// Whether a flag volume of `c` may fail: a flag path expands to one
/// without a file name.
pub open spec fn flag_volume_may_fail(c: ContainerSpec) -> bool {
    c.dynamic_flag matches Some(f) && ((f.content matches Some(cf) && unnamed_expansion(cf.path@)) || (
    f.executable matches Some(ef) && unnamed_expansion(ef.path@)))
}

/// Whether building the children of `c` may fail for the flag `flag`: the
/// flag is too long for the executable that `c` asks for, or a flag volume
/// may fail.
pub open spec fn container_may_fail(c: ContainerSpec, flag: Seq<char>) -> bool {
    ||| (c.dynamic_flag matches Some(f) && f.executable is Some && utf8(flag).len() > MAX_FLAG_BYTES)
    ||| flag_volume_may_fail(c)
}

/// Whether `v` mounts a flag file of `kind` from `path` with `mode`, at some
/// expansion of the path.
pub open spec fn volume_from(v: FlagVolume, kind: FlagFileKind, path: Seq<char>, mode: Option<u32>) -> bool {
    exists|p: Seq<char>|
        expands_to(path, p) && file_name_of(p) is Some && flag_volume_is(v, kind, mode, p, file_name_of(p)->0)
}

/// Whether `vs` are the flag volumes of `c`: the file one, then the
/// executable one, each present when the container asks for it.
pub open spec fn flag_volumes_are(vs: Seq<FlagVolume>, c: ContainerSpec) -> bool {
    match c.dynamic_flag {
        None => vs.len() == 0,
        Some(f) => {
            let n = if f.content is Some { 1int } else { 0int };
            &&& vs.len() == n + if f.executable is Some { 1int } else { 0int }
            &&& (f.content matches Some(cf) ==> volume_from(vs[0], FlagFileKind::Content, cf.path@, cf.mode))
            &&& (f.executable matches Some(ef) ==> volume_from(vs[n], FlagFileKind::Executable, ef.path@, ef.mode))
        },
    }
}

/// Whether `ms` are the flag config maps of `c` for the flag `flag`.
pub open spec fn flag_maps_are(ms: Seq<FlagConfigMap>, c: ContainerSpec, flag: Seq<char>, namespace: Seq<char>) -> bool {
    match c.dynamic_flag {
        None => ms.len() == 0,
        Some(f) => {
            let n = if f.content is Some { 1int } else { 0int };
            &&& ms.len() == n + if f.executable is Some { 1int } else { 0int }
            &&& (f.content is Some ==> content_map_is(ms[0], flag, namespace))
            &&& (f.executable is Some ==> executable_map_is(ms[n], flag, namespace))
        },
    }
}

/// Whether `r` is the HTTP route to port `p` of container `c` under some random host name id.
pub open spec fn http_route_for(
    r: HTTPRoute,
    instance: ChallengeInstance,
    c: ContainerSpec,
    p: PortSpec,
    namespace: Seq<char>,
    class: ChallengeInstanceClass,
) -> bool {
    exists|id: Seq<char>| is_uuid_text(id) && http_route_is(r, instance, c, p, namespace, class, id)
}

/// Whether `r` is the TLS route to port `p` of container `c` under some random host name id.
pub open spec fn tls_route_for(
    r: TLSRoute,
    instance: ChallengeInstance,
    c: ContainerSpec,
    p: PortSpec,
    namespace: Seq<char>,
    class: ChallengeInstanceClass,
) -> bool {
    exists|id: Seq<char>| is_uuid_text(id) && tls_route_is(r, instance, c, p, namespace, class, id)
}

/// Whether `cc` are the children of container `c` of `instance` in `namespace`.
pub open spec fn container_children_are(
    cc: ContainerChildren,
    instance: ChallengeInstance,
    c: ContainerSpec,
    namespace: Seq<char>,
    class: ChallengeInstanceClass,
) -> bool {
    let hp = ports_of_type(c.ports@, PortType::PublicHttpRoute);
    let tp = ports_of_type(c.ports@, PortType::PublicTlsRoute);
    &&& services_are(cc.services@, instance, c, namespace)
    &&& cc.http_routes@.len() == hp.len()
    &&& forall|k: int|
        0 <= k < hp.len() ==> http_route_for(#[trigger] cc.http_routes@[k], instance, c, hp[k], namespace, class)
    &&& cc.tls_routes@.len() == tp.len()
    &&& forall|k: int|
        0 <= k < tp.len() ==> tls_route_for(#[trigger] cc.tls_routes@[k], instance, c, tp[k], namespace, class)
    &&& flag_maps_are(cc.config_maps@, c, instance.spec.flag@, namespace)
    &&& pdb_is(cc.pdb, instance, c, namespace)
    &&& exists|vs: Seq<FlagVolume>| flag_volumes_are(vs, c) && deployment_is(cc.deployment, instance, c, namespace, class, vs)
}

/// The namespace name of an instance under the controller's prefix.
pub open spec fn instance_namespace(instance: ChallengeInstance, config: ControllerConfig) -> Seq<char> {
    namespace_name(config.namespace_prefix@, instance.spec.challenge_ref.name@, instance.spec.owner_id@)
}

/// The pull secrets that the class asks to copy.
pub open spec fn pull_secrets_of(class: ChallengeInstanceClass) -> Seq<Seq<char>> {
    match class.spec.image_pull {
        Some(p) => strings_view(p.secret_names@),
        None => Seq::empty(),
    }
}

/// Whether `p` is a creation plan for `instance` of `challenge` under `class`.
pub open spec fn plan_is(
    p: CreationPlan,
    instance: ChallengeInstance,
    challenge: Challenge,
    class: ChallengeInstanceClass,
    config: ControllerConfig,
) -> bool {
    let ns = instance_namespace(instance, config);
    &&& p.namespace.name@ == ns
    &&& pairs_view(p.namespace.labels@) == namespace_labels_of(instance, config.challenge_namespace@)
    &&& strings_view(p.pull_secrets@) == pull_secrets_of(class)
    &&& policy_is(p.network_policy, instance, challenge, ns, class)
    &&& p.containers@.len() == challenge.spec.containers@.len()
    &&& forall|k: int|
        0 <= k < p.containers@.len() ==> container_children_are(
            #[trigger] p.containers@[k],
            instance,
            challenge.spec.containers@[k],
            ns,
            class,
        )
}

/// Builds the flag volumes of a container, expanding placeholders in paths.
pub fn flag_volumes(c: &ContainerSpec) -> (r: Result<Vec<FlagVolume>, Error>)
    ensures
        r matches Ok(vs) ==> flag_volumes_are(vs@, *c),
        r matches Err(e) ==> e is FlagGenerationError && flag_volume_may_fail(*c),
{
    let mut vs: Vec<FlagVolume> = Vec::new();
    if let Some(f) = &c.dynamic_flag {
        if let Some(cf) = &f.content {
            match flag_volume_at(FlagFileKind::Content, cf.path.as_str(), cf.mode) {
                Ok(v) => vs.push(v),
                Err(e) => return Err(e),
            }
            assert(volume_from(vs@[0], FlagFileKind::Content, cf.path@, cf.mode));
        }
        let ghost n = vs@.len();
        if let Some(ef) = &f.executable {
            match flag_volume_at(FlagFileKind::Executable, ef.path.as_str(), ef.mode) {
                Ok(v) => vs.push(v),
                Err(e) => return Err(e),
            }
            assert(volume_from(vs@[n as int], FlagFileKind::Executable, ef.path@, ef.mode));
        }
    }
    Ok(vs)
}

fn http_routes(
    instance: &ChallengeInstance,
    c: &ContainerSpec,
    namespace: &str,
    class: &ChallengeInstanceClass,
) -> (r: Vec<HTTPRoute>)
    ensures
        r@.len() == ports_of_type(c.ports@, PortType::PublicHttpRoute).len(),
        forall|k: int|
            0 <= k < r@.len() ==> http_route_for(#[trigger] r@[k], *instance, *c, ports_of_type(c.ports@, PortType::PublicHttpRoute)[k], namespace@, *class),
{
    let mut r: Vec<HTTPRoute> = Vec::new();
    let mut i: usize = 0;
    while i < c.ports.len()
        invariant
            i <= c.ports@.len(),
            r@.len() == ports_of_type(c.ports@.subrange(0, i as int), PortType::PublicHttpRoute).len(),
            forall|k: int|
                0 <= k < r@.len() ==> http_route_for(#[trigger] r@[k], *instance, *c, ports_of_type(c.ports@.subrange(0, i as int), PortType::PublicHttpRoute)[k], namespace@, *class),
        decreases c.ports@.len() - i,
    {
        let ghost sub = c.ports@.subrange(0, i + 1);
        let ghost prefix = c.ports@.subrange(0, i as int);
        let ghost old_r = r@;
        proof {
            assert(sub.drop_last() =~= prefix);
            assert(sub.last() == c.ports@[i as int]);
            assert(ports_of_type(sub, PortType::PublicHttpRoute) == if c.ports@[i as int].port_type == PortType::PublicHttpRoute {
                ports_of_type(prefix, PortType::PublicHttpRoute).push(c.ports@[i as int])
            } else {
                ports_of_type(prefix, PortType::PublicHttpRoute)
            });
        }
        if c.ports[i].port_type == PortType::PublicHttpRoute {
            let id = new_uuid();
            let route = build_http_route(instance, c, &c.ports[i], namespace, class, id.as_str());
            r.push(route);
            proof {
                assert forall|k: int| 0 <= k < r@.len() implies http_route_for(#[trigger] r@[k], *instance, *c, ports_of_type(sub, PortType::PublicHttpRoute)[k], namespace@, *class) by {
                    if k == r@.len() - 1 {
                        assert(is_uuid_text(id@) && http_route_is(r@[k], *instance, *c, c.ports@[i as int], namespace@, *class, id@));
                        assert(http_route_for(r@[k], *instance, *c, c.ports@[i as int], namespace@, *class));
                    } else {
                        assert(r@[k] == old_r[k]);
                        assert(ports_of_type(sub, PortType::PublicHttpRoute)[k] == ports_of_type(prefix, PortType::PublicHttpRoute)[k]);
                    }
                }
            }
        }
        i += 1;
    }
    proof {
        assert(c.ports@.subrange(0, c.ports@.len() as int) =~= c.ports@);
    }
    r
}

fn tls_routes(
    instance: &ChallengeInstance,
    c: &ContainerSpec,
    namespace: &str,
    class: &ChallengeInstanceClass,
) -> (r: Vec<TLSRoute>)
    ensures
        r@.len() == ports_of_type(c.ports@, PortType::PublicTlsRoute).len(),
        forall|k: int|
            0 <= k < r@.len() ==> tls_route_for(#[trigger] r@[k], *instance, *c, ports_of_type(c.ports@, PortType::PublicTlsRoute)[k], namespace@, *class),
{
    let mut r: Vec<TLSRoute> = Vec::new();
    let mut i: usize = 0;
    while i < c.ports.len()
        invariant
            i <= c.ports@.len(),
            r@.len() == ports_of_type(c.ports@.subrange(0, i as int), PortType::PublicTlsRoute).len(),
            forall|k: int|
                0 <= k < r@.len() ==> tls_route_for(#[trigger] r@[k], *instance, *c, ports_of_type(c.ports@.subrange(0, i as int), PortType::PublicTlsRoute)[k], namespace@, *class),
        decreases c.ports@.len() - i,
    {
        let ghost sub = c.ports@.subrange(0, i + 1);
        let ghost prefix = c.ports@.subrange(0, i as int);
        let ghost old_r = r@;
        proof {
            assert(sub.drop_last() =~= prefix);
            assert(sub.last() == c.ports@[i as int]);
            assert(ports_of_type(sub, PortType::PublicTlsRoute) == if c.ports@[i as int].port_type == PortType::PublicTlsRoute {
                ports_of_type(prefix, PortType::PublicTlsRoute).push(c.ports@[i as int])
            } else {
                ports_of_type(prefix, PortType::PublicTlsRoute)
            });
        }
        if c.ports[i].port_type == PortType::PublicTlsRoute {
            let id = new_uuid();
            let route = build_tls_route(instance, c, &c.ports[i], namespace, class, id.as_str());
            r.push(route);
            proof {
                assert forall|k: int| 0 <= k < r@.len() implies tls_route_for(#[trigger] r@[k], *instance, *c, ports_of_type(sub, PortType::PublicTlsRoute)[k], namespace@, *class) by {
                    if k == r@.len() - 1 {
                        assert(is_uuid_text(id@) && tls_route_is(r@[k], *instance, *c, c.ports@[i as int], namespace@, *class, id@));
                        assert(tls_route_for(r@[k], *instance, *c, c.ports@[i as int], namespace@, *class));
                    } else {
                        assert(r@[k] == old_r[k]);
                        assert(ports_of_type(sub, PortType::PublicTlsRoute)[k] == ports_of_type(prefix, PortType::PublicTlsRoute)[k]);
                    }
                }
            }
        }
        i += 1;
    }
    proof {
        assert(c.ports@.subrange(0, c.ports@.len() as int) =~= c.ports@);
    }
    r
}

/// Builds the children of one container of an instance in `namespace`.
/// Fails only for a container whose flag comes as a file or an executable,
/// when a flag path has no file name or the flag is too long for the executable.
pub fn plan_container(
    instance: &ChallengeInstance,
    challenge: &Challenge,
    c: &ContainerSpec,
    namespace: &str,
    class: &ChallengeInstanceClass,
) -> (r: Result<ContainerChildren, Error>)
    ensures
        r matches Ok(cc) ==> container_children_are(cc, *instance, *c, namespace@, *class),
        r matches Err(e) ==> e is FlagGenerationError && container_may_fail(*c, instance.spec.flag@),
{
    let services = build_services(instance, challenge, c, namespace);
    let http = http_routes(instance, c, namespace, class);
    let tls = tls_routes(instance, c, namespace, class);
    let maps = match &c.dynamic_flag {
        Some(f) => match build_flag_configmaps(instance.spec.flag.as_str(), f, namespace) {
            Ok(m) => m,
            Err(e) => return Err(e),
        },
        None => Vec::new(),
    };
    let pdb = build_pdb(instance, challenge, c, namespace);
    let volumes = match flag_volumes(c) {
        Ok(v) => v,
        Err(e) => return Err(e),
    };
    let ghost vs = volumes@;
    let deployment = build_deployment(instance, challenge, c, namespace, class, volumes);
    proof {
        assert(flag_volumes_are(vs, *c) && deployment_is(deployment, *instance, *c, namespace@, *class, vs));
    }
    Ok(ContainerChildren { services, http_routes: http, tls_routes: tls, config_maps: maps, pdb, deployment })
}

/// Builds every child of an instance, in creation order.
pub fn plan_creation(
    instance: &ChallengeInstance,
    challenge: &Challenge,
    class: &ChallengeInstanceClass,
    config: &ControllerConfig,
) -> (r: Result<CreationPlan, Error>)
    ensures
        r matches Ok(p) ==> plan_is(p, *instance, *challenge, *class, *config),
        r matches Err(e) ==> e is FlagGenerationError,
        r is Err ==> exists|k: int|
            0 <= k < challenge.spec.containers@.len() && container_may_fail(
                #[trigger] challenge.spec.containers@[k],
                instance.spec.flag@,
            ),
{
    let ns = generate_namespace_name(
        config.namespace_prefix.as_str(),
        instance.spec.challenge_ref.name.as_str(),
        instance.spec.owner_id.as_str(),
    );
    let mut containers: Vec<ContainerChildren> = Vec::new();
    let mut i: usize = 0;
    while i < challenge.spec.containers.len()
        invariant
            i <= challenge.spec.containers@.len(),
            ns@ == instance_namespace(*instance, *config),
            containers@.len() == i,
            forall|k: int|
                0 <= k < i ==> container_children_are(
                    #[trigger] containers@[k],
                    *instance,
                    challenge.spec.containers@[k],
                    ns@,
                    *class,
                ),
        decreases challenge.spec.containers@.len() - i,
    {
        match plan_container(instance, challenge, &challenge.spec.containers[i], ns.as_str(), class) {
            Ok(cc) => containers.push(cc),
            Err(e) => {
                assert(container_may_fail(challenge.spec.containers@[i as int], instance.spec.flag@));
                return Err(e);
            },
        }
        i += 1;
    }
    let namespace = build_namespace(instance, ns.as_str(), config);
    let pull_secrets = match &class.spec.image_pull {
        Some(p) => copy_strings(&p.secret_names),
        None => Vec::new(),
    };
    proof {
        if class.spec.image_pull is None {
            assert(strings_view(pull_secrets@) =~= Seq::<Seq<char>>::empty());
        }
    }
    let network_policy = build_network_policy(instance, challenge, ns.as_str(), class);
    Ok(CreationPlan { namespace, pull_secrets, network_policy, containers })
}

/// The kinds of child resources.
#[derive(PartialEq, Eq, Structural, Clone, Copy, Debug)]
pub enum ChildKind {
    Namespace,
    PullSecret,
    NetworkPolicy,
    Service,
    HttpRoute,
    TlsRoute,
    ConfigMap,
    PodDisruptionBudget,
    Deployment,
}

/// Kind and name of each child of a container, in creation order.
pub open spec fn container_ids(cc: ContainerChildren) -> Seq<(ChildKind, Seq<char>)> {
    cc.services@.map_values(|x: Service| (ChildKind::Service, x.name@))
        + cc.http_routes@.map_values(|x: HTTPRoute| (ChildKind::HttpRoute, x.name@))
        + cc.tls_routes@.map_values(|x: TLSRoute| (ChildKind::TlsRoute, x.name@))
        + cc.config_maps@.map_values(|x: FlagConfigMap| (ChildKind::ConfigMap, x.name@))
        + seq![(ChildKind::PodDisruptionBudget, cc.pdb.name@), (ChildKind::Deployment, cc.deployment.name@)]
}

/// Kind and name of each child of a sequence of containers.
pub open spec fn containers_ids(ccs: Seq<ContainerChildren>) -> Seq<(ChildKind, Seq<char>)>
    decreases ccs.len(),
{
    if ccs.len() == 0 {
        Seq::empty()
    } else {
        containers_ids(ccs.drop_last()) + container_ids(ccs.last())
    }
}

/// Kind and name of each child that a plan creates, in creation order.
pub open spec fn plan_ids(p: CreationPlan) -> Seq<(ChildKind, Seq<char>)> {
    seq![(ChildKind::Namespace, p.namespace.name@)]
        + p.pull_secrets@.map_values(|x: String| (ChildKind::PullSecret, x@))
        + seq![(ChildKind::NetworkPolicy, p.network_policy.name@)]
        + containers_ids(p.containers@)
}

/// Kind and name of each child of container `c`, from the challenge alone.
pub open spec fn expected_container_ids(c: ContainerSpec) -> Seq<(ChildKind, Seq<char>)> {
    let services = if public_ports(c.ports@).len() > 0 {
        seq![(ChildKind::Service, c.hostname@), (ChildKind::Service, c.hostname@ + NODE_PORT_SUFFIX@)]
    } else {
        seq![(ChildKind::Service, c.hostname@)]
    };
    let maps = match c.dynamic_flag {
        None => Seq::empty(),
        Some(f) => (if f.content is Some {
            seq![(ChildKind::ConfigMap, CONTENT_NAME@)]
        } else {
            Seq::empty()
        }) + (if f.executable is Some {
            seq![(ChildKind::ConfigMap, EXECUTABLE_NAME@)]
        } else {
            Seq::empty()
        }),
    };
    services + ports_of_type(c.ports@, PortType::PublicHttpRoute).map_values(
        |p: PortSpec| (ChildKind::HttpRoute, route_name(c, p)),
    ) + ports_of_type(c.ports@, PortType::PublicTlsRoute).map_values(
        |p: PortSpec| (ChildKind::TlsRoute, route_name(c, p)),
    ) + maps + seq![
        (ChildKind::PodDisruptionBudget, c.hostname@ + PDB_SUFFIX@),
        (ChildKind::Deployment, c.hostname@),
    ]
}

/// Kind and name of each child of a sequence of containers, from the challenge alone.
pub open spec fn expected_containers_ids(cs: Seq<ContainerSpec>) -> Seq<(ChildKind, Seq<char>)>
    decreases cs.len(),
{
    if cs.len() == 0 {
        Seq::empty()
    } else {
        expected_containers_ids(cs.drop_last()) + expected_container_ids(cs.last())
    }
}

/// Kind and name of each child of an instance, from its inputs alone.
pub open spec fn expected_ids(
    instance: ChallengeInstance,
    challenge: Challenge,
    class: ChallengeInstanceClass,
    config: ControllerConfig,
) -> Seq<(ChildKind, Seq<char>)> {
    seq![(ChildKind::Namespace, instance_namespace(instance, config))]
        + pull_secrets_of(class).map_values(|x: Seq<char>| (ChildKind::PullSecret, x))
        + seq![(ChildKind::NetworkPolicy, POLICY_NAME@)]
        + expected_containers_ids(challenge.spec.containers@)
}

proof fn container_ids_fixed(
    cc: ContainerChildren,
    instance: ChallengeInstance,
    c: ContainerSpec,
    namespace: Seq<char>,
    class: ChallengeInstanceClass,
)
    requires
        container_children_are(cc, instance, c, namespace, class),
    ensures
        container_ids(cc) == expected_container_ids(c),
{
    let hp = ports_of_type(c.ports@, PortType::PublicHttpRoute);
    let tp = ports_of_type(c.ports@, PortType::PublicTlsRoute);
    assert forall|k: int| 0 <= k < hp.len() implies #[trigger] cc.http_routes@[k].name@ == route_name(c, hp[k]) by {
        assert(http_route_for(cc.http_routes@[k], instance, c, hp[k], namespace, class));
        let id = choose|id: Seq<char>| is_uuid_text(id) && http_route_is(cc.http_routes@[k], instance, c, hp[k], namespace, class, id);
    }
    assert forall|k: int| 0 <= k < tp.len() implies #[trigger] cc.tls_routes@[k].name@ == route_name(c, tp[k]) by {
        assert(tls_route_for(cc.tls_routes@[k], instance, c, tp[k], namespace, class));
        let id = choose|id: Seq<char>| is_uuid_text(id) && tls_route_is(cc.tls_routes@[k], instance, c, tp[k], namespace, class, id);
    }
    assert(cc.http_routes@.map_values(|x: HTTPRoute| (ChildKind::HttpRoute, x.name@)) =~= hp.map_values(
        |p: PortSpec| (ChildKind::HttpRoute, route_name(c, p)),
    ));
    assert(cc.tls_routes@.map_values(|x: TLSRoute| (ChildKind::TlsRoute, x.name@)) =~= tp.map_values(
        |p: PortSpec| (ChildKind::TlsRoute, route_name(c, p)),
    ));
    let vs = choose|vs: Seq<FlagVolume>| flag_volumes_are(vs, c) && deployment_is(cc.deployment, instance, c, namespace, class, vs);
    let services = if public_ports(c.ports@).len() > 0 {
        seq![(ChildKind::Service, c.hostname@), (ChildKind::Service, c.hostname@ + NODE_PORT_SUFFIX@)]
    } else {
        seq![(ChildKind::Service, c.hostname@)]
    };
    assert(cc.services@.map_values(|x: Service| (ChildKind::Service, x.name@)) =~= services);
    let maps = match c.dynamic_flag {
        None => Seq::empty(),
        Some(f) => (if f.content is Some {
            seq![(ChildKind::ConfigMap, CONTENT_NAME@)]
        } else {
            Seq::empty()
        }) + (if f.executable is Some {
            seq![(ChildKind::ConfigMap, EXECUTABLE_NAME@)]
        } else {
            Seq::empty()
        }),
    };
    assert(cc.config_maps@.map_values(|x: FlagConfigMap| (ChildKind::ConfigMap, x.name@)) =~= maps);
    assert(container_ids(cc) =~= expected_container_ids(c));
}

proof fn containers_ids_fixed(
    ccs: Seq<ContainerChildren>,
    instance: ChallengeInstance,
    cs: Seq<ContainerSpec>,
    namespace: Seq<char>,
    class: ChallengeInstanceClass,
)
    requires
        ccs.len() == cs.len(),
        forall|k: int| 0 <= k < ccs.len() ==> container_children_are(#[trigger] ccs[k], instance, cs[k], namespace, class),
    ensures
        containers_ids(ccs) == expected_containers_ids(cs),
    decreases ccs.len(),
{
    if ccs.len() > 0 {
        containers_ids_fixed(ccs.drop_last(), instance, cs.drop_last(), namespace, class);
        container_ids_fixed(ccs.last(), instance, cs.last(), namespace, class);
    }
}

/// Two plans for the same instance, challenge, class and configuration
/// create the same children, by kind and name, in the same order, whatever
/// random host names and paths each drew: repeated reconciles of the
/// creating phase converge on one set of resources.
pub proof fn creation_is_idempotent(
    first: CreationPlan,
    second: CreationPlan,
    instance: ChallengeInstance,
    challenge: Challenge,
    class: ChallengeInstanceClass,
    config: ControllerConfig,
)
    requires
        plan_is(first, instance, challenge, class, config),
        plan_is(second, instance, challenge, class, config),
    ensures
        plan_ids(first) == expected_ids(instance, challenge, class, config),
        plan_ids(first) == plan_ids(second),
{
    let ns = instance_namespace(instance, config);
    containers_ids_fixed(first.containers@, instance, challenge.spec.containers@, ns, class);
    containers_ids_fixed(second.containers@, instance, challenge.spec.containers@, ns, class);
    assert(first.pull_secrets@.map_values(|x: String| (ChildKind::PullSecret, x@)) =~= pull_secrets_of(class).map_values(
        |x: Seq<char>| (ChildKind::PullSecret, x),
    ));
    assert(second.pull_secrets@.map_values(|x: String| (ChildKind::PullSecret, x@)) =~= pull_secrets_of(class).map_values(
        |x: Seq<char>| (ChildKind::PullSecret, x),
    ));
}

} // verus!
