use berg_operator::flag::volume::FlagVolume;
use berg_operator::model::{
    Challenge, ChallengeInstance, ChallengeInstanceClass, ChallengeInstanceClassSpec, ChallengeInstanceSpec,
    ChallengeInstanceStatus, ChallengeRef, ChallengeSpec, ConditionStatus, ContainerSpec, ContentFlag, ControllerConfig,
    DynamicFlag, EnvFlag, ExecutableFlag, GatewayConfig, Phase, PortSpec, PortType,
};
use berg_operator::reconciler::entry::{next_step, with_finalizer, without_finalizer, Action, Step, FINALIZER};
use berg_operator::reconciler::finalizer::{
    cleanup_namespace, cleanup_step, finalize_status, CleanupAction, NamespaceState, WorkloadState,
};
use berg_operator::reconciler::state::{
    container_endpoints, initialize_instance, reconcile_creating, reconcile_pending, reconcile_running,
    reconcile_starting, PodState,
};
use berg_operator::resources::plan::plan_creation;
use berg_operator::resources::service::ServiceType;
use berg_operator::telemetry::Metrics;
use berg_operator::time::{text_of, instant_of};
use std::sync::atomic::Ordering;

const OWNER: &str = "a1b2c3d4-e5f6-7890-abcd-ef1234567890";

fn port(name: &str, number: u16, port_type: PortType) -> PortSpec {
    PortSpec { name: Some(name.to_string()), port: number, protocol: "tcp".to_string(), app_protocol: None, port_type }
}

fn container(ports: Vec<PortSpec>, dynamic_flag: Option<DynamicFlag>) -> ContainerSpec {
    ContainerSpec {
        hostname: "nginx".to_string(),
        image: "nginx:latest".to_string(),
        environment: vec![("MODE".to_string(), "ctf".to_string())],
        ports,
        dynamic_flag,
        resource_requests: None,
        resource_limits: None,
        additional_capabilities: vec![],
        runtime_class_name: None,
        readiness_probe: None,
        liveness_probe: None,
        egress_bandwidth: None,
        ingress_bandwidth: None,
    }
}

fn challenge(containers: Vec<ContainerSpec>, allow_outbound_traffic: bool) -> Challenge {
    Challenge {
        name: "nginx".to_string(),
        namespace: Some("berg".to_string()),
        spec: ChallengeSpec {
            display_name: None,
            author: "author".to_string(),
            description: "a web server".to_string(),
            flag: "flag{static}".to_string(),
            flag_format: "flag{...}".to_string(),
            dynamic_flag_mode: None,
            hide_until: None,
            difficulty: "easy".to_string(),
            categories: vec![],
            tags: vec![],
            event: None,
            allow_outbound_traffic,
            containers,
            attachments: vec![],
        },
    }
}

fn class() -> ChallengeInstanceClass {
    ChallengeInstanceClass {
        name: "default".to_string(),
        spec: ChallengeInstanceClassSpec {
            gateway: GatewayConfig {
                name: "gateway".to_string(),
                namespace: "gateway-system".to_string(),
                http_listener_name: "http".to_string(),
                tls_listener_name: "tls".to_string(),
                domain: "challs.example.com".to_string(),
                http_port: 443,
                tls_port: 8443,
            },
            default_resources: None,
            network: None,
            image_pull: None,
            security: None,
            default: true,
            default_timeout: None,
            challenge_namespace: "berg".to_string(),
        },
    }
}

fn config() -> ControllerConfig {
    ControllerConfig {
        default_instance_class: "default".to_string(),
        challenge_namespace: "berg".to_string(),
        default_timeout: "2h".to_string(),
        namespace_prefix: "ci".to_string(),
    }
}

fn instance(flag: &str, status: Option<ChallengeInstanceStatus>) -> ChallengeInstance {
    ChallengeInstance {
        name: "instance".to_string(),
        generation: Some(1),
        deletion_requested: false,
        finalizers: vec![FINALIZER.to_string()],
        spec: ChallengeInstanceSpec {
            challenge_ref: ChallengeRef { name: "nginx".to_string(), namespace: None },
            owner_id: OWNER.to_string(),
            flag: flag.to_string(),
            instance_class: None,
            timeout: Some("30m".to_string()),
            termination_reason: None,
        },
        status,
    }
}

fn status_with(phase: Phase, expires_at: &str) -> ChallengeInstanceStatus {
    let mut s = ChallengeInstanceStatus::empty();
    s.instance_id = Some("0b7e0c1e-2f4c-4f7e-9d2a-3c5b6a7d8e9f".to_string());
    s.phase = Some(phase);
    s.started_at = Some("2030-01-01T00:00:00.000000Z".to_string());
    s.expires_at = Some(expires_at.to_string());
    s
}

fn ready_pod() -> PodState {
    PodState {
        phase: Some("Running".to_string()),
        conditions: vec![
            ("Initialized".to_string(), "True".to_string()),
            ("Ready".to_string(), "True".to_string()),
        ],
    }
}

#[test]
fn happy_path_with_static_flag() {
    let ch = challenge(vec![container(vec![port("http", 80, PortType::PublicPort)], None)], false);
    let cl = class();
    let now = instant_of("2030-01-01T00:00:00Z").unwrap();
    let inst = instance("flag{test}", Some(status_with(Phase::Creating, "2030-01-01T00:30:00.000000Z")));
    assert_eq!(next_step(&inst, now), Step::Dispatch(Phase::Creating));

    let plan = plan_creation(&inst, &ch, &cl, &config()).unwrap();
    assert_eq!(plan.namespace.name, "ci-nginx-a1b2c3d4-e5f6-7890-abcd-ef1234567890");
    assert_eq!(plan.network_policy.name, "challenge-network-policy");
    assert_eq!(plan.containers.len(), 1);
    let cc = &plan.containers[0];
    assert_eq!(cc.services.len(), 2);
    assert_eq!(cc.services[0].name, "nginx");
    assert_eq!(cc.services[0].service_type, ServiceType::ClusterIp);
    assert_eq!(cc.services[1].name, "nginx-node-port");
    assert_eq!(cc.services[1].service_type, ServiceType::NodePort);
    assert_eq!(cc.services[1].ports.len(), 1);
    assert_eq!(cc.services[1].ports[0].protocol, "TCP");
    assert_eq!(cc.deployment.replicas, 1);
    assert_eq!(cc.deployment.name, "nginx");
    assert_eq!(cc.pdb.name, "nginx-pdb");
    assert_eq!(cc.pdb.max_unavailable, 0);
    assert!(cc.http_routes.is_empty() && cc.tls_routes.is_empty() && cc.config_maps.is_empty());

    let endpoints = container_endpoints(&ch.spec.containers[0], &cl, &vec![(80, 31234)], &vec![], &vec![]);
    assert_eq!(endpoints.len(), 1);
    assert_eq!(endpoints[0].port, 31234);
    assert_eq!(endpoints[0].hostname, "challs.example.com");

    let mut status = inst.status.clone().unwrap();
    let now_text = text_of(now).unwrap();
    let a = reconcile_creating(&mut status, &plan.namespace.name, endpoints, &now_text);
    assert_eq!(a, Action::Requeue { seconds: 2 });
    assert_eq!(status.phase, Some(Phase::Starting));
    assert_eq!(status.namespace.as_deref(), Some("ci-nginx-a1b2c3d4-e5f6-7890-abcd-ef1234567890"));

    let a = reconcile_starting(&mut status, &vec![ready_pod()], &now_text, now);
    assert_eq!(status.phase, Some(Phase::Running));
    assert_eq!(a, Action::Requeue { seconds: 1800 });
    assert_eq!(status.services.len(), 1);
    assert_eq!(status.services[0].port, 31234);
    assert_eq!(reconcile_running(&status, now), Action::Requeue { seconds: 600 });
}

#[test]
fn dynamic_env_flag_without_flag_fails_validation() {
    let df = DynamicFlag { env: Some(EnvFlag { name: "FLAG".to_string() }), content: None, executable: None };
    let ch = challenge(vec![container(vec![port("http", 80, PortType::InternalPort)], Some(df))], false);
    let mut status = status_with(Phase::Pending, "2030-01-01T00:30:00.000000Z");
    let a = reconcile_pending(&mut status, &ch, "", "2030-01-01T00:00:00.000000Z");
    assert_eq!(a, Action::AwaitChange);
    assert_eq!(status.phase, Some(Phase::Failed));
    let c = status.conditions.last().unwrap();
    assert_eq!(c.condition_type, "FlagValidation");
    assert_eq!(c.status, ConditionStatus::False);
    assert_eq!(c.reason.as_deref(), Some("FlagMissing"));
    assert_eq!(status.namespace, None);

    let mut status = status_with(Phase::Pending, "2030-01-01T00:30:00.000000Z");
    let a = reconcile_pending(&mut status, &ch, "flag{x}", "2030-01-01T00:00:00.000000Z");
    assert_eq!(a, Action::Requeue { seconds: 1 });
    assert_eq!(status.phase, Some(Phase::Creating));
    assert_eq!(status.conditions.last().unwrap().status, ConditionStatus::True);
}

#[test]
fn env_flag_reaches_the_container_environment() {
    let df = DynamicFlag { env: Some(EnvFlag { name: "FLAG".to_string() }), content: None, executable: None };
    let ch = challenge(vec![container(vec![], Some(df))], false);
    let inst = instance("flag{env}", Some(status_with(Phase::Creating, "2030-01-01T00:30:00.000000Z")));
    let plan = plan_creation(&inst, &ch, &class(), &config()).unwrap();
    let env = &plan.containers[0].deployment.env;
    assert_eq!(env.len(), 3);
    assert_eq!(env[0], ("MODE".to_string(), "ctf".to_string()));
    assert_eq!(env[1], ("CHALLENGE_NAMESPACE".to_string(), plan.namespace.name.clone()));
    assert_eq!(env[2], ("FLAG".to_string(), "flag{env}".to_string()));
}

fn is_hex12(s: &str) -> bool {
    s.len() == 12 && s.chars().all(|c| c.is_ascii_digit() || ('a'..='f').contains(&c))
}

#[test]
fn dynamic_content_flag_is_mounted_read_only() {
    let df = DynamicFlag {
        env: None,
        content: Some(ContentFlag { path: "/srv/{entropy}/flag.txt".to_string(), mode: None }),
        executable: None,
    };
    let ch = challenge(vec![container(vec![], Some(df))], false);
    let inst = instance("flag{abc}", Some(status_with(Phase::Creating, "2030-01-01T00:30:00.000000Z")));
    let plan = plan_creation(&inst, &ch, &class(), &config()).unwrap();
    let cc = &plan.containers[0];
    assert_eq!(cc.config_maps.len(), 1);
    assert_eq!(cc.config_maps[0].key, "content");
    assert_eq!(cc.config_maps[0].text.as_deref(), Some("flag{abc}\n"));
    let v: &FlagVolume = &cc.deployment.volumes[0];
    let parts: Vec<&str> = v.mount_path.split('/').collect();
    assert_eq!(parts.len(), 4);
    assert_eq!(parts[1], "srv");
    assert!(is_hex12(parts[2]));
    assert_eq!(parts[3], "flag.txt");
    assert_eq!(v.sub_path, "flag.txt");
    assert!(v.read_only);
    assert_eq!(v.default_mode, 0o444);
}

#[test]
fn executable_flag_drops_dac_override() {
    let df = DynamicFlag {
        env: None,
        content: None,
        executable: Some(ExecutableFlag { path: "/bin/flag".to_string(), mode: None }),
    };
    let ch = challenge(vec![container(vec![], Some(df))], false);
    let inst = instance("flag{exec}", Some(status_with(Phase::Creating, "2030-01-01T00:30:00.000000Z")));
    let plan = plan_creation(&inst, &ch, &class(), &config()).unwrap();
    let cc = &plan.containers[0];
    assert_eq!(cc.config_maps.len(), 1);
    assert_eq!(cc.config_maps[0].key, "executable");
    let elf = cc.config_maps[0].binary.as_ref().unwrap();
    assert_eq!(&elf[0..4], &[0x7f, 0x45, 0x4c, 0x46]);
    assert!(elf.ends_with(b"flag{exec}"));
    assert_eq!(cc.deployment.security_context.capabilities_drop, vec!["DAC_OVERRIDE".to_string()]);
    assert!(!cc.deployment.security_context.privileged);
    let v = &cc.deployment.volumes[0];
    assert!(v.read_only);
    assert_eq!(v.default_mode, 0o555);
    assert_eq!(v.mount_path, "/bin/flag");
}

#[test]
fn timeout_expiry_tears_the_instance_down() {
    let t = instant_of("2030-01-01T00:30:00Z").unwrap();
    let inst = instance("flag{test}", Some(status_with(Phase::Running, "2030-01-01T00:30:00.000000Z")));
    assert_eq!(next_step(&inst, t), Step::Dispatch(Phase::Running));
    assert_eq!(next_step(&inst, t + 1_000_000), Step::Expire);

    let mut deleted = inst.clone();
    deleted.deletion_requested = true;
    assert_eq!(next_step(&deleted, t + 1_000_000), Step::Cleanup);

    let live = vec![WorkloadState { name: "nginx".to_string(), live_pods: true }];
    match cleanup_step(&live, NamespaceState::Active) {
        CleanupAction::DeleteWorkloads(names) => assert_eq!(names, vec!["nginx".to_string()]),
        other => panic!("unexpected {:?}", other),
    }
    let drained = vec![WorkloadState { name: "nginx".to_string(), live_pods: false }];
    assert!(matches!(cleanup_step(&drained, NamespaceState::Active), CleanupAction::DeleteNamespace));
    assert!(matches!(cleanup_step(&drained, NamespaceState::Terminating), CleanupAction::WaitForNamespace));
    assert!(matches!(cleanup_step(&vec![], NamespaceState::Absent), CleanupAction::Finalize));

    let mut status = inst.status.clone().unwrap();
    finalize_status(&mut status, "2030-01-01T00:30:01.000000Z");
    assert_eq!(status.phase, Some(Phase::Terminated));
    assert_eq!(status.terminated_at.as_deref(), Some("2030-01-01T00:30:01.000000Z"));
    assert_eq!(status.conditions.last().unwrap().condition_type, "NamespaceDeleted");
    let remaining = without_finalizer(&vec!["other".to_string(), FINALIZER.to_string()]);
    assert_eq!(remaining, vec!["other".to_string()]);

    let metrics = Metrics::default();
    metrics.incr_active_instances();
    metrics.record_timeout();
    metrics.decr_active_instances();
    assert_eq!(metrics.active_instances.load(Ordering::Relaxed), 0);
    assert_eq!(metrics.timeouts.load(Ordering::Relaxed), 1);
}

#[test]
fn outbound_traffic_toggle() {
    let closed = challenge(vec![container(vec![], None)], false);
    let inst = instance("flag{test}", Some(status_with(Phase::Creating, "2030-01-01T00:30:00.000000Z")));
    let plan = plan_creation(&inst, &closed, &class(), &config()).unwrap();
    let egress = &plan.network_policy.spec.egress;
    assert_eq!(egress.len(), 3);
    let dns = egress[0].to_ports[0].rules.as_ref().unwrap();
    assert_eq!(
        dns.dns[0].match_pattern.as_deref(),
        Some("*.ci-nginx-a1b2c3d4-e5f6-7890-abcd-ef1234567890.svc.cluster.local.")
    );
    assert!(egress.iter().all(|r| !r.to_entities.contains(&"world".to_string())));
    assert_eq!(egress[2].to_entities, vec!["host".to_string()]);
    assert_eq!(egress[2].to_ports[0].ports[0].port.as_deref(), Some("443"));
    assert_eq!(egress[2].to_ports[0].ports[1].port.as_deref(), Some("8443"));

    let open = challenge(vec![container(vec![], None)], true);
    let plan = plan_creation(&inst, &open, &class(), &config()).unwrap();
    let egress = &plan.network_policy.spec.egress;
    assert_eq!(egress.len(), 4);
    assert!(egress[0].to_ports[0].rules.is_none());
    assert_eq!(egress[3].to_entities, vec!["world".to_string()]);
}

#[test]
fn entry_adds_finalizer_then_initializes() {
    let mut inst = instance("flag{test}", None);
    inst.finalizers = vec![];
    assert_eq!(next_step(&inst, 0), Step::AddFinalizer);
    inst.finalizers = with_finalizer(&inst.finalizers);
    assert_eq!(inst.finalizers, vec![FINALIZER.to_string()]);
    assert_eq!(next_step(&inst, 0), Step::Initialize);
}

#[test]
fn routes_get_random_hosts_under_the_domain() {
    let ch = challenge(
        vec![container(
            vec![port("web", 8080, PortType::PublicHttpRoute), port("tls", 1337, PortType::PublicTlsRoute)],
            None,
        )],
        false,
    );
    let cl = class();
    let inst = instance("flag{test}", Some(status_with(Phase::Creating, "2030-01-01T00:30:00.000000Z")));
    let plan = plan_creation(&inst, &ch, &cl, &config()).unwrap();
    let cc = &plan.containers[0];
    assert_eq!(cc.services.len(), 1);
    assert_eq!(cc.http_routes.len(), 1);
    assert_eq!(cc.http_routes[0].name, "nginx-8080");
    let host = &cc.http_routes[0].spec.hostnames[0];
    assert!(host.ends_with(".challs.example.com"));
    assert_eq!(host.len(), 36 + ".challs.example.com".len());
    assert_eq!(cc.http_routes[0].spec.parent_refs[0].section_name.as_deref(), Some("http"));
    assert_eq!(cc.tls_routes.len(), 1);
    assert_eq!(cc.tls_routes[0].name, "nginx-1337");
    assert_eq!(cc.tls_routes[0].spec.parent_refs[0].section_name.as_deref(), Some("tls"));

    let eps = container_endpoints(
        &ch.spec.containers[0],
        &cl,
        &vec![],
        &vec![host.clone()],
        &vec!["stored.challs.example.com".to_string()],
    );
    assert_eq!(eps.len(), 2);
    assert_eq!(eps[0].port, 443);
    assert_eq!(eps[0].tls, Some(true));
    assert_eq!(eps[1].hostname, "stored.challs.example.com");
    assert_eq!(eps[1].port, 8443);
    assert_eq!(eps[1].app_protocol.as_deref(), Some("TCP"));
}

#[test]
fn repeated_plans_name_the_same_children() {
    let ch = challenge(vec![container(vec![port("web", 8080, PortType::PublicHttpRoute)], None)], false);
    let inst = instance("flag{test}", Some(status_with(Phase::Creating, "2030-01-01T00:30:00.000000Z")));
    let a = plan_creation(&inst, &ch, &class(), &config()).unwrap();
    let b = plan_creation(&inst, &ch, &class(), &config()).unwrap();
    assert_eq!(a.namespace.name, b.namespace.name);
    assert_eq!(a.containers[0].http_routes[0].name, b.containers[0].http_routes[0].name);
    assert_ne!(a.containers[0].http_routes[0].spec.hostnames, b.containers[0].http_routes[0].spec.hostnames);
}

#[test]
fn initialization_starts_the_clock() {
    let inst = instance("flag{test}", None);
    let now = instant_of("2030-01-01T00:00:00Z").unwrap();
    let mut status = ChallengeInstanceStatus::empty();
    let a = initialize_instance(&mut status, &inst, &None, &config(), now).unwrap();
    assert_eq!(a, Action::Requeue { seconds: 1 });
    assert_eq!(status.phase, Some(Phase::Pending));
    let id = status.instance_id.clone().unwrap();
    assert_eq!(id.len(), 36);
    assert_eq!(id.matches('-').count(), 4);
    assert_eq!(status.started_at.as_deref(), Some("2030-01-01T00:00:00.000000Z"));
    assert_eq!(status.expires_at.as_deref(), Some("2030-01-01T00:30:00.000000Z"));

    let mut no_timeout = inst.clone();
    no_timeout.spec.timeout = None;
    let mut status = ChallengeInstanceStatus::empty();
    initialize_instance(&mut status, &no_timeout, &Some("45m".to_string()), &config(), now).unwrap();
    assert_eq!(status.expires_at.as_deref(), Some("2030-01-01T00:45:00.000000Z"));
    let mut status = ChallengeInstanceStatus::empty();
    initialize_instance(&mut status, &no_timeout, &None, &config(), now).unwrap();
    assert_eq!(status.expires_at.as_deref(), Some("2030-01-01T02:00:00.000000Z"));

    let mut bad = inst.clone();
    bad.spec.timeout = Some("soon".to_string());
    let mut status = ChallengeInstanceStatus::empty();
    assert!(initialize_instance(&mut status, &bad, &None, &config(), now).is_err());
    assert_eq!(status.instance_id, None);
}

#[test]
fn teardown_uses_the_recorded_namespace_or_derives_it() {
    let inst = instance("flag{test}", None);
    assert_eq!(cleanup_namespace(&inst, &config()), "ci-nginx-a1b2c3d4-e5f6-7890-abcd-ef1234567890");
    let mut status = ChallengeInstanceStatus::empty();
    status.namespace = Some("recorded".to_string());
    let inst = instance("flag{test}", Some(status));
    assert_eq!(cleanup_namespace(&inst, &config()), "recorded");
}

#[test]
fn running_instance_at_its_expiry_is_looked_at_at_once() {
    let t = instant_of("2030-01-01T00:30:00Z").unwrap();
    let status = status_with(Phase::Running, "2030-01-01T00:30:00.000000Z");
    assert_eq!(reconcile_running(&status, t), Action::Requeue { seconds: 0 });
    assert_eq!(reconcile_running(&status, t + 1), Action::Requeue { seconds: 0 });
    assert_eq!(reconcile_running(&status, t - 1), Action::Requeue { seconds: 1 });
    assert_eq!(reconcile_running(&status, t - 3_600_000_000), Action::Requeue { seconds: 600 });
    let unreadable = status_with(Phase::Running, "later");
    assert_eq!(reconcile_running(&unreadable, t), Action::Requeue { seconds: 60 });

    let mut starting = status_with(Phase::Starting, "2030-01-01T00:30:00.000000Z");
    let a = reconcile_starting(&mut starting, &vec![ready_pod()], "2030-01-01T00:30:00.000000Z", t);
    assert_eq!(a, Action::Requeue { seconds: 0 });
}

#[test]
fn waiting_marks_an_existing_pods_ready_condition_unknown() {
    let t = instant_of("2030-01-01T00:00:00Z").unwrap();
    let mut status = status_with(Phase::Starting, "2030-01-01T00:30:00.000000Z");
    let not_ready = PodState { phase: Some("Pending".to_string()), conditions: vec![] };
    let a = reconcile_starting(&mut status, &vec![not_ready.clone()], "2030-01-01T00:00:00.000000Z", t);
    assert_eq!(a, Action::Requeue { seconds: 5 });
    assert_eq!(status.conditions.len(), 1);
    status.conditions[0].status = ConditionStatus::False;
    let a = reconcile_starting(&mut status, &vec![not_ready], "2030-01-01T00:00:05.000000Z", t + 5_000_000);
    assert_eq!(a, Action::Requeue { seconds: 5 });
    assert_eq!(status.conditions.len(), 1);
    assert_eq!(status.conditions[0].condition_type, "PodsReady");
    assert_eq!(status.conditions[0].status, ConditionStatus::Unknown);
    assert_eq!(status.conditions[0].last_transition_time.as_deref(), Some("2030-01-01T00:00:05.000000Z"));
    assert_eq!(status.phase, Some(Phase::Starting));
    let a = reconcile_starting(&mut status, &vec![], "2030-01-01T00:00:10.000000Z", t);
    assert_eq!(a, Action::Requeue { seconds: 5 });
    assert_eq!(status.conditions.len(), 1);
}
