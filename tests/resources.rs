use berg_operator::error::Error;
use berg_operator::labels::{common_labels, namespace_labels, pod_labels, pod_selector_labels, resource_labels};
use berg_operator::model::{
    Challenge, ChallengeInstance, ChallengeInstanceClass, ChallengeInstanceClassSpec, ChallengeInstanceSpec,
    ChallengeInstanceStatus, ChallengeRef, ChallengeSpec, ContainerSpec, ControllerConfig, DynamicFlag, GatewayConfig,
    ResourceDefaults, ResourceSpec, SecurityConfig,
};
use berg_operator::reconciler::entry::{challenge_not_found, class_not_found, error_policy, Action};
use berg_operator::resources::deployment::{build_deployment, build_resources, build_security_context};
use berg_operator::resources::pdb::build_pdb;
use berg_operator::text::decimal_text;

fn container() -> ContainerSpec {
    ContainerSpec {
        hostname: "web".to_string(),
        image: "web:1".to_string(),
        environment: vec![],
        ports: vec![],
        dynamic_flag: None,
        resource_requests: None,
        resource_limits: None,
        additional_capabilities: vec!["NET_ADMIN".to_string()],
        runtime_class_name: None,
        readiness_probe: Some("{\"tcpSocket\":{\"port\":80}}".to_string()),
        liveness_probe: None,
        egress_bandwidth: Some("10M".to_string()),
        ingress_bandwidth: None,
    }
}

fn class(defaults: Option<ResourceDefaults>, runtime: Option<&str>) -> ChallengeInstanceClass {
    ChallengeInstanceClass {
        name: "default".to_string(),
        spec: ChallengeInstanceClassSpec {
            gateway: GatewayConfig {
                name: "gw".to_string(),
                namespace: "gw-ns".to_string(),
                http_listener_name: "http".to_string(),
                tls_listener_name: "tls".to_string(),
                domain: "example.com".to_string(),
                http_port: 80,
                tls_port: 443,
            },
            default_resources: defaults,
            network: None,
            image_pull: None,
            security: runtime.map(|r| SecurityConfig { runtime_class_name: Some(r.to_string()), pod_security_context: None }),
            default: true,
            default_timeout: None,
            challenge_namespace: "berg".to_string(),
        },
    }
}

fn instance(with_id: bool, instance_class: Option<&str>) -> ChallengeInstance {
    let mut status = ChallengeInstanceStatus::empty();
    if with_id {
        status.instance_id = Some("id-1".to_string());
    }
    ChallengeInstance {
        name: "i".to_string(),
        generation: None,
        deletion_requested: false,
        finalizers: vec![],
        spec: ChallengeInstanceSpec {
            challenge_ref: ChallengeRef { name: "web-chall".to_string(), namespace: None },
            owner_id: "owner".to_string(),
            flag: "flag{x}".to_string(),
            instance_class: instance_class.map(|c| c.to_string()),
            timeout: None,
            termination_reason: None,
        },
        status: Some(status),
    }
}

fn challenge() -> Challenge {
    Challenge {
        name: "web-chall".to_string(),
        namespace: None,
        spec: ChallengeSpec {
            display_name: None,
            author: String::new(),
            description: String::new(),
            flag: String::new(),
            flag_format: String::new(),
            dynamic_flag_mode: None,
            hide_until: None,
            difficulty: String::new(),
            categories: vec![],
            tags: vec![],
            event: None,
            allow_outbound_traffic: false,
            containers: vec![container()],
            attachments: vec![],
        },
    }
}

fn config() -> ControllerConfig {
    ControllerConfig {
        default_instance_class: "default".to_string(),
        challenge_namespace: "berg".to_string(),
        default_timeout: "2h".to_string(),
        namespace_prefix: "ci".to_string(),
    }
}

fn pairs(v: &[(&str, &str)]) -> Vec<(String, String)> {
    v.iter().map(|(k, x)| (k.to_string(), x.to_string())).collect()
}

#[test]
fn labels_carry_the_instance_id_once_it_exists() {
    let with = common_labels(&instance(true, None), &challenge());
    assert_eq!(
        with,
        pairs(&[
            ("app.kubernetes.io/managed-by", "berg"),
            ("app.kubernetes.io/component", "challenge"),
            ("berg.norelect.ch/challenge", "web-chall"),
            ("berg.norelect.ch/owner-id", "owner"),
            ("berg.norelect.ch/instance-id", "id-1"),
        ])
    );
    assert_eq!(common_labels(&instance(false, None), &challenge()).len(), 4);
    assert_eq!(resource_labels(&instance(true, None), &challenge()), with);
    let pod = pod_labels(&instance(true, None), &challenge(), &container());
    assert_eq!(pod.last().unwrap(), &("berg.norelect.ch/container".to_string(), "web".to_string()));
    assert_eq!(pod_selector_labels(&container()), pairs(&[("berg.norelect.ch/container", "web")]));
    let ns = namespace_labels(&instance(true, None), &config());
    assert!(ns.contains(&("berg.norelect.ch/challenge-namespace".to_string(), "berg".to_string())));
    assert_eq!(ns.len(), 6);
}

#[test]
fn resources_fall_back_from_container_to_class_to_defaults() {
    let r = build_resources(&container(), &class(None, None));
    assert_eq!((r.cpu_request.as_str(), r.cpu_limit.as_str()), ("100m", "1000m"));
    assert_eq!((r.memory_request.as_str(), r.memory_limit.as_str()), ("128Mi", "512Mi"));
    let defaults = ResourceDefaults {
        cpu_request: Some("200m".to_string()),
        cpu_limit: None,
        memory_request: None,
        memory_limit: Some("1Gi".to_string()),
    };
    let mut c = container();
    c.resource_limits = Some(ResourceSpec { cpu: Some("2".to_string()), memory: None });
    let r = build_resources(&c, &class(Some(defaults), None));
    assert_eq!(r.cpu_limit, "2");
    assert_eq!(r.cpu_request, "200m");
    assert_eq!(r.memory_limit, "1Gi");
    assert_eq!(r.memory_request, "128Mi");
}

#[test]
fn security_context_adds_capabilities_and_keeps_override_without_executable() {
    let s = build_security_context(&container());
    assert!(!s.privileged);
    assert!(s.allow_privilege_escalation);
    assert_eq!(s.capabilities_add, vec!["NET_ADMIN".to_string()]);
    assert!(s.capabilities_drop.is_empty());
    let mut c = container();
    c.dynamic_flag = Some(DynamicFlag { env: None, content: None, executable: None });
    assert!(build_security_context(&c).capabilities_drop.is_empty());
}

#[test]
fn deployment_is_disposable_and_single_replica() {
    let d = build_deployment(&instance(true, None), &challenge(), &container(), "ns-1", &class(None, Some("gvisor")), vec![]);
    assert_eq!(d.replicas, 1);
    assert_eq!(d.namespace, "ns-1");
    assert_eq!(d.runtime_class_name.as_deref(), Some("gvisor"));
    assert!(!d.enable_service_links);
    assert!(!d.automount_service_account_token);
    assert_eq!(d.termination_grace_period_seconds, 0);
    assert_eq!(
        d.pod_annotations,
        pairs(&[
            ("kubernetes.io/egress-bandwidth", "10M"),
            ("cluster-autoscaler.kubernetes.io/safe-to-evict", "false"),
        ])
    );
    assert_eq!(d.env, pairs(&[("CHALLENGE_NAMESPACE", "ns-1")]));
    assert_eq!(d.readiness_probe.as_deref(), Some("{\"tcpSocket\":{\"port\":80}}"));
    let mut c = container();
    c.runtime_class_name = Some("runc".to_string());
    let d = build_deployment(&instance(true, None), &challenge(), &c, "ns-1", &class(None, Some("gvisor")), vec![]);
    assert_eq!(d.runtime_class_name.as_deref(), Some("runc"));
}

#[test]
fn pdb_forbids_disruption_of_the_container() {
    let p = build_pdb(&instance(true, None), &challenge(), &container(), "ns-1");
    assert_eq!(p.name, "web-pdb");
    assert_eq!(p.max_unavailable, 0);
    assert_eq!(p.selector, pairs(&[("berg.norelect.ch/container", "web")]));
}

#[test]
fn decimal_text_writes_numbers() {
    assert_eq!(decimal_text(0), "0");
    assert_eq!(decimal_text(53), "53");
    assert_eq!(decimal_text(65535), "65535");
    assert_eq!(decimal_text(u64::MAX), u64::MAX.to_string());
}

#[test]
fn lookups_fall_back_to_defaults_and_name_what_is_missing() {
    let e = challenge_not_found(&instance(true, None), &config());
    assert!(matches!(&e, Error::ChallengeNotFound { namespace, name } if namespace == "berg" && name == "web-chall"));
    let e = class_not_found(&instance(true, Some("gold")), &config());
    assert!(matches!(&e, Error::InstanceClassNotFound { name } if name == "gold"));
    let e = class_not_found(&instance(true, None), &config());
    assert!(matches!(&e, Error::InstanceClassNotFound { name } if name == "default"));
}

#[test]
fn error_policy_backs_off_for_errors_a_retry_will_not_cure() {
    assert_eq!(error_policy(&Error::KubeError("timeout".to_string())), Action::Requeue { seconds: 10 });
    let e = Error::ResourceCreationError { resource_type: "Service".to_string(), reason: "conflict".to_string() };
    assert!(e.is_retryable());
    assert_eq!(error_policy(&e), Action::Requeue { seconds: 10 });
    for e in [
        Error::SerializationError("bad".to_string()),
        Error::FlagValidationError("missing".to_string()),
        Error::TimeoutParseError("2x".to_string()),
        Error::FlagGenerationError("long".to_string()),
        Error::ConfigError("env".to_string()),
        Error::FinalizerError("stuck".to_string()),
        Error::InstanceClassNotFound { name: "x".to_string() },
    ] {
        assert!(!e.is_retryable());
        assert_eq!(error_policy(&e), Action::Requeue { seconds: 300 });
    }
}
