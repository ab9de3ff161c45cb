//! The resources that authors and the platform frontend write: challenges,
//! instance classes and challenge instances, with the status the controller
//! keeps on each instance.
use vstd::prelude::*;

verus! {

/// How a challenge derives per-instance flags from its base flag.
#[derive(PartialEq, Eq, Structural, Clone, Copy, Debug)]
pub enum DynamicFlagMode {
    Suffix,
    Leetify,
}

/// How a container port is reached.
#[derive(PartialEq, Eq, Structural, Clone, Copy, Debug)]
pub enum PortType {
    /// Inside the cluster only.
    InternalPort,
    /// Also on a node port.
    PublicPort,
    /// Through an HTTP route of the gateway.
    PublicHttpRoute,
    /// Through a TLS route of the gateway, by SNI.
    PublicTlsRoute,
}

/// One port of a challenge container.
#[derive(Clone, Debug)]
pub struct PortSpec {
    pub name: Option<String>,
    pub port: u16,
    /// `tcp` or `udp`.
    pub protocol: String,
    pub app_protocol: Option<String>,
    pub port_type: PortType,
}

/// Delivers the flag in an environment variable.
#[derive(Clone, Debug)]
pub struct EnvFlag {
    pub name: String,
}

/// Delivers the flag in a read-only file.
#[derive(Clone, Debug)]
pub struct ContentFlag {
    pub path: String,
    pub mode: Option<u32>,
}

/// Delivers the flag through an executable that prints it.
#[derive(Clone, Debug)]
pub struct ExecutableFlag {
    pub path: String,
    pub mode: Option<u32>,
}

/// The ways a container receives the instance's flag; any of them may be set.
#[derive(Clone, Debug)]
pub struct DynamicFlag {
    pub env: Option<EnvFlag>,
    pub content: Option<ContentFlag>,
    pub executable: Option<ExecutableFlag>,
}

/// CPU and memory quantities, as the platform writes them (`100m`, `128Mi`).
#[derive(Clone, Debug)]
pub struct ResourceSpec {
    pub cpu: Option<String>,
    pub memory: Option<String>,
}

/// One container of a challenge.
#[derive(Clone, Debug)]
pub struct ContainerSpec {
    /// Names the container's services and workload; unique within a challenge.
    pub hostname: String,
    pub image: String,
    /// Environment variables, in order.
    pub environment: Vec<(String, String)>,
    pub ports: Vec<PortSpec>,
    pub dynamic_flag: Option<DynamicFlag>,
    pub resource_requests: Option<ResourceSpec>,
    pub resource_limits: Option<ResourceSpec>,
    pub additional_capabilities: Vec<String>,
    pub runtime_class_name: Option<String>,
    /// Readiness probe, as JSON text passed through unread.
    pub readiness_probe: Option<String>,
    /// Liveness probe, as JSON text passed through unread.
    pub liveness_probe: Option<String>,
    pub egress_bandwidth: Option<String>,
    pub ingress_bandwidth: Option<String>,
}

/// A file that players may download.
#[derive(Clone, Debug)]
pub struct AttachmentSpec {
    pub file_name: String,
    pub download_url: Option<String>,
    pub download_image: Option<String>,
    pub download_image_pull_secret: Option<String>,
    pub download_image_insecure: Option<bool>,
}

/// What an author writes about a challenge.
#[derive(Clone, Debug)]
pub struct ChallengeSpec {
    pub display_name: Option<String>,
    pub author: String,
    pub description: String,
    pub flag: String,
    pub flag_format: String,
    pub dynamic_flag_mode: Option<DynamicFlagMode>,
    pub hide_until: Option<String>,
    pub difficulty: String,
    pub categories: Vec<String>,
    pub tags: Vec<String>,
    pub event: Option<String>,
    pub allow_outbound_traffic: bool,
    pub containers: Vec<ContainerSpec>,
    pub attachments: Vec<AttachmentSpec>,
}

/// A challenge template, as found in its namespace.
#[derive(Clone, Debug)]
pub struct Challenge {
    pub name: String,
    pub namespace: Option<String>,
    pub spec: ChallengeSpec,
}

/// The gateway that routes players to instances.
#[derive(Clone, Debug)]
pub struct GatewayConfig {
    pub name: String,
    pub namespace: String,
    pub http_listener_name: String,
    pub tls_listener_name: String,
    /// Domain under which instances are published.
    pub domain: String,
    pub http_port: u16,
    pub tls_port: u16,
}

/// Resource quantities used where a container names none.
#[derive(Clone, Debug)]
pub struct ResourceDefaults {
    pub cpu_request: Option<String>,
    pub cpu_limit: Option<String>,
    pub memory_request: Option<String>,
    pub memory_limit: Option<String>,
}

/// Network settings of a class.
#[derive(Clone, Debug)]
pub struct NetworkConfig {
    pub egress_bandwidth: Option<String>,
    pub ingress_bandwidth: Option<String>,
    pub additional_headless_service: bool,
}

/// How images are pulled.
#[derive(Clone, Debug)]
pub struct ImagePullConfig {
    /// `Always`, `IfNotPresent` or `Never`.
    pub policy: String,
    /// Pull secrets copied from the controller's namespace into each instance.
    pub secret_names: Vec<String>,
}

/// Pod security context settings.
#[derive(Clone, Debug)]
pub struct PodSecurityContextConfig {
    pub run_as_non_root: Option<bool>,
    pub fs_group: Option<i64>,
    pub supplemental_groups: Option<Vec<i64>>,
}

/// Security and runtime settings of a class.
#[derive(Clone, Debug)]
pub struct SecurityConfig {
    pub runtime_class_name: Option<String>,
    pub pod_security_context: Option<PodSecurityContextConfig>,
}

/// A tier of instances: gateway, defaults and pull configuration.
#[derive(Clone, Debug)]
pub struct ChallengeInstanceClassSpec {
    pub gateway: GatewayConfig,
    pub default_resources: Option<ResourceDefaults>,
    pub network: Option<NetworkConfig>,
    pub image_pull: Option<ImagePullConfig>,
    pub security: Option<SecurityConfig>,
    pub default: bool,
    pub default_timeout: Option<String>,
    pub challenge_namespace: String,
}

/// A named instance class.
#[derive(Clone, Debug)]
pub struct ChallengeInstanceClass {
    pub name: String,
    pub spec: ChallengeInstanceClassSpec,
}

/// Names a challenge, in its namespace or in the controller's default one.
#[derive(Clone, Debug)]
pub struct ChallengeRef {
    pub name: String,
    pub namespace: Option<String>,
}

/// Why an instance ended.
#[derive(PartialEq, Eq, Structural, Clone, Copy, Debug)]
pub enum TerminationReason {
    UserRequest,
    Timeout,
    AdminTermination,
}

/// What the frontend asks for.
#[derive(Clone, Debug)]
pub struct ChallengeInstanceSpec {
    pub challenge_ref: ChallengeRef,
    /// Lowercase UUID of the player or team.
    pub owner_id: String,
    /// The flag, computed in advance.
    pub flag: String,
    pub instance_class: Option<String>,
    /// Lifetime in the grammar of the timeout parser.
    pub timeout: Option<String>,
    pub termination_reason: Option<TerminationReason>,
}

/// The lifecycle phase of an instance.
#[derive(PartialEq, Eq, Structural, Clone, Copy, Debug)]
pub enum Phase {
    Pending,
    Creating,
    Starting,
    Running,
    Terminating,
    Terminated,
    Failed,
}

/// One address at which players reach an instance.
#[derive(Clone, Debug)]
pub struct ServiceEndpoint {
    pub name: String,
    pub hostname: String,
    pub port: u16,
    pub protocol: String,
    pub app_protocol: Option<String>,
    pub tls: Option<bool>,
}

/// The truth value of a condition.
#[derive(PartialEq, Eq, Structural, Clone, Copy, Debug)]
pub enum ConditionStatus {
    True,
    False,
    Unknown,
}

/// A typed observation on an instance.
#[derive(Clone, Debug)]
pub struct Condition {
    pub condition_type: String,
    pub status: ConditionStatus,
    pub last_transition_time: Option<String>,
    pub reason: Option<String>,
    pub message: Option<String>,
}

/// What the controller records on an instance.
#[derive(Clone, Debug)]
pub struct ChallengeInstanceStatus {
    pub instance_id: Option<String>,
    pub phase: Option<Phase>,
    pub namespace: Option<String>,
    pub services: Vec<ServiceEndpoint>,
    /// RFC 3339 texts.
    pub started_at: Option<String>,
    pub ready_at: Option<String>,
    pub terminated_at: Option<String>,
    pub expires_at: Option<String>,
    pub conditions: Vec<Condition>,
    pub observed_generation: Option<i64>,
}

/// A challenge instance as the controller sees it.
#[derive(Clone, Debug)]
pub struct ChallengeInstance {
    pub name: String,
    pub generation: Option<i64>,
    /// Whether deletion of the instance has been requested.
    pub deletion_requested: bool,
    pub finalizers: Vec<String>,
    pub spec: ChallengeInstanceSpec,
    pub status: Option<ChallengeInstanceStatus>,
}

/// Settings of the controller process.
#[derive(Clone, Debug)]
pub struct ControllerConfig {
    /// Class used when an instance names none.
    pub default_instance_class: String,
    /// Namespace of challenges whose reference names none.
    pub challenge_namespace: String,
    /// Timeout used when neither the instance nor its class gives one.
    pub default_timeout: String,
    /// First part of every instance namespace name.
    pub namespace_prefix: String,
}

impl ChallengeInstanceStatus {
    /// A status with nothing recorded yet.
    pub fn empty() -> (r: Self)
        ensures
            r.instance_id is None,
            r.phase is None,
            r.namespace is None,
            r.services@.len() == 0,
            r.started_at is None,
            r.ready_at is None,
            r.terminated_at is None,
            r.expires_at is None,
            r.conditions@.len() == 0,
            r.observed_generation is None,
    {
        ChallengeInstanceStatus {
            instance_id: None,
            phase: None,
            namespace: None,
            services: Vec::new(),
            started_at: None,
            ready_at: None,
            terminated_at: None,
            expires_at: None,
            conditions: Vec::new(),
            observed_generation: None,
        }
    }
}

impl ChallengeSpec {
    /// Whether some container asks for a dynamic flag.
    pub open spec fn needs_flag(&self) -> bool {
        exists|i: int| 0 <= i < self.containers@.len() && #[trigger] self.containers@[i].dynamic_flag is Some
    }

    /// Determines whether some container asks for a dynamic flag.
    pub fn supports_dynamic_flags(&self) -> (r: bool)
        ensures
            r == self.needs_flag(),
    {
        let mut i: usize = 0;
        while i < self.containers.len()
            invariant
                i <= self.containers@.len(),
                forall|j: int| 0 <= j < i ==> #[trigger] self.containers@[j].dynamic_flag is None,
            decreases self.containers@.len() - i,
        {
            if self.containers[i].dynamic_flag.is_some() {
                return true;
            }
            i += 1;
        }
        false
    }
}

} // verus!
