//! The `NervixCluster` custom resource: its spec, status and defaults.
use vstd::prelude::*;
use vstd::string::*;

use crate::objects::{
    empty_meta, name_any_of, ObjectMeta, ObjectMetaView, OwnerReference, OwnerReferenceView,
};
use crate::text::clone_opt;

verus! {

/// How far the one-time initialization of the `default` user has come.
#[derive(Clone, Copy, Debug, PartialEq, Eq, Structural)]
pub enum NervixClusterInitializationPhase {
    Initializing,
    RemovingCredentials,
    Initialized,
}

/// The desired state of a Nervix cluster: the `spec` of a `NervixCluster` resource.
#[derive(Clone, Debug, PartialEq)]
pub struct NervixClusterSpec {
    pub image: String,
    pub replicas: i32,
    pub cluster_id: Option<String>,
    pub initial_default_user_password_secret_ref: Option<SecretKeyRef>,
    pub storage: String,
    pub log_filter: Option<String>,
    pub local_access: Option<LocalAccessSpec>,
    pub resources: ResourceSpec,
}

/// The mathematical value of [`NervixClusterSpec`].
pub struct NervixClusterSpecView {
    pub image: Seq<char>,
    pub replicas: i32,
    pub cluster_id: Option<Seq<char>>,
    pub initial_default_user_password_secret_ref: Option<SecretKeyRefView>,
    pub storage: Seq<char>,
    pub log_filter: Option<Seq<char>>,
    pub local_access: Option<LocalAccessSpecView>,
    pub resources: ResourceSpecView,
}

impl DeepView for NervixClusterSpec {
    type V = NervixClusterSpecView;

    open spec fn deep_view(&self) -> NervixClusterSpecView {
        NervixClusterSpecView {
            image: self.image@,
            replicas: self.replicas,
            cluster_id: self.cluster_id.deep_view(),
            initial_default_user_password_secret_ref: self.initial_default_user_password_secret_ref.deep_view(),
            storage: self.storage@,
            log_filter: self.log_filter.deep_view(),
            local_access: self.local_access.deep_view(),
            resources: self.resources.deep_view(),
        }
    }
}

/// A key of a Secret in the cluster's namespace, holding the initial password.
#[derive(Clone, Debug, PartialEq)]
pub struct SecretKeyRef {
    pub name: String,
    pub key: String,
}

/// The mathematical value of [`SecretKeyRef`].
pub struct SecretKeyRefView {
    pub name: Seq<char>,
    pub key: Seq<char>,
}

impl DeepView for SecretKeyRef {
    type V = SecretKeyRefView;

    open spec fn deep_view(&self) -> SecretKeyRefView {
        SecretKeyRefView {
            name: self.name@,
            key: self.key@,
        }
    }
}

/// NodePorts for reaching the cluster from the nodes' own addresses.
#[derive(Clone, Copy, Debug, PartialEq)]
pub struct LocalAccessSpec {
    pub enabled: bool,
    pub bootstrap_grpc_node_port: i32,
    pub bootstrap_web_console_node_port: i32,
    pub bootstrap_observability_node_port: i32,
    pub first_node_grpc_node_port: i32,
    pub first_node_web_console_node_port: i32,
    pub first_node_observability_node_port: i32,
}

/// The mathematical value of [`LocalAccessSpec`].
pub struct LocalAccessSpecView {
    pub enabled: bool,
    pub bootstrap_grpc_node_port: i32,
    pub bootstrap_web_console_node_port: i32,
    pub bootstrap_observability_node_port: i32,
    pub first_node_grpc_node_port: i32,
    pub first_node_web_console_node_port: i32,
    pub first_node_observability_node_port: i32,
}

impl DeepView for LocalAccessSpec {
    type V = LocalAccessSpecView;

    open spec fn deep_view(&self) -> LocalAccessSpecView {
        LocalAccessSpecView {
            enabled: self.enabled,
            bootstrap_grpc_node_port: self.bootstrap_grpc_node_port,
            bootstrap_web_console_node_port: self.bootstrap_web_console_node_port,
            bootstrap_observability_node_port: self.bootstrap_observability_node_port,
            first_node_grpc_node_port: self.first_node_grpc_node_port,
            first_node_web_console_node_port: self.first_node_web_console_node_port,
            first_node_observability_node_port: self.first_node_observability_node_port,
        }
    }
}

/// CPU and memory requests and the memory limit of each Nervix container.
#[derive(Clone, Debug, PartialEq)]
pub struct ResourceSpec {
    pub cpu_request: String,
    pub memory_request: String,
    pub memory_limit: String,
}

/// The mathematical value of [`ResourceSpec`].
pub struct ResourceSpecView {
    pub cpu_request: Seq<char>,
    pub memory_request: Seq<char>,
    pub memory_limit: Seq<char>,
}

impl DeepView for ResourceSpec {
    type V = ResourceSpecView;

    open spec fn deep_view(&self) -> ResourceSpecView {
        ResourceSpecView {
            cpu_request: self.cpu_request@,
            memory_request: self.memory_request@,
            memory_limit: self.memory_limit@,
        }
    }
}

/// The observed state that the operator reports on a `NervixCluster`.
#[derive(Clone, Debug, PartialEq, Default)]
pub struct NervixClusterStatus {
    pub observed_generation: Option<i64>,
    pub initialization_phase: Option<NervixClusterInitializationPhase>,
    pub ready_replicas: i32,
    pub replicas: i32,
    pub nodes: Vec<NervixNodeStatus>,
}

/// The mathematical value of [`NervixClusterStatus`].
pub struct NervixClusterStatusView {
    pub observed_generation: Option<i64>,
    pub initialization_phase: Option<NervixClusterInitializationPhase>,
    pub ready_replicas: i32,
    pub replicas: i32,
    pub nodes: Seq<NervixNodeStatusView>,
}

impl DeepView for NervixClusterStatus {
    type V = NervixClusterStatusView;

    open spec fn deep_view(&self) -> NervixClusterStatusView {
        NervixClusterStatusView {
            observed_generation: self.observed_generation,
            initialization_phase: self.initialization_phase,
            ready_replicas: self.ready_replicas,
            replicas: self.replicas,
            nodes: self.nodes.deep_view(),
        }
    }
}

/// The name and advertised addresses of one Nervix node.
#[derive(Clone, Debug, PartialEq)]
pub struct NervixNodeStatus {
    pub name: String,
    pub ordinal: i32,
    pub grpc_advertise_address: String,
    pub web_console_advertise_address: String,
    pub cluster_advertise_address: String,
    pub cluster_api_advertise_address: String,
    pub interconnect_advertise_address: String,
}

/// The mathematical value of [`NervixNodeStatus`].
pub struct NervixNodeStatusView {
    pub name: Seq<char>,
    pub ordinal: i32,
    pub grpc_advertise_address: Seq<char>,
    pub web_console_advertise_address: Seq<char>,
    pub cluster_advertise_address: Seq<char>,
    pub cluster_api_advertise_address: Seq<char>,
    pub interconnect_advertise_address: Seq<char>,
}

impl DeepView for NervixNodeStatus {
    type V = NervixNodeStatusView;

    open spec fn deep_view(&self) -> NervixNodeStatusView {
        NervixNodeStatusView {
            name: self.name@,
            ordinal: self.ordinal,
            grpc_advertise_address: self.grpc_advertise_address@,
            web_console_advertise_address: self.web_console_advertise_address@,
            cluster_advertise_address: self.cluster_advertise_address@,
            cluster_api_advertise_address: self.cluster_api_advertise_address@,
            interconnect_advertise_address: self.interconnect_advertise_address@,
        }
    }
}

/// A `NervixCluster` resource: metadata, desired spec and last reported status.
#[derive(Clone, Debug, PartialEq)]
pub struct NervixCluster {
    pub metadata: ObjectMeta,
    pub spec: NervixClusterSpec,
    pub status: Option<NervixClusterStatus>,
}

/// The mathematical value of [`NervixCluster`].
pub struct NervixClusterView {
    pub metadata: ObjectMetaView,
    pub spec: NervixClusterSpecView,
    pub status: Option<NervixClusterStatusView>,
}

impl DeepView for NervixCluster {
    type V = NervixClusterView;

    open spec fn deep_view(&self) -> NervixClusterView {
        NervixClusterView {
            metadata: self.metadata.deep_view(),
            spec: self.spec.deep_view(),
            status: self.status.deep_view(),
        }
    }
}


/// The replica count, raised to at least one.
pub open spec fn normalized_replicas_of(spec: NervixClusterSpecView) -> i32 {
    if spec.replicas < 1 {
        1
    } else {
        spec.replicas
    }
}

/// The configured cluster id, else the given resource name.
pub open spec fn resolved_cluster_id_of(spec: NervixClusterSpecView, name: Seq<char>) -> Seq<char> {
    match spec.cluster_id {
        Some(id) => id,
        None => name,
    }
}

/// The owner reference that marks a child as controlled by the cluster: present
/// exactly when the cluster has both a name and a uid.
pub open spec fn controller_owner_ref_of(meta: ObjectMetaView) -> Option<OwnerReferenceView> {
    match (meta.name, meta.uid) {
        (Some(name), Some(uid)) => Some(
            OwnerReferenceView {
                api_version: "nervix.io/v1alpha1"@,
                kind: "NervixCluster"@,
                name: name,
                uid: uid,
                controller: Some(true),
            },
        ),
        _ => None,
    }
}

/// The resource requirements used when a cluster names none.
pub open spec fn default_resources() -> ResourceSpecView {
    ResourceSpecView {
        cpu_request: "250m"@,
        memory_request: "512Mi"@,
        memory_limit: "2Gi"@,
    }
}

impl NervixClusterSpec {
    /// The number of Nervix nodes to run: `replicas`, but at least one.
    pub fn normalized_replicas(&self) -> (replicas: i32)
        ensures
            replicas == normalized_replicas_of(self.deep_view()),
            replicas >= 1,
            self.replicas >= 1 ==> replicas == self.replicas,
    {
        if self.replicas < 1 {
            1
        } else {
            self.replicas
        }
    }

    /// The cluster id: the configured one, else `name`.
    pub fn resolved_cluster_id(&self, name: &str) -> (id: String)
        ensures
            id@ == resolved_cluster_id_of(self.deep_view(), name@),
    {
        match &self.cluster_id {
            Some(id) => id.clone(),
            None => String::from_str(name),
        }
    }
}

impl Default for ResourceSpec {
    fn default() -> (resources: Self)
        ensures
            resources.deep_view() == default_resources(),
    {
        ResourceSpec {
            cpu_request: default_cpu_request(),
            memory_request: default_memory_request(),
            memory_limit: default_memory_limit(),
        }
    }
}

impl NervixCluster {
    /// A cluster resource with the given name and spec, and no status.
    pub fn new(name: &str, spec: NervixClusterSpec) -> (cluster: Self)
        ensures
            cluster.deep_view() == (NervixClusterView {
                metadata: ObjectMetaView { name: Some(name@), ..empty_meta() },
                spec: spec.deep_view(),
                status: None,
            }),
    {
        NervixCluster {
            metadata: ObjectMeta {
                name: Some(String::from_str(name)),
                generate_name: None,
                namespace: None,
                uid: None,
                generation: None,
                labels: None,
                owner_references: None,
            },
            spec,
            status: None,
        }
    }

    /// The cluster's name, as `ResourceExt::name_any` gives it.
    pub fn name_any(&self) -> (name: String)
        ensures
            name@ == name_any_of(self.deep_view().metadata),
    {
        self.metadata.name_any()
    }

    /// The cluster's namespace, if it has one.
    pub fn namespace(&self) -> (namespace: Option<String>)
        ensures
            namespace.deep_view() == self.deep_view().metadata.namespace,
    {
        clone_opt(&self.metadata.namespace)
    }

    /// The owner reference that children of this cluster carry, as
    /// `Resource::controller_owner_ref` builds it.
    pub fn controller_owner_ref(&self) -> (owner: Option<OwnerReference>)
        ensures
            owner.deep_view() == controller_owner_ref_of(self.deep_view().metadata),
    {
        match (&self.metadata.name, &self.metadata.uid) {
            (Some(name), Some(uid)) => Some(
                OwnerReference {
                    api_version: String::from_str("nervix.io/v1alpha1"),
                    kind: String::from_str("NervixCluster"),
                    name: name.clone(),
                    uid: uid.clone(),
                    controller: Some(true),
                },
            ),
            _ => None,
        }
    }
}

/// The replica count of a spec that names none.
pub fn default_replicas() -> (replicas: i32)
    ensures
        replicas == 3,
{
    3
}

/// Local access is enabled unless it says otherwise.
pub fn default_true() -> (enabled: bool)
    ensures
        enabled,
{
    true
}

/// The storage size of each node's volume when the spec names none.
pub fn default_storage() -> (storage: String)
    ensures
        storage@ == "5Gi"@,
{
    String::from_str("5Gi")
}

/// The CPU request when the spec names none.
pub fn default_cpu_request() -> (request: String)
    ensures
        request@ == "250m"@,
{
    String::from_str("250m")
}

/// The memory request when the spec names none.
pub fn default_memory_request() -> (request: String)
    ensures
        request@ == "512Mi"@,
{
    String::from_str("512Mi")
}

/// The memory limit when the spec names none.
pub fn default_memory_limit() -> (limit: String)
    ensures
        limit@ == "2Gi"@,
{
    String::from_str("2Gi")
}

/// The bootstrap service's gRPC NodePort when the spec names none.
pub fn default_bootstrap_grpc_node_port() -> (port: i32)
    ensures
        port == 31390,
{
    31390
}

/// The bootstrap service's web-console NodePort when the spec names none.
pub fn default_bootstrap_web_console_node_port() -> (port: i32)
    ensures
        port == 31420,
{
    31420
}

/// The bootstrap service's observability NodePort when the spec names none.
pub fn default_bootstrap_observability_node_port() -> (port: i32)
    ensures
        port == 31090,
{
    31090
}

/// The first node's gRPC NodePort when the spec names none.
pub fn default_first_node_grpc_node_port() -> (port: i32)
    ensures
        port == 31391,
{
    31391
}

/// The first node's web-console NodePort when the spec names none.
pub fn default_first_node_web_console_node_port() -> (port: i32)
    ensures
        port == 31421,
{
    31421
}

/// The first node's observability NodePort when the spec names none.
pub fn default_first_node_observability_node_port() -> (port: i32)
    ensures
        port == 31091,
{
    31091
}

} // verus!
