//! The Kubernetes objects that make up a Nervix cluster, built from its
//! resource, and the status that the operator reports.
use vstd::prelude::*;
use vstd::string::*;

use crate::api::{
    controller_owner_ref_of, normalized_replicas_of, resolved_cluster_id_of, LocalAccessSpec,
    LocalAccessSpecView, NervixCluster, NervixClusterInitializationPhase, NervixClusterSpecView,
    NervixClusterStatus, NervixClusterStatusView, NervixClusterView, NervixNodeStatus,
    NervixNodeStatusView, SecretKeyRef, SecretKeyRefView,
};
use crate::objects::{
    empty_meta, name_any_of, Container, ContainerPort, ContainerPortView, ContainerView, EnvVar,
    EnvVarSource, EnvVarSourceView, EnvVarView, ExecAction, ExecActionView, HttpGetAction,
    HttpGetActionView, LabelSelector, LabelSelectorView, ObjectFieldSelector,
    ObjectFieldSelectorView, ObjectMeta, ObjectMetaView, PersistentVolumeClaim,
    PersistentVolumeClaimSpec, PersistentVolumeClaimSpecView, PersistentVolumeClaimView,
    PodSecurityContext, PodSecurityContextView, PodSpec, PodSpecView, PodTemplateSpec,
    PodTemplateSpecView, Probe, ProbeView, ResourceRequirements, ResourceRequirementsView,
    SecretKeySelector, SecretKeySelectorView, SecurityContext, SecurityContextView, Service,
    ServicePort, ServicePortView, ServiceSpec, ServiceSpecView, ServiceView, StatefulSet,
    StatefulSetSpec, StatefulSetSpecView, StatefulSetView, VolumeMount, VolumeMountView,
    VolumeResourceRequirements, VolumeResourceRequirementsView,
};
use crate::text::{decimal, i32_to_decimal};

verus! {

pub const GRPC_PORT: i32 = 47391;

pub const GOSSIP_PORT: i32 = 47392;

pub const CLUSTER_API_PORT: i32 = 47393;

pub const INTERCONNECT_PORT: i32 = 47395;

pub const HTTP_PORT: i32 = 8080;

pub const HTTPS_PORT: i32 = 8443;

pub const OBSERVABILITY_PORT: i32 = 9090;

pub const WEB_CONSOLE_PORT: i32 = 47420;

/// Which StatefulSet the operator asks for: the one-pod set that holds the
/// initial password, the one-pod set without it, or the full set.
#[derive(Clone, Copy, Debug, PartialEq, Eq, Structural)]
pub enum StatefulSetMode {
    Initializing,
    RemovingCredentials,
    Running,
}

// ---------------------------------------------------------------- names

/// The cluster resource's name (`ResourceExt::name_any`).
pub open spec fn cluster_name(cluster: NervixClusterView) -> Seq<char> {
    name_any_of(cluster.metadata)
}

pub open spec fn headless_service_name_of(cluster: NervixClusterView) -> Seq<char> {
    cluster_name(cluster) + "-headless"@
}

pub open spec fn local_service_name_of(cluster: NervixClusterView) -> Seq<char> {
    cluster_name(cluster) + "-local"@
}

/// Node services are numbered from one, pods from zero.
pub open spec fn node_local_service_name_of(cluster: NervixClusterView, ordinal: int) -> Seq<char> {
    cluster_name(cluster) + "-local-node-"@ + decimal(ordinal + 1)
}

pub open spec fn pod_name_of(cluster: NervixClusterView, ordinal: int) -> Seq<char> {
    cluster_name(cluster) + "-"@ + decimal(ordinal)
}

/// The name of the headless service that gives each pod a DNS name.
pub fn headless_service_name(cluster: &NervixCluster) -> (name: String)
    ensures
        name@ == headless_service_name_of(cluster.deep_view()),
{
    cluster.name_any().concat("-headless")
}

/// The name of the shared NodePort service.
pub fn local_service_name(cluster: &NervixCluster) -> (name: String)
    ensures
        name@ == local_service_name_of(cluster.deep_view()),
{
    cluster.name_any().concat("-local")
}

/// The name of the NodePort service of the pod with the given ordinal.
pub fn node_local_service_name(cluster: &NervixCluster, ordinal: i32) -> (name: String)
    requires
        ordinal < i32::MAX,
    ensures
        name@ == node_local_service_name_of(cluster.deep_view(), ordinal as int),
{
    let number = i32_to_decimal(ordinal + 1);
    cluster.name_any().concat("-local-node-").concat(number.as_str())
}

/// The name of the StatefulSet pod with the given ordinal.
pub fn pod_name(cluster: &NervixCluster, ordinal: i32) -> (name: String)
    ensures
        name@ == pod_name_of(cluster.deep_view(), ordinal as int),
{
    let number = i32_to_decimal(ordinal);
    cluster.name_any().concat("-").concat(number.as_str())
}

// ---------------------------------------------------------------- labels and metadata

/// The labels that select the cluster's pods.
pub open spec fn selector_labels_of(cluster: NervixClusterView) -> Seq<(Seq<char>, Seq<char>)> {
    seq![
        ("app.kubernetes.io/name"@, "nervix"@),
        ("app.kubernetes.io/instance"@, cluster_name(cluster)),
    ]
}

/// The labels of the cluster's objects of one component.
pub open spec fn component_labels_of(cluster: NervixClusterView, component: Seq<char>) -> Seq<
    (Seq<char>, Seq<char>),
> {
    seq![
        ("app.kubernetes.io/name"@, "nervix"@),
        ("app.kubernetes.io/instance"@, cluster_name(cluster)),
        ("app.kubernetes.io/component"@, component),
        ("app.kubernetes.io/managed-by"@, "nervix-k8s-operator"@),
    ]
}

fn entry(key: &str, value: String) -> (pair: (String, String))
    ensures
        pair.deep_view() == (key@, value@),
{
    (String::from_str(key), value)
}

/// The labels that select the cluster's pods.
pub fn selector_labels(cluster: &NervixCluster) -> (labels: Vec<(String, String)>)
    ensures
        labels.deep_view() == selector_labels_of(cluster.deep_view()),
{
    let mut labels = Vec::new();
    labels.push(entry("app.kubernetes.io/name", String::from_str("nervix")));
    labels.push(entry("app.kubernetes.io/instance", cluster.name_any()));
    assert(labels.deep_view() =~= selector_labels_of(cluster.deep_view()));
    labels
}

/// The labels of the cluster's objects of one component.
pub fn component_labels(cluster: &NervixCluster, component: &str) -> (labels: Vec<
    (String, String),
>)
    ensures
        labels.deep_view() == component_labels_of(cluster.deep_view(), component@),
{
    let mut labels = Vec::new();
    labels.push(entry("app.kubernetes.io/name", String::from_str("nervix")));
    labels.push(entry("app.kubernetes.io/instance", cluster.name_any()));
    labels.push(entry("app.kubernetes.io/component", String::from_str(component)));
    labels.push(entry("app.kubernetes.io/managed-by", String::from_str("nervix-k8s-operator")));
    assert(labels.deep_view() =~= component_labels_of(cluster.deep_view(), component@));
    labels
}

/// Metadata of a child object: its name, the cluster's namespace, the labels,
/// and the cluster as controlling owner when the cluster has a name and a uid.
pub open spec fn child_metadata_of(
    cluster: NervixClusterView,
    name: Seq<char>,
    labels: Seq<(Seq<char>, Seq<char>)>,
) -> ObjectMetaView {
    ObjectMetaView {
        name: Some(name),
        namespace: cluster.metadata.namespace,
        labels: Some(labels),
        owner_references: match controller_owner_ref_of(cluster.metadata) {
            Some(owner) => Some(seq![owner]),
            None => None,
        },
        ..empty_meta()
    }
}

fn child_metadata(cluster: &NervixCluster, name: &str, labels: Vec<(String, String)>) -> (meta:
    ObjectMeta)
    ensures
        meta.deep_view() == child_metadata_of(cluster.deep_view(), name@, labels.deep_view()),
{
    let owner_references = match cluster.controller_owner_ref() {
        Some(owner) => {
            let mut owners = Vec::new();
            owners.push(owner);
            assert(owners.deep_view() =~= seq![owner.deep_view()]);
            Some(owners)
        },
        None => None,
    };
    ObjectMeta {
        name: Some(String::from_str(name)),
        generate_name: None,
        namespace: cluster.namespace(),
        uid: None,
        generation: None,
        labels: Some(labels),
        owner_references,
    }
}

// ---------------------------------------------------------------- service ports

/// A TCP service port that targets the container port of the same name.
pub open spec fn service_port_of(name: Seq<char>, port: i32) -> ServicePortView {
    ServicePortView {
        name: Some(name),
        port: port,
        target_port: Some(name),
        protocol: Some("TCP"@),
        node_port: None,
    }
}

/// A service port that is also exposed on every node at `node_port`.
pub open spec fn node_port_of(name: Seq<char>, port: i32, node_port: i32) -> ServicePortView {
    ServicePortView { node_port: Some(node_port), ..service_port_of(name, port) }
}

fn service_port(name: &str, port: i32) -> (service_port: ServicePort)
    ensures
        service_port.deep_view() == service_port_of(name@, port),
{
    ServicePort {
        name: Some(String::from_str(name)),
        port,
        target_port: Some(String::from_str(name)),
        protocol: Some(String::from_str("TCP")),
        node_port: None,
    }
}

impl ServicePort {
    /// The same port with another protocol.
    pub fn with_protocol(self, protocol: &str) -> (port: Self)
        ensures
            port.deep_view() == (ServicePortView {
                protocol: Some(protocol@),
                ..self.deep_view()
            }),
    {
        ServicePort { protocol: Some(String::from_str(protocol)), ..self }
    }
}

fn node_port(name: &str, port: i32, exposed: i32) -> (service_port: ServicePort)
    ensures
        service_port.deep_view() == node_port_of(name@, port, exposed),
{
    ServicePort { node_port: Some(exposed), ..service_port(name, port) }
}

// ---------------------------------------------------------------- services

/// The ports of the headless service: every Nervix port, gossip over UDP.
pub open spec fn headless_ports_of() -> Seq<ServicePortView> {
    seq![
        service_port_of("grpc"@, GRPC_PORT),
        ServicePortView { protocol: Some("UDP"@), ..service_port_of("gossip"@, GOSSIP_PORT) },
        service_port_of("cluster-api"@, CLUSTER_API_PORT),
        service_port_of("interconnect"@, INTERCONNECT_PORT),
        service_port_of("http"@, HTTP_PORT),
        service_port_of("https"@, HTTPS_PORT),
        service_port_of("web-console"@, WEB_CONSOLE_PORT),
        service_port_of("observability"@, OBSERVABILITY_PORT),
    ]
}

/// The ports of the in-cluster client service: every TCP Nervix port.
pub open spec fn cluster_ports_of() -> Seq<ServicePortView> {
    seq![
        service_port_of("grpc"@, GRPC_PORT),
        service_port_of("cluster-api"@, CLUSTER_API_PORT),
        service_port_of("interconnect"@, INTERCONNECT_PORT),
        service_port_of("http"@, HTTP_PORT),
        service_port_of("https"@, HTTPS_PORT),
        service_port_of("web-console"@, WEB_CONSOLE_PORT),
        service_port_of("observability"@, OBSERVABILITY_PORT),
    ]
}

pub open spec fn headless_service_of(cluster: NervixClusterView) -> ServiceView {
    ServiceView {
        metadata: child_metadata_of(
            cluster,
            headless_service_name_of(cluster),
            component_labels_of(cluster, "application"@),
        ),
        spec: Some(
            ServiceSpecView {
                type_: None,
                cluster_ip: Some("None"@),
                publish_not_ready_addresses: Some(true),
                selector: Some(selector_labels_of(cluster)),
                ports: Some(headless_ports_of()),
            },
        ),
    }
}

pub open spec fn cluster_service_of(cluster: NervixClusterView) -> ServiceView {
    ServiceView {
        metadata: child_metadata_of(
            cluster,
            cluster_name(cluster),
            component_labels_of(cluster, "application"@),
        ),
        spec: Some(
            ServiceSpecView {
                type_: Some("ClusterIP"@),
                cluster_ip: None,
                publish_not_ready_addresses: None,
                selector: Some(selector_labels_of(cluster)),
                ports: Some(cluster_ports_of()),
            },
        ),
    }
}

pub open spec fn bootstrap_local_service_of(
    cluster: NervixClusterView,
    access: LocalAccessSpecView,
) -> ServiceView {
    ServiceView {
        metadata: child_metadata_of(
            cluster,
            local_service_name_of(cluster),
            component_labels_of(cluster, "local-access"@),
        ),
        spec: Some(
            ServiceSpecView {
                type_: Some("NodePort"@),
                cluster_ip: None,
                publish_not_ready_addresses: None,
                selector: Some(selector_labels_of(cluster)),
                ports: Some(
                    seq![
                        node_port_of("grpc"@, GRPC_PORT, access.bootstrap_grpc_node_port),
                        node_port_of(
                            "web-console"@,
                            WEB_CONSOLE_PORT,
                            access.bootstrap_web_console_node_port,
                        ),
                        node_port_of(
                            "observability"@,
                            OBSERVABILITY_PORT,
                            access.bootstrap_observability_node_port,
                        ),
                    ],
                ),
            },
        ),
    }
}

/// Node ports of the pod with the given ordinal fit an `i32`: the first
/// node's ports shifted by the ordinal.
pub open spec fn node_ports_fit(access: LocalAccessSpecView, ordinal: int) -> bool {
    &&& i32::MIN <= access.first_node_grpc_node_port + ordinal <= i32::MAX
    &&& i32::MIN <= access.first_node_web_console_node_port + ordinal <= i32::MAX
    &&& i32::MIN <= access.first_node_observability_node_port + ordinal <= i32::MAX
}

pub open spec fn node_local_service_of(
    cluster: NervixClusterView,
    access: LocalAccessSpecView,
    ordinal: int,
) -> ServiceView {
    ServiceView {
        metadata: child_metadata_of(
            cluster,
            node_local_service_name_of(cluster, ordinal),
            component_labels_of(cluster, "local-access"@),
        ),
        spec: Some(
            ServiceSpecView {
                type_: Some("NodePort"@),
                cluster_ip: None,
                publish_not_ready_addresses: None,
                selector: Some(
                    seq![("statefulset.kubernetes.io/pod-name"@, pod_name_of(cluster, ordinal))],
                ),
                ports: Some(
                    seq![
                        node_port_of(
                            "grpc"@,
                            GRPC_PORT,
                            (access.first_node_grpc_node_port + ordinal) as i32,
                        ),
                        node_port_of(
                            "web-console"@,
                            WEB_CONSOLE_PORT,
                            (access.first_node_web_console_node_port + ordinal) as i32,
                        ),
                        node_port_of(
                            "observability"@,
                            OBSERVABILITY_PORT,
                            (access.first_node_observability_node_port + ordinal) as i32,
                        ),
                    ],
                ),
            },
        ),
    }
}

/// The headless service that gives every pod a stable DNS name, ready or not.
pub fn headless_service(cluster: &NervixCluster) -> (service: Service)
    ensures
        service.deep_view() == headless_service_of(cluster.deep_view()),
{
    let name = headless_service_name(cluster);
    let mut ports = Vec::new();
    ports.push(service_port("grpc", GRPC_PORT));
    ports.push(service_port("gossip", GOSSIP_PORT).with_protocol("UDP"));
    ports.push(service_port("cluster-api", CLUSTER_API_PORT));
    ports.push(service_port("interconnect", INTERCONNECT_PORT));
    ports.push(service_port("http", HTTP_PORT));
    ports.push(service_port("https", HTTPS_PORT));
    ports.push(service_port("web-console", WEB_CONSOLE_PORT));
    ports.push(service_port("observability", OBSERVABILITY_PORT));
    assert(ports.deep_view() =~= headless_ports_of());
    Service {
        metadata: child_metadata(cluster, name.as_str(), component_labels(cluster, "application")),
        spec: Some(
            ServiceSpec {
                type_: None,
                cluster_ip: Some(String::from_str("None")),
                publish_not_ready_addresses: Some(true),
                selector: Some(selector_labels(cluster)),
                ports: Some(ports),
            },
        ),
    }
}

/// The ClusterIP service through which in-cluster clients reach Nervix.
pub fn cluster_service(cluster: &NervixCluster) -> (service: Service)
    ensures
        service.deep_view() == cluster_service_of(cluster.deep_view()),
{
    let name = cluster.name_any();
    let mut ports = Vec::new();
    ports.push(service_port("grpc", GRPC_PORT));
    ports.push(service_port("cluster-api", CLUSTER_API_PORT));
    ports.push(service_port("interconnect", INTERCONNECT_PORT));
    ports.push(service_port("http", HTTP_PORT));
    ports.push(service_port("https", HTTPS_PORT));
    ports.push(service_port("web-console", WEB_CONSOLE_PORT));
    ports.push(service_port("observability", OBSERVABILITY_PORT));
    assert(ports.deep_view() =~= cluster_ports_of());
    Service {
        metadata: child_metadata(cluster, name.as_str(), component_labels(cluster, "application")),
        spec: Some(
            ServiceSpec {
                type_: Some(String::from_str("ClusterIP")),
                cluster_ip: None,
                publish_not_ready_addresses: None,
                selector: Some(selector_labels(cluster)),
                ports: Some(ports),
            },
        ),
    }
}

/// The shared NodePort service that reaches any pod from every node.
pub fn bootstrap_local_service(cluster: &NervixCluster, access: &LocalAccessSpec) -> (service:
    Service)
    ensures
        service.deep_view() == bootstrap_local_service_of(cluster.deep_view(), access.deep_view()),
{
    let name = local_service_name(cluster);
    let mut ports = Vec::new();
    ports.push(node_port("grpc", GRPC_PORT, access.bootstrap_grpc_node_port));
    ports.push(node_port("web-console", WEB_CONSOLE_PORT, access.bootstrap_web_console_node_port));
    ports.push(
        node_port("observability", OBSERVABILITY_PORT, access.bootstrap_observability_node_port),
    );
    assert(ports.deep_view() =~= bootstrap_local_service_of(
        cluster.deep_view(),
        access.deep_view(),
    ).spec.unwrap().ports.unwrap());
    Service {
        metadata: child_metadata(cluster, name.as_str(), component_labels(cluster, "local-access")),
        spec: Some(
            ServiceSpec {
                type_: Some(String::from_str("NodePort")),
                cluster_ip: None,
                publish_not_ready_addresses: None,
                selector: Some(selector_labels(cluster)),
                ports: Some(ports),
            },
        ),
    }
}

/// The NodePort service that reaches exactly the pod with the given ordinal,
/// on the first node's ports shifted by the ordinal.
pub fn node_local_service(cluster: &NervixCluster, access: &LocalAccessSpec, ordinal: i32) -> (service:
    Service)
    requires
        ordinal < i32::MAX,
        node_ports_fit(access.deep_view(), ordinal as int),
    ensures
        service.deep_view() == node_local_service_of(
            cluster.deep_view(),
            access.deep_view(),
            ordinal as int,
        ),
{
    let pod = pod_name(cluster, ordinal);
    let mut selector = Vec::new();
    selector.push(entry("statefulset.kubernetes.io/pod-name", pod));
    let name = node_local_service_name(cluster, ordinal);
    let mut ports = Vec::new();
    ports.push(node_port("grpc", GRPC_PORT, access.first_node_grpc_node_port + ordinal));
    ports.push(
        node_port("web-console", WEB_CONSOLE_PORT, access.first_node_web_console_node_port + ordinal),
    );
    ports.push(
        node_port(
            "observability",
            OBSERVABILITY_PORT,
            access.first_node_observability_node_port + ordinal,
        ),
    );
    let ghost expected = node_local_service_of(cluster.deep_view(), access.deep_view(), ordinal as int);
    assert(ports.deep_view() =~= expected.spec.unwrap().ports.unwrap());
    assert(selector.deep_view() =~= expected.spec.unwrap().selector.unwrap());
    Service {
        metadata: child_metadata(cluster, name.as_str(), component_labels(cluster, "local-access")),
        spec: Some(
            ServiceSpec {
                type_: Some(String::from_str("NodePort")),
                cluster_ip: None,
                publish_not_ready_addresses: None,
                selector: Some(selector),
                ports: Some(ports),
            },
        ),
    }
}

// ---------------------------------------------------------------- local access

/// The local-access settings, when local access is enabled.
pub open spec fn enabled_local_access_of(cluster: NervixClusterView) -> Option<LocalAccessSpecView> {
    match cluster.spec.local_access {
        Some(access) => if access.enabled {
            Some(access)
        } else {
            None
        },
        None => None,
    }
}

/// The local-access settings, when local access is enabled.
pub fn enabled_local_access(cluster: &NervixCluster) -> (access: Option<LocalAccessSpec>)
    ensures
        access.deep_view() == enabled_local_access_of(cluster.deep_view()),
{
    match cluster.spec.local_access {
        Some(access) => if access.enabled {
            Some(access)
        } else {
            None
        },
        None => None,
    }
}

/// `count` consecutive ports starting at `first` are all `i32` values.
pub open spec fn port_range_fits(first: int, count: int) -> bool {
    i32::MIN <= first && first + count - 1 <= i32::MAX
}

/// The per-node gRPC and web-console ports of all nodes fit an `i32`.
pub open spec fn advertised_ports_fit(cluster: NervixClusterView) -> bool {
    match enabled_local_access_of(cluster) {
        Some(access) => {
            let count = normalized_replicas_of(cluster.spec) as int;
            &&& port_range_fits(access.first_node_grpc_node_port as int, count)
            &&& port_range_fits(access.first_node_web_console_node_port as int, count)
        },
        None => true,
    }
}

/// All per-node NodePorts of all nodes fit an `i32`.
pub open spec fn node_services_fit(cluster: NervixClusterView) -> bool {
    match enabled_local_access_of(cluster) {
        Some(access) => {
            let count = normalized_replicas_of(cluster.spec) as int;
            &&& port_range_fits(access.first_node_grpc_node_port as int, count)
            &&& port_range_fits(access.first_node_web_console_node_port as int, count)
            &&& port_range_fits(access.first_node_observability_node_port as int, count)
        },
        None => true,
    }
}

// ---------------------------------------------------------------- startup script

/// The address that a node advertises for one protocol: with local access,
/// the node's IP and the first node's port shifted by the pod ordinal (computed
/// by the shell); otherwise the pod's DNS name and the fixed port.
pub open spec fn script_advertise_of(
    access: Option<LocalAccessSpecView>,
    first_port: int,
    fallback: Seq<char>,
) -> Seq<char> {
    match access {
        Some(_) => "\"${HOST_IP}:$(("@ + decimal(first_port) + " + ordinal))\""@,
        None => fallback,
    }
}

pub open spec fn script_grpc_advertise_of(cluster: NervixClusterView) -> Seq<char> {
    let access = enabled_local_access_of(cluster);
    script_advertise_of(
        access,
        match access {
            Some(a) => a.first_node_grpc_node_port as int,
            None => 0,
        },
        "\"${pod_fqdn}:47391\""@,
    )
}

pub open spec fn script_web_console_advertise_of(cluster: NervixClusterView) -> Seq<char> {
    let access = enabled_local_access_of(cluster);
    script_advertise_of(
        access,
        match access {
            Some(a) => a.first_node_web_console_node_port as int,
            None => 0,
        },
        "\"${pod_fqdn}:47420\""@,
    )
}

/// The shell script that each pod runs: it derives the node's identity from the
/// pod's ordinal, lets only pod 0 bootstrap a new cluster, and starts the server.
pub open spec fn startup_script_of(cluster: NervixClusterView) -> Seq<char> {
    let name = cluster_name(cluster);
    let headless = headless_service_name_of(cluster);
    "ordinal=\"${HOSTNAME##*-}\"\nnode_number=$((ordinal + 1))\nnode_id=\"node-${node_number}\"\npod_fqdn=\"${HOSTNAME}."@
        + headless
        + ".${POD_NAMESPACE}.svc.cluster.local\"\nif [ \"${ordinal}\" = \"0\" ]; then\n  bootstrap_args=\"--allow-bootstrap\"\nelse\n  bootstrap_args=\"--cluster-bootstrap-host "@
        + name + "-0."@ + headless
        + ".${POD_NAMESPACE}.svc.cluster.local:47392\"\nfi\n\nexec /usr/local/bin/nervix-server \\\n  --addr 0.0.0.0:47391 \\\n  --grpc-mode http \\\n  --grpc-advertise-addr "@
        + script_grpc_advertise_of(cluster)
        + " \\\n  --http-listen-addr 0.0.0.0:8080 \\\n  --https-listen-addr 0.0.0.0:8443 \\\n  --observability-listen-addr 0.0.0.0:9090 \\\n  --web-console-listen-addr 0.0.0.0:47420 \\\n  --web-console-advertise-addr "@
        + script_web_console_advertise_of(cluster) + " \\\n  --cluster-id "@
        + resolved_cluster_id_of(cluster.spec, name)
        + " \\\n  --node-id \"${node_id}\" \\\n  --cluster-listen-addr 0.0.0.0:47392 \\\n  --cluster-advertise-addr \"${pod_fqdn}:47392\" \\\n  --cluster-api-mode http \\\n  --cluster-api-listen-addr 0.0.0.0:47393 \\\n  --cluster-api-advertise-addr \"${pod_fqdn}:47393\" \\\n  --interconnect-mode http \\\n  --interconnect-listen-addr 0.0.0.0:47395 \\\n  --interconnect-advertise-addr \"${pod_fqdn}:47395\" \\\n  --replica-count "@
        + decimal(normalized_replicas_of(cluster.spec) as int)
        + " \\\n  --db-path /var/lib/nervix/db \\\n  ${bootstrap_args}\n"@
}

fn script_advertise(access: Option<LocalAccessSpec>, first_port: i32, fallback: &str) -> (address:
    String)
    ensures
        address@ == script_advertise_of(access.deep_view(), first_port as int, fallback@),
{
    match access {
        Some(_) => {
            let mut address = String::from_str("\"${HOST_IP}:$((");
            address.append(i32_to_decimal(first_port).as_str());
            address.append(" + ordinal))\"");
            address
        },
        None => String::from_str(fallback),
    }
}

/// The shell script that each pod runs (see [`startup_script_of`]).
pub fn startup_script(cluster: &NervixCluster) -> (script: String)
    ensures
        script@ == startup_script_of(cluster.deep_view()),
{
    let name = cluster.name_any();
    let cluster_id = cluster.spec.resolved_cluster_id(name.as_str());
    let replicas = cluster.spec.normalized_replicas();
    let headless = headless_service_name(cluster);
    let access = enabled_local_access(cluster);
    let grpc_advertise = script_advertise(
        access,
        match access {
            Some(a) => a.first_node_grpc_node_port,
            None => 0,
        },
        "\"${pod_fqdn}:47391\"",
    );
    let web_console_advertise = script_advertise(
        access,
        match access {
            Some(a) => a.first_node_web_console_node_port,
            None => 0,
        },
        "\"${pod_fqdn}:47420\"",
    );
    let mut script = String::from_str(
        "ordinal=\"${HOSTNAME##*-}\"\nnode_number=$((ordinal + 1))\nnode_id=\"node-${node_number}\"\npod_fqdn=\"${HOSTNAME}.",
    );
    script.append(headless.as_str());
    script.append(
        ".${POD_NAMESPACE}.svc.cluster.local\"\nif [ \"${ordinal}\" = \"0\" ]; then\n  bootstrap_args=\"--allow-bootstrap\"\nelse\n  bootstrap_args=\"--cluster-bootstrap-host ",
    );
    script.append(name.as_str());
    script.append("-0.");
    script.append(headless.as_str());
    script.append(
        ".${POD_NAMESPACE}.svc.cluster.local:47392\"\nfi\n\nexec /usr/local/bin/nervix-server \\\n  --addr 0.0.0.0:47391 \\\n  --grpc-mode http \\\n  --grpc-advertise-addr ",
    );
    script.append(grpc_advertise.as_str());
    script.append(
        " \\\n  --http-listen-addr 0.0.0.0:8080 \\\n  --https-listen-addr 0.0.0.0:8443 \\\n  --observability-listen-addr 0.0.0.0:9090 \\\n  --web-console-listen-addr 0.0.0.0:47420 \\\n  --web-console-advertise-addr ",
    );
    script.append(web_console_advertise.as_str());
    script.append(" \\\n  --cluster-id ");
    script.append(cluster_id.as_str());
    script.append(
        " \\\n  --node-id \"${node_id}\" \\\n  --cluster-listen-addr 0.0.0.0:47392 \\\n  --cluster-advertise-addr \"${pod_fqdn}:47392\" \\\n  --cluster-api-mode http \\\n  --cluster-api-listen-addr 0.0.0.0:47393 \\\n  --cluster-api-advertise-addr \"${pod_fqdn}:47393\" \\\n  --interconnect-mode http \\\n  --interconnect-listen-addr 0.0.0.0:47395 \\\n  --interconnect-advertise-addr \"${pod_fqdn}:47395\" \\\n  --replica-count ",
    );
    script.append(i32_to_decimal(replicas).as_str());
    script.append(" \\\n  --db-path /var/lib/nervix/db \\\n  ${bootstrap_args}\n");
    script
}

// ---------------------------------------------------------------- container parts

pub open spec fn container_port_of(name: Seq<char>, port: i32, protocol: Seq<char>) -> ContainerPortView {
    ContainerPortView { name: Some(name), container_port: port, protocol: Some(protocol) }
}

fn container_port(name: &str, port: i32, protocol: &str) -> (container_port: ContainerPort)
    ensures
        container_port.deep_view() == container_port_of(name@, port, protocol@),
{
    ContainerPort {
        name: Some(String::from_str(name)),
        container_port: port,
        protocol: Some(String::from_str(protocol)),
    }
}

/// An environment variable read from a field of the pod (Downward API).
pub open spec fn field_env_of(name: Seq<char>, field_path: Seq<char>) -> EnvVarView {
    EnvVarView {
        name: name,
        value: None,
        value_from: Some(
            EnvVarSourceView {
                field_ref: Some(
                    ObjectFieldSelectorView { api_version: Some("v1"@), field_path: field_path },
                ),
                secret_key_ref: None,
            },
        ),
    }
}

fn field_env(name: &str, field_path: &str) -> (env: EnvVar)
    ensures
        env.deep_view() == field_env_of(name@, field_path@),
{
    EnvVar {
        name: String::from_str(name),
        value: None,
        value_from: Some(
            EnvVarSource {
                field_ref: Some(
                    ObjectFieldSelector {
                        api_version: Some(String::from_str("v1")),
                        field_path: String::from_str(field_path),
                    },
                ),
                secret_key_ref: None,
            },
        ),
    }
}

/// An environment variable read from a key of a Secret that must exist.
pub open spec fn secret_env_of(name: Seq<char>, secret_ref: SecretKeyRefView) -> EnvVarView {
    EnvVarView {
        name: name,
        value: None,
        value_from: Some(
            EnvVarSourceView {
                field_ref: None,
                secret_key_ref: Some(
                    SecretKeySelectorView {
                        name: secret_ref.name,
                        key: secret_ref.key,
                        optional: Some(false),
                    },
                ),
            },
        ),
    }
}

fn secret_env(name: &str, secret_ref: &SecretKeyRef) -> (env: EnvVar)
    ensures
        env.deep_view() == secret_env_of(name@, secret_ref.deep_view()),
{
    EnvVar {
        name: String::from_str(name),
        value: None,
        value_from: Some(
            EnvVarSource {
                field_ref: None,
                secret_key_ref: Some(
                    SecretKeySelector {
                        name: secret_ref.name.clone(),
                        key: secret_ref.key.clone(),
                        optional: Some(false),
                    },
                ),
            },
        ),
    }
}

/// The command of the readiness probe used while initializing: it succeeds only
/// once the server accepts the initial password of the `default` user.
pub open spec fn initial_password_check_of() -> Seq<char> {
    "NERVIX_PASSWORD=\"${NERVIX_INIT_DEFAULT_USER_PASSWORD}\" exec /usr/local/bin/nervix-cli --server http://127.0.0.1:47391 --command 'SHOW CLUSTER STATUS;' >/dev/null"@
}

pub open spec fn initial_password_probe_of() -> ProbeView {
    ProbeView {
        exec_: Some(
            ExecActionView { command: Some(seq!["/bin/sh"@, "-ec"@, initial_password_check_of()]) },
        ),
        http_get: None,
        period_seconds: Some(5),
        failure_threshold: Some(24),
    }
}

fn initial_password_probe() -> (probe: Probe)
    ensures
        probe.deep_view() == initial_password_probe_of(),
{
    let mut command = Vec::new();
    command.push(String::from_str("/bin/sh"));
    command.push(String::from_str("-ec"));
    command.push(
        String::from_str(
            "NERVIX_PASSWORD=\"${NERVIX_INIT_DEFAULT_USER_PASSWORD}\" exec /usr/local/bin/nervix-cli --server http://127.0.0.1:47391 --command 'SHOW CLUSTER STATUS;' >/dev/null",
        ),
    );
    assert(command.deep_view() =~= seq!["/bin/sh"@, "-ec"@, initial_password_check_of()]);
    Probe {
        exec_: Some(ExecAction { command: Some(command) }),
        http_get: None,
        period_seconds: Some(5),
        failure_threshold: Some(24),
    }
}

/// An HTTP probe on the observability port.
pub open spec fn http_probe_of(path: Seq<char>, period_seconds: i32, failure_threshold: i32) -> ProbeView {
    ProbeView {
        exec_: None,
        http_get: Some(HttpGetActionView { path: Some(path), port: "observability"@ }),
        period_seconds: Some(period_seconds),
        failure_threshold: Some(failure_threshold),
    }
}

fn http_probe(path: &str, period_seconds: i32, failure_threshold: i32) -> (probe: Probe)
    ensures
        probe.deep_view() == http_probe_of(path@, period_seconds, failure_threshold),
{
    Probe {
        exec_: None,
        http_get: Some(
            HttpGetAction {
                path: Some(String::from_str(path)),
                port: String::from_str("observability"),
            },
        ),
        period_seconds: Some(period_seconds),
        failure_threshold: Some(failure_threshold),
    }
}

/// The name of the variable that hands the initial password to the server.
pub open spec fn initial_password_env_name() -> Seq<char> {
    "NERVIX_INIT_DEFAULT_USER_PASSWORD"@
}

/// The container's environment: namespace and node IP from the Downward API,
/// the log filter, and, only while initializing, the initial password.
pub open spec fn container_env_of(cluster: NervixClusterView, mode: StatefulSetMode) -> Seq<EnvVarView> {
    let base = seq![
        field_env_of("POD_NAMESPACE"@, "metadata.namespace"@),
        field_env_of("HOST_IP"@, "status.hostIP"@),
        EnvVarView {
            name: "RUST_LOG"@,
            value: Some(
                match cluster.spec.log_filter {
                    Some(filter) => filter,
                    None => "info,nervix=info"@,
                },
            ),
            value_from: None,
        },
    ];
    match (mode, cluster.spec.initial_default_user_password_secret_ref) {
        (StatefulSetMode::Initializing, Some(secret_ref)) => base.push(
            secret_env_of(initial_password_env_name(), secret_ref),
        ),
        _ => base,
    }
}

pub open spec fn container_ports_of() -> Seq<ContainerPortView> {
    seq![
        container_port_of("grpc"@, GRPC_PORT, "TCP"@),
        container_port_of("gossip"@, GOSSIP_PORT, "UDP"@),
        container_port_of("cluster-api"@, CLUSTER_API_PORT, "TCP"@),
        container_port_of("interconnect"@, INTERCONNECT_PORT, "TCP"@),
        container_port_of("http"@, HTTP_PORT, "TCP"@),
        container_port_of("https"@, HTTPS_PORT, "TCP"@),
        container_port_of("web-console"@, WEB_CONSOLE_PORT, "TCP"@),
        container_port_of("observability"@, OBSERVABILITY_PORT, "TCP"@),
    ]
}

/// The Nervix server container of every pod.
pub open spec fn container_of(cluster: NervixClusterView, mode: StatefulSetMode) -> ContainerView {
    let spec = cluster.spec;
    ContainerView {
        name: "nervix"@,
        image: Some(spec.image),
        image_pull_policy: Some("IfNotPresent"@),
        security_context: Some(
            SecurityContextView {
                allow_privilege_escalation: Some(false),
                run_as_group: Some(10001),
                run_as_non_root: Some(true),
                run_as_user: Some(10001),
            },
        ),
        command: Some(seq!["/bin/sh"@, "-ec"@, startup_script_of(cluster)]),
        env: Some(container_env_of(cluster, mode)),
        ports: Some(container_ports_of()),
        readiness_probe: Some(
            match mode {
                StatefulSetMode::Initializing => initial_password_probe_of(),
                _ => http_probe_of("/readyz"@, 5, 6),
            },
        ),
        liveness_probe: Some(http_probe_of("/livez"@, 10, 3)),
        startup_probe: Some(http_probe_of("/livez"@, 5, 24)),
        resources: Some(
            ResourceRequirementsView {
                requests: Some(
                    seq![
                        ("cpu"@, spec.resources.cpu_request),
                        ("memory"@, spec.resources.memory_request),
                    ],
                ),
                limits: Some(seq![("memory"@, spec.resources.memory_limit)]),
            },
        ),
        volume_mounts: Some(
            seq![VolumeMountView { name: "data"@, mount_path: "/var/lib/nervix"@ }],
        ),
    }
}

fn container_env(cluster: &NervixCluster, mode: StatefulSetMode) -> (env: Vec<EnvVar>)
    ensures
        env.deep_view() == container_env_of(cluster.deep_view(), mode),
{
    let spec = &cluster.spec;
    let mut env = Vec::new();
    env.push(field_env("POD_NAMESPACE", "metadata.namespace"));
    env.push(field_env("HOST_IP", "status.hostIP"));
    let log_filter = match &spec.log_filter {
        Some(filter) => filter.clone(),
        None => String::from_str("info,nervix=info"),
    };
    env.push(EnvVar { name: String::from_str("RUST_LOG"), value: Some(log_filter), value_from: None });
    let ghost base = env.deep_view();
    if mode == StatefulSetMode::Initializing {
        if let Some(secret_ref) = &spec.initial_default_user_password_secret_ref {
            env.push(secret_env("NERVIX_INIT_DEFAULT_USER_PASSWORD", secret_ref));
        }
    }
    assert(env.deep_view() =~= container_env_of(cluster.deep_view(), mode));
    env
}

fn container(cluster: &NervixCluster, mode: StatefulSetMode) -> (container: Container)
    ensures
        container.deep_view() == container_of(cluster.deep_view(), mode),
{
    let spec = &cluster.spec;
    let mut command = Vec::new();
    command.push(String::from_str("/bin/sh"));
    command.push(String::from_str("-ec"));
    command.push(startup_script(cluster));
    assert(command.deep_view() =~= seq!["/bin/sh"@, "-ec"@, startup_script_of(cluster.deep_view())]);
    let mut ports = Vec::new();
    ports.push(container_port("grpc", GRPC_PORT, "TCP"));
    ports.push(container_port("gossip", GOSSIP_PORT, "UDP"));
    ports.push(container_port("cluster-api", CLUSTER_API_PORT, "TCP"));
    ports.push(container_port("interconnect", INTERCONNECT_PORT, "TCP"));
    ports.push(container_port("http", HTTP_PORT, "TCP"));
    ports.push(container_port("https", HTTPS_PORT, "TCP"));
    ports.push(container_port("web-console", WEB_CONSOLE_PORT, "TCP"));
    ports.push(container_port("observability", OBSERVABILITY_PORT, "TCP"));
    assert(ports.deep_view() =~= container_ports_of());
    let readiness_probe = match mode {
        StatefulSetMode::Initializing => initial_password_probe(),
        _ => http_probe("/readyz", 5, 6),
    };
    let mut requests = Vec::new();
    requests.push(entry("cpu", spec.resources.cpu_request.clone()));
    requests.push(entry("memory", spec.resources.memory_request.clone()));
    let mut limits = Vec::new();
    limits.push(entry("memory", spec.resources.memory_limit.clone()));
    let mut volume_mounts = Vec::new();
    volume_mounts.push(
        VolumeMount {
            name: String::from_str("data"),
            mount_path: String::from_str("/var/lib/nervix"),
        },
    );
    let ghost expected = container_of(cluster.deep_view(), mode);
    assert(requests.deep_view() =~= expected.resources.unwrap().requests.unwrap());
    assert(limits.deep_view() =~= expected.resources.unwrap().limits.unwrap());
    assert(volume_mounts.deep_view() =~= expected.volume_mounts.unwrap());
    Container {
        name: String::from_str("nervix"),
        image: Some(spec.image.clone()),
        image_pull_policy: Some(String::from_str("IfNotPresent")),
        security_context: Some(
            SecurityContext {
                allow_privilege_escalation: Some(false),
                run_as_group: Some(10001),
                run_as_non_root: Some(true),
                run_as_user: Some(10001),
            },
        ),
        command: Some(command),
        env: Some(container_env(cluster, mode)),
        ports: Some(ports),
        readiness_probe: Some(readiness_probe),
        liveness_probe: Some(http_probe("/livez", 10, 3)),
        startup_probe: Some(http_probe("/livez", 5, 24)),
        resources: Some(ResourceRequirements { requests: Some(requests), limits: Some(limits) }),
        volume_mounts: Some(volume_mounts),
    }
}

// ---------------------------------------------------------------- stateful set

/// The pod count of the StatefulSet in a mode: one pod while the initial
/// password is set up or removed, the normalized replica count afterwards.
pub open spec fn mode_replicas(spec: NervixClusterSpecView, mode: StatefulSetMode) -> i32 {
    match mode {
        StatefulSetMode::Running => normalized_replicas_of(spec),
        _ => 1,
    }
}

/// The claim template of each pod's data volume.
pub open spec fn data_claim_of(cluster: NervixClusterView) -> PersistentVolumeClaimView {
    PersistentVolumeClaimView {
        metadata: ObjectMetaView {
            name: Some("data"@),
            labels: Some(component_labels_of(cluster, "application"@)),
            ..empty_meta()
        },
        spec: Some(
            PersistentVolumeClaimSpecView {
                access_modes: Some(seq!["ReadWriteOnce"@]),
                resources: Some(
                    VolumeResourceRequirementsView {
                        requests: Some(seq![("storage"@, cluster.spec.storage)]),
                    },
                ),
            },
        ),
    }
}

pub open spec fn stateful_set_of(cluster: NervixClusterView, mode: StatefulSetMode) -> StatefulSetView {
    let labels = component_labels_of(cluster, "application"@);
    StatefulSetView {
        metadata: child_metadata_of(cluster, cluster_name(cluster), labels),
        spec: Some(
            StatefulSetSpecView {
                service_name: Some(headless_service_name_of(cluster)),
                replicas: Some(mode_replicas(cluster.spec, mode)),
                pod_management_policy: Some("OrderedReady"@),
                selector: LabelSelectorView { match_labels: Some(selector_labels_of(cluster)) },
                template: PodTemplateSpecView {
                    metadata: Some(ObjectMetaView { labels: Some(labels), ..empty_meta() }),
                    spec: Some(
                        PodSpecView {
                            security_context: Some(
                                PodSecurityContextView {
                                    fs_group: Some(10001),
                                    fs_group_change_policy: Some("OnRootMismatch"@),
                                },
                            ),
                            termination_grace_period_seconds: Some(30),
                            containers: seq![container_of(cluster, mode)],
                        },
                    ),
                },
                volume_claim_templates: Some(seq![data_claim_of(cluster)]),
            },
        ),
        status: None,
    }
}

fn data_claim(cluster: &NervixCluster) -> (claim: PersistentVolumeClaim)
    ensures
        claim.deep_view() == data_claim_of(cluster.deep_view()),
{
    let mut access_modes = Vec::new();
    access_modes.push(String::from_str("ReadWriteOnce"));
    assert(access_modes.deep_view() =~= seq!["ReadWriteOnce"@]);
    let mut requests = Vec::new();
    requests.push(entry("storage", cluster.spec.storage.clone()));
    assert(requests.deep_view() =~= seq![("storage"@, cluster.deep_view().spec.storage)]);
    PersistentVolumeClaim {
        metadata: ObjectMeta {
            name: Some(String::from_str("data")),
            generate_name: None,
            namespace: None,
            uid: None,
            generation: None,
            labels: Some(component_labels(cluster, "application")),
            owner_references: None,
        },
        spec: Some(
            PersistentVolumeClaimSpec {
                access_modes: Some(access_modes),
                resources: Some(VolumeResourceRequirements { requests: Some(requests) }),
            },
        ),
    }
}

/// The StatefulSet of Nervix pods, one data volume per pod, in the given mode.
pub fn stateful_set(cluster: &NervixCluster, mode: StatefulSetMode) -> (stateful_set: StatefulSet)
    ensures
        stateful_set.deep_view() == stateful_set_of(cluster.deep_view(), mode),
{
    let name = cluster.name_any();
    let replicas = match mode {
        StatefulSetMode::Initializing | StatefulSetMode::RemovingCredentials => 1,
        StatefulSetMode::Running => cluster.spec.normalized_replicas(),
    };
    let mut containers = Vec::new();
    containers.push(container(cluster, mode));
    assert(containers.deep_view() =~= seq![container_of(cluster.deep_view(), mode)]);
    let mut claims = Vec::new();
    claims.push(data_claim(cluster));
    assert(claims.deep_view() =~= seq![data_claim_of(cluster.deep_view())]);
    StatefulSet {
        metadata: child_metadata(cluster, name.as_str(), component_labels(cluster, "application")),
        spec: Some(
            StatefulSetSpec {
                service_name: Some(headless_service_name(cluster)),
                replicas: Some(replicas),
                pod_management_policy: Some(String::from_str("OrderedReady")),
                selector: LabelSelector { match_labels: Some(selector_labels(cluster)) },
                template: PodTemplateSpec {
                    metadata: Some(
                        ObjectMeta {
                            name: None,
                            generate_name: None,
                            namespace: None,
                            uid: None,
                            generation: None,
                            labels: Some(component_labels(cluster, "application")),
                            owner_references: None,
                        },
                    ),
                    spec: Some(
                        PodSpec {
                            security_context: Some(
                                PodSecurityContext {
                                    fs_group: Some(10001),
                                    fs_group_change_policy: Some(String::from_str("OnRootMismatch")),
                                },
                            ),
                            termination_grace_period_seconds: Some(30),
                            containers,
                        },
                    ),
                },
                volume_claim_templates: Some(claims),
            },
        ),
        status: None,
    }
}

// ---------------------------------------------------------------- status

/// The cluster's namespace, `default` when it has none.
pub open spec fn namespace_or_default(cluster: NervixClusterView) -> Seq<char> {
    match cluster.metadata.namespace {
        Some(namespace) => namespace,
        None => "default"@,
    }
}

/// The cluster-internal DNS name of a pod.
pub open spec fn pod_fqdn_of(namespace: Seq<char>, cluster: NervixClusterView, ordinal: int) -> Seq<char> {
    pod_name_of(cluster, ordinal) + "."@ + headless_service_name_of(cluster) + "."@ + namespace
        + ".svc.cluster.local"@
}

/// `host:port`.
pub open spec fn host_port(host: Seq<char>, port: int) -> Seq<char> {
    host + ":"@ + decimal(port)
}

/// The address a node advertises for a protocol that local access exposes: its
/// node's IP and its own NodePort with local access, else its DNS name and the
/// fixed port.
pub open spec fn advertised_address_of(
    local_first_port: Option<int>,
    fqdn: Seq<char>,
    ordinal: int,
    port: int,
) -> Seq<char> {
    match local_first_port {
        Some(first) => host_port("$(HOST_IP)"@, first + ordinal),
        None => host_port(fqdn, port),
    }
}

pub open spec fn node_status_of(namespace: Seq<char>, cluster: NervixClusterView, ordinal: int) -> NervixNodeStatusView {
    let fqdn = pod_fqdn_of(namespace, cluster, ordinal);
    let access = enabled_local_access_of(cluster);
    NervixNodeStatusView {
        name: pod_name_of(cluster, ordinal),
        ordinal: ordinal as i32,
        grpc_advertise_address: advertised_address_of(
            match access {
                Some(a) => Some(a.first_node_grpc_node_port as int),
                None => None,
            },
            fqdn,
            ordinal,
            GRPC_PORT as int,
        ),
        web_console_advertise_address: advertised_address_of(
            match access {
                Some(a) => Some(a.first_node_web_console_node_port as int),
                None => None,
            },
            fqdn,
            ordinal,
            WEB_CONSOLE_PORT as int,
        ),
        cluster_advertise_address: host_port(fqdn, GOSSIP_PORT as int),
        cluster_api_advertise_address: host_port(fqdn, CLUSTER_API_PORT as int),
        interconnect_advertise_address: host_port(fqdn, INTERCONNECT_PORT as int),
    }
}

/// The status to report: generation, phase, replica counts and one entry per node.
pub open spec fn status_of(
    cluster: NervixClusterView,
    ready_replicas: i32,
    initialization_phase: Option<NervixClusterInitializationPhase>,
) -> NervixClusterStatusView {
    let replicas = normalized_replicas_of(cluster.spec);
    NervixClusterStatusView {
        observed_generation: cluster.metadata.generation,
        initialization_phase: initialization_phase,
        ready_replicas: ready_replicas,
        replicas: replicas,
        nodes: Seq::new(
            replicas as nat,
            |ordinal: int| node_status_of(namespace_or_default(cluster), cluster, ordinal),
        ),
    }
}

fn host_port_string(host: &str, port: i32) -> (address: String)
    ensures
        address@ == host_port(host@, port as int),
{
    let mut address = String::from_str(host);
    address.append(":");
    address.append(i32_to_decimal(port).as_str());
    address
}

fn advertised_address(local_first_port: Option<i32>, fqdn: &str, ordinal: i32, port: i32) -> (address:
    String)
    requires
        local_first_port matches Some(first) ==> i32::MIN <= first + ordinal <= i32::MAX,
    ensures
        address@ == advertised_address_of(
            match local_first_port {
                Some(first) => Some(first as int),
                None => None,
            },
            fqdn@,
            ordinal as int,
            port as int,
        ),
{
    match local_first_port {
        Some(first) => host_port_string("$(HOST_IP)", first + ordinal),
        None => host_port_string(fqdn, port),
    }
}

fn node_status(namespace: &str, cluster: &NervixCluster, ordinal: i32) -> (node: NervixNodeStatus)
    requires
        match enabled_local_access_of(cluster.deep_view()) {
            Some(a) => i32::MIN <= a.first_node_grpc_node_port + ordinal <= i32::MAX
                && i32::MIN <= a.first_node_web_console_node_port + ordinal <= i32::MAX,
            None => true,
        },
    ensures
        node.deep_view() == node_status_of(namespace@, cluster.deep_view(), ordinal as int),
{
    let pod = pod_name(cluster, ordinal);
    let mut fqdn = pod.clone();
    fqdn.append(".");
    fqdn.append(headless_service_name(cluster).as_str());
    fqdn.append(".");
    fqdn.append(namespace);
    fqdn.append(".svc.cluster.local");
    let access = enabled_local_access(cluster);
    let grpc = advertised_address(
        match access {
            Some(a) => Some(a.first_node_grpc_node_port),
            None => None,
        },
        fqdn.as_str(),
        ordinal,
        GRPC_PORT,
    );
    let web_console = advertised_address(
        match access {
            Some(a) => Some(a.first_node_web_console_node_port),
            None => None,
        },
        fqdn.as_str(),
        ordinal,
        WEB_CONSOLE_PORT,
    );
    NervixNodeStatus {
        name: pod,
        ordinal,
        grpc_advertise_address: grpc,
        web_console_advertise_address: web_console,
        cluster_advertise_address: host_port_string(fqdn.as_str(), GOSSIP_PORT),
        cluster_api_advertise_address: host_port_string(fqdn.as_str(), CLUSTER_API_PORT),
        interconnect_advertise_address: host_port_string(fqdn.as_str(), INTERCONNECT_PORT),
    }
}

/// The status that reports the cluster with the given ready count and phase.
pub fn status(
    cluster: &NervixCluster,
    ready_replicas: i32,
    initialization_phase: Option<NervixClusterInitializationPhase>,
) -> (status: NervixClusterStatus)
    requires
        advertised_ports_fit(cluster.deep_view()),
    ensures
        status.deep_view() == status_of(cluster.deep_view(), ready_replicas, initialization_phase),
{
    let namespace = match cluster.namespace() {
        Some(namespace) => namespace,
        None => String::from_str("default"),
    };
    let replicas = cluster.spec.normalized_replicas();
    let ghost c = cluster.deep_view();
    let mut nodes: Vec<NervixNodeStatus> = Vec::new();
    let mut ordinal: i32 = 0;
    while ordinal < replicas
        invariant
            c == cluster.deep_view(),
            namespace@ == namespace_or_default(c),
            replicas == normalized_replicas_of(c.spec),
            advertised_ports_fit(c),
            0 <= ordinal <= replicas,
            nodes.deep_view() =~= Seq::new(
                ordinal as nat,
                |k: int| node_status_of(namespace_or_default(c), c, k),
            ),
        decreases replicas - ordinal,
    {
        let node = node_status(namespace.as_str(), cluster, ordinal);
        let ghost before = nodes.deep_view();
        nodes.push(node);
        assert(nodes.deep_view() =~= before.push(node.deep_view()));
        ordinal = ordinal + 1;
    }
    NervixClusterStatus {
        observed_generation: cluster.metadata.generation,
        initialization_phase,
        ready_replicas,
        replicas,
        nodes,
    }
}

} // verus!
