//! The Kubernetes objects that the operator reads and writes, as plain data:
//! only the fields that the operator sets or reads are modelled. Each type has
//! a `...View` counterpart, its mathematical value, in which contracts are stated.
use vstd::prelude::*;

verus! {

/// The value that a list of map entries gives to `key`: that of its first entry with the key.
pub open spec fn entry_value(entries: Seq<(Seq<char>, Seq<char>)>, key: Seq<char>) -> Option<
    Seq<char>,
>
    decreases entries.len(),
{
    if entries.len() == 0 {
        None
    } else if entries[0].0 == key {
        Some(entries[0].1)
    } else {
        entry_value(entries.drop_first(), key)
    }
}

/// No two entries of a map share a key.
pub open spec fn distinct_keys(entries: Seq<(Seq<char>, Seq<char>)>) -> bool {
    forall|i: int, j: int|
        0 <= i < entries.len() && 0 <= j < entries.len() && i != j ==> #[trigger] entries[i].0
            != #[trigger] entries[j].0
}

/// A reference from a child object to the object that controls it.
#[derive(Clone, Debug, PartialEq, Default)]
pub struct OwnerReference {
    pub api_version: String,
    pub kind: String,
    pub name: String,
    pub uid: String,
    pub controller: Option<bool>,
}

/// The mathematical value of [`OwnerReference`].
pub struct OwnerReferenceView {
    pub api_version: Seq<char>,
    pub kind: Seq<char>,
    pub name: Seq<char>,
    pub uid: Seq<char>,
    pub controller: Option<bool>,
}

impl DeepView for OwnerReference {
    type V = OwnerReferenceView;

    open spec fn deep_view(&self) -> OwnerReferenceView {
        OwnerReferenceView {
            api_version: self.api_version@,
            kind: self.kind@,
            name: self.name@,
            uid: self.uid@,
            controller: self.controller,
        }
    }
}

/// Object metadata: the fields that the operator sets or reads.
#[derive(Clone, Debug, PartialEq, Default)]
pub struct ObjectMeta {
    pub name: Option<String>,
    pub generate_name: Option<String>,
    pub namespace: Option<String>,
    pub uid: Option<String>,
    pub generation: Option<i64>,
    pub labels: Option<Vec<(String, String)>>,
    pub owner_references: Option<Vec<OwnerReference>>,
}

/// The mathematical value of [`ObjectMeta`].
pub struct ObjectMetaView {
    pub name: Option<Seq<char>>,
    pub generate_name: Option<Seq<char>>,
    pub namespace: Option<Seq<char>>,
    pub uid: Option<Seq<char>>,
    pub generation: Option<i64>,
    pub labels: Option<Seq<(Seq<char>, Seq<char>)>>,
    pub owner_references: Option<Seq<OwnerReferenceView>>,
}

impl DeepView for ObjectMeta {
    type V = ObjectMetaView;

    open spec fn deep_view(&self) -> ObjectMetaView {
        ObjectMetaView {
            name: self.name.deep_view(),
            generate_name: self.generate_name.deep_view(),
            namespace: self.namespace.deep_view(),
            uid: self.uid.deep_view(),
            generation: self.generation,
            labels: self.labels.deep_view(),
            owner_references: self.owner_references.deep_view(),
        }
    }
}

/// A port that a Service exposes; `target_port` names a container port.
#[derive(Clone, Debug, PartialEq, Default)]
pub struct ServicePort {
    pub name: Option<String>,
    pub port: i32,
    pub target_port: Option<String>,
    pub protocol: Option<String>,
    pub node_port: Option<i32>,
}

/// The mathematical value of [`ServicePort`].
pub struct ServicePortView {
    pub name: Option<Seq<char>>,
    pub port: i32,
    pub target_port: Option<Seq<char>>,
    pub protocol: Option<Seq<char>>,
    pub node_port: Option<i32>,
}

impl DeepView for ServicePort {
    type V = ServicePortView;

    open spec fn deep_view(&self) -> ServicePortView {
        ServicePortView {
            name: self.name.deep_view(),
            port: self.port,
            target_port: self.target_port.deep_view(),
            protocol: self.protocol.deep_view(),
            node_port: self.node_port,
        }
    }
}

#[derive(Clone, Debug, PartialEq, Default)]
pub struct ServiceSpec {
    pub type_: Option<String>,
    pub cluster_ip: Option<String>,
    pub publish_not_ready_addresses: Option<bool>,
    pub selector: Option<Vec<(String, String)>>,
    pub ports: Option<Vec<ServicePort>>,
}

/// The mathematical value of [`ServiceSpec`].
pub struct ServiceSpecView {
    pub type_: Option<Seq<char>>,
    pub cluster_ip: Option<Seq<char>>,
    pub publish_not_ready_addresses: Option<bool>,
    pub selector: Option<Seq<(Seq<char>, Seq<char>)>>,
    pub ports: Option<Seq<ServicePortView>>,
}

impl DeepView for ServiceSpec {
    type V = ServiceSpecView;

    open spec fn deep_view(&self) -> ServiceSpecView {
        ServiceSpecView {
            type_: self.type_.deep_view(),
            cluster_ip: self.cluster_ip.deep_view(),
            publish_not_ready_addresses: self.publish_not_ready_addresses,
            selector: self.selector.deep_view(),
            ports: self.ports.deep_view(),
        }
    }
}

#[derive(Clone, Debug, PartialEq, Default)]
pub struct Service {
    pub metadata: ObjectMeta,
    pub spec: Option<ServiceSpec>,
}

/// The mathematical value of [`Service`].
pub struct ServiceView {
    pub metadata: ObjectMetaView,
    pub spec: Option<ServiceSpecView>,
}

impl DeepView for Service {
    type V = ServiceView;

    open spec fn deep_view(&self) -> ServiceView {
        ServiceView {
            metadata: self.metadata.deep_view(),
            spec: self.spec.deep_view(),
        }
    }
}

#[derive(Clone, Debug, PartialEq, Default)]
pub struct LabelSelector {
    pub match_labels: Option<Vec<(String, String)>>,
}

/// The mathematical value of [`LabelSelector`].
pub struct LabelSelectorView {
    pub match_labels: Option<Seq<(Seq<char>, Seq<char>)>>,
}

impl DeepView for LabelSelector {
    type V = LabelSelectorView;

    open spec fn deep_view(&self) -> LabelSelectorView {
        LabelSelectorView {
            match_labels: self.match_labels.deep_view(),
        }
    }
}

#[derive(Clone, Debug, PartialEq, Default)]
pub struct SecurityContext {
    pub allow_privilege_escalation: Option<bool>,
    pub run_as_group: Option<i64>,
    pub run_as_non_root: Option<bool>,
    pub run_as_user: Option<i64>,
}

/// The mathematical value of [`SecurityContext`].
pub struct SecurityContextView {
    pub allow_privilege_escalation: Option<bool>,
    pub run_as_group: Option<i64>,
    pub run_as_non_root: Option<bool>,
    pub run_as_user: Option<i64>,
}

impl DeepView for SecurityContext {
    type V = SecurityContextView;

    open spec fn deep_view(&self) -> SecurityContextView {
        SecurityContextView {
            allow_privilege_escalation: self.allow_privilege_escalation,
            run_as_group: self.run_as_group,
            run_as_non_root: self.run_as_non_root,
            run_as_user: self.run_as_user,
        }
    }
}

#[derive(Clone, Debug, PartialEq, Default)]
pub struct PodSecurityContext {
    pub fs_group: Option<i64>,
    pub fs_group_change_policy: Option<String>,
}

/// The mathematical value of [`PodSecurityContext`].
pub struct PodSecurityContextView {
    pub fs_group: Option<i64>,
    pub fs_group_change_policy: Option<Seq<char>>,
}

impl DeepView for PodSecurityContext {
    type V = PodSecurityContextView;

    open spec fn deep_view(&self) -> PodSecurityContextView {
        PodSecurityContextView {
            fs_group: self.fs_group,
            fs_group_change_policy: self.fs_group_change_policy.deep_view(),
        }
    }
}

#[derive(Clone, Debug, PartialEq, Default)]
pub struct ObjectFieldSelector {
    pub api_version: Option<String>,
    pub field_path: String,
}

/// The mathematical value of [`ObjectFieldSelector`].
pub struct ObjectFieldSelectorView {
    pub api_version: Option<Seq<char>>,
    pub field_path: Seq<char>,
}

impl DeepView for ObjectFieldSelector {
    type V = ObjectFieldSelectorView;

    open spec fn deep_view(&self) -> ObjectFieldSelectorView {
        ObjectFieldSelectorView {
            api_version: self.api_version.deep_view(),
            field_path: self.field_path@,
        }
    }
}

#[derive(Clone, Debug, PartialEq, Default)]
pub struct SecretKeySelector {
    pub name: String,
    pub key: String,
    pub optional: Option<bool>,
}

/// The mathematical value of [`SecretKeySelector`].
pub struct SecretKeySelectorView {
    pub name: Seq<char>,
    pub key: Seq<char>,
    pub optional: Option<bool>,
}

impl DeepView for SecretKeySelector {
    type V = SecretKeySelectorView;

    open spec fn deep_view(&self) -> SecretKeySelectorView {
        SecretKeySelectorView {
            name: self.name@,
            key: self.key@,
            optional: self.optional,
        }
    }
}

#[derive(Clone, Debug, PartialEq, Default)]
pub struct EnvVarSource {
    pub field_ref: Option<ObjectFieldSelector>,
    pub secret_key_ref: Option<SecretKeySelector>,
}

/// The mathematical value of [`EnvVarSource`].
pub struct EnvVarSourceView {
    pub field_ref: Option<ObjectFieldSelectorView>,
    pub secret_key_ref: Option<SecretKeySelectorView>,
}

impl DeepView for EnvVarSource {
    type V = EnvVarSourceView;

    open spec fn deep_view(&self) -> EnvVarSourceView {
        EnvVarSourceView {
            field_ref: self.field_ref.deep_view(),
            secret_key_ref: self.secret_key_ref.deep_view(),
        }
    }
}

#[derive(Clone, Debug, PartialEq, Default)]
pub struct EnvVar {
    pub name: String,
    pub value: Option<String>,
    pub value_from: Option<EnvVarSource>,
}

/// The mathematical value of [`EnvVar`].
pub struct EnvVarView {
    pub name: Seq<char>,
    pub value: Option<Seq<char>>,
    pub value_from: Option<EnvVarSourceView>,
}

impl DeepView for EnvVar {
    type V = EnvVarView;

    open spec fn deep_view(&self) -> EnvVarView {
        EnvVarView {
            name: self.name@,
            value: self.value.deep_view(),
            value_from: self.value_from.deep_view(),
        }
    }
}

#[derive(Clone, Debug, PartialEq, Default)]
pub struct ExecAction {
    pub command: Option<Vec<String>>,
}

/// The mathematical value of [`ExecAction`].
pub struct ExecActionView {
    pub command: Option<Seq<Seq<char>>>,
}

impl DeepView for ExecAction {
    type V = ExecActionView;

    open spec fn deep_view(&self) -> ExecActionView {
        ExecActionView {
            command: self.command.deep_view(),
        }
    }
}

/// An HTTP GET probe action; `port` names a container port.
#[derive(Clone, Debug, PartialEq, Default)]
pub struct HttpGetAction {
    pub path: Option<String>,
    pub port: String,
}

/// The mathematical value of [`HttpGetAction`].
pub struct HttpGetActionView {
    pub path: Option<Seq<char>>,
    pub port: Seq<char>,
}

impl DeepView for HttpGetAction {
    type V = HttpGetActionView;

    open spec fn deep_view(&self) -> HttpGetActionView {
        HttpGetActionView {
            path: self.path.deep_view(),
            port: self.port@,
        }
    }
}

#[derive(Clone, Debug, PartialEq, Default)]
pub struct Probe {
    pub exec_: Option<ExecAction>,
    pub http_get: Option<HttpGetAction>,
    pub period_seconds: Option<i32>,
    pub failure_threshold: Option<i32>,
}

/// The mathematical value of [`Probe`].
pub struct ProbeView {
    pub exec_: Option<ExecActionView>,
    pub http_get: Option<HttpGetActionView>,
    pub period_seconds: Option<i32>,
    pub failure_threshold: Option<i32>,
}

impl DeepView for Probe {
    type V = ProbeView;

    open spec fn deep_view(&self) -> ProbeView {
        ProbeView {
            exec_: self.exec_.deep_view(),
            http_get: self.http_get.deep_view(),
            period_seconds: self.period_seconds,
            failure_threshold: self.failure_threshold,
        }
    }
}

/// Requests and limits, as maps from resource name to quantity.
#[derive(Clone, Debug, PartialEq, Default)]
pub struct ResourceRequirements {
    pub requests: Option<Vec<(String, String)>>,
    pub limits: Option<Vec<(String, String)>>,
}

/// The mathematical value of [`ResourceRequirements`].
pub struct ResourceRequirementsView {
    pub requests: Option<Seq<(Seq<char>, Seq<char>)>>,
    pub limits: Option<Seq<(Seq<char>, Seq<char>)>>,
}

impl DeepView for ResourceRequirements {
    type V = ResourceRequirementsView;

    open spec fn deep_view(&self) -> ResourceRequirementsView {
        ResourceRequirementsView {
            requests: self.requests.deep_view(),
            limits: self.limits.deep_view(),
        }
    }
}

#[derive(Clone, Debug, PartialEq, Default)]
pub struct ContainerPort {
    pub name: Option<String>,
    pub container_port: i32,
    pub protocol: Option<String>,
}

/// The mathematical value of [`ContainerPort`].
pub struct ContainerPortView {
    pub name: Option<Seq<char>>,
    pub container_port: i32,
    pub protocol: Option<Seq<char>>,
}

impl DeepView for ContainerPort {
    type V = ContainerPortView;

    open spec fn deep_view(&self) -> ContainerPortView {
        ContainerPortView {
            name: self.name.deep_view(),
            container_port: self.container_port,
            protocol: self.protocol.deep_view(),
        }
    }
}

#[derive(Clone, Debug, PartialEq, Default)]
pub struct VolumeMount {
    pub name: String,
    pub mount_path: String,
}

/// The mathematical value of [`VolumeMount`].
pub struct VolumeMountView {
    pub name: Seq<char>,
    pub mount_path: Seq<char>,
}

impl DeepView for VolumeMount {
    type V = VolumeMountView;

    open spec fn deep_view(&self) -> VolumeMountView {
        VolumeMountView {
            name: self.name@,
            mount_path: self.mount_path@,
        }
    }
}

#[derive(Clone, Debug, PartialEq, Default)]
pub struct Container {
    pub name: String,
    pub image: Option<String>,
    pub image_pull_policy: Option<String>,
    pub security_context: Option<SecurityContext>,
    pub command: Option<Vec<String>>,
    pub env: Option<Vec<EnvVar>>,
    pub ports: Option<Vec<ContainerPort>>,
    pub readiness_probe: Option<Probe>,
    pub liveness_probe: Option<Probe>,
    pub startup_probe: Option<Probe>,
    pub resources: Option<ResourceRequirements>,
    pub volume_mounts: Option<Vec<VolumeMount>>,
}

/// The mathematical value of [`Container`].
pub struct ContainerView {
    pub name: Seq<char>,
    pub image: Option<Seq<char>>,
    pub image_pull_policy: Option<Seq<char>>,
    pub security_context: Option<SecurityContextView>,
    pub command: Option<Seq<Seq<char>>>,
    pub env: Option<Seq<EnvVarView>>,
    pub ports: Option<Seq<ContainerPortView>>,
    pub readiness_probe: Option<ProbeView>,
    pub liveness_probe: Option<ProbeView>,
    pub startup_probe: Option<ProbeView>,
    pub resources: Option<ResourceRequirementsView>,
    pub volume_mounts: Option<Seq<VolumeMountView>>,
}

impl DeepView for Container {
    type V = ContainerView;

    open spec fn deep_view(&self) -> ContainerView {
        ContainerView {
            name: self.name@,
            image: self.image.deep_view(),
            image_pull_policy: self.image_pull_policy.deep_view(),
            security_context: self.security_context.deep_view(),
            command: self.command.deep_view(),
            env: self.env.deep_view(),
            ports: self.ports.deep_view(),
            readiness_probe: self.readiness_probe.deep_view(),
            liveness_probe: self.liveness_probe.deep_view(),
            startup_probe: self.startup_probe.deep_view(),
            resources: self.resources.deep_view(),
            volume_mounts: self.volume_mounts.deep_view(),
        }
    }
}

#[derive(Clone, Debug, PartialEq, Default)]
pub struct PodSpec {
    pub security_context: Option<PodSecurityContext>,
    pub termination_grace_period_seconds: Option<i64>,
    pub containers: Vec<Container>,
}

/// The mathematical value of [`PodSpec`].
pub struct PodSpecView {
    pub security_context: Option<PodSecurityContextView>,
    pub termination_grace_period_seconds: Option<i64>,
    pub containers: Seq<ContainerView>,
}

impl DeepView for PodSpec {
    type V = PodSpecView;

    open spec fn deep_view(&self) -> PodSpecView {
        PodSpecView {
            security_context: self.security_context.deep_view(),
            termination_grace_period_seconds: self.termination_grace_period_seconds,
            containers: self.containers.deep_view(),
        }
    }
}

#[derive(Clone, Debug, PartialEq, Default)]
pub struct PodTemplateSpec {
    pub metadata: Option<ObjectMeta>,
    pub spec: Option<PodSpec>,
}

/// The mathematical value of [`PodTemplateSpec`].
pub struct PodTemplateSpecView {
    pub metadata: Option<ObjectMetaView>,
    pub spec: Option<PodSpecView>,
}

impl DeepView for PodTemplateSpec {
    type V = PodTemplateSpecView;

    open spec fn deep_view(&self) -> PodTemplateSpecView {
        PodTemplateSpecView {
            metadata: self.metadata.deep_view(),
            spec: self.spec.deep_view(),
        }
    }
}

#[derive(Clone, Debug, PartialEq, Default)]
pub struct VolumeResourceRequirements {
    pub requests: Option<Vec<(String, String)>>,
}

/// The mathematical value of [`VolumeResourceRequirements`].
pub struct VolumeResourceRequirementsView {
    pub requests: Option<Seq<(Seq<char>, Seq<char>)>>,
}

impl DeepView for VolumeResourceRequirements {
    type V = VolumeResourceRequirementsView;

    open spec fn deep_view(&self) -> VolumeResourceRequirementsView {
        VolumeResourceRequirementsView {
            requests: self.requests.deep_view(),
        }
    }
}

#[derive(Clone, Debug, PartialEq, Default)]
pub struct PersistentVolumeClaimSpec {
    pub access_modes: Option<Vec<String>>,
    pub resources: Option<VolumeResourceRequirements>,
}

/// The mathematical value of [`PersistentVolumeClaimSpec`].
pub struct PersistentVolumeClaimSpecView {
    pub access_modes: Option<Seq<Seq<char>>>,
    pub resources: Option<VolumeResourceRequirementsView>,
}

impl DeepView for PersistentVolumeClaimSpec {
    type V = PersistentVolumeClaimSpecView;

    open spec fn deep_view(&self) -> PersistentVolumeClaimSpecView {
        PersistentVolumeClaimSpecView {
            access_modes: self.access_modes.deep_view(),
            resources: self.resources.deep_view(),
        }
    }
}

#[derive(Clone, Debug, PartialEq, Default)]
pub struct PersistentVolumeClaim {
    pub metadata: ObjectMeta,
    pub spec: Option<PersistentVolumeClaimSpec>,
}

/// The mathematical value of [`PersistentVolumeClaim`].
pub struct PersistentVolumeClaimView {
    pub metadata: ObjectMetaView,
    pub spec: Option<PersistentVolumeClaimSpecView>,
}

impl DeepView for PersistentVolumeClaim {
    type V = PersistentVolumeClaimView;

    open spec fn deep_view(&self) -> PersistentVolumeClaimView {
        PersistentVolumeClaimView {
            metadata: self.metadata.deep_view(),
            spec: self.spec.deep_view(),
        }
    }
}

#[derive(Clone, Debug, PartialEq, Default)]
pub struct StatefulSetSpec {
    pub service_name: Option<String>,
    pub replicas: Option<i32>,
    pub pod_management_policy: Option<String>,
    pub selector: LabelSelector,
    pub template: PodTemplateSpec,
    pub volume_claim_templates: Option<Vec<PersistentVolumeClaim>>,
}

/// The mathematical value of [`StatefulSetSpec`].
pub struct StatefulSetSpecView {
    pub service_name: Option<Seq<char>>,
    pub replicas: Option<i32>,
    pub pod_management_policy: Option<Seq<char>>,
    pub selector: LabelSelectorView,
    pub template: PodTemplateSpecView,
    pub volume_claim_templates: Option<Seq<PersistentVolumeClaimView>>,
}

impl DeepView for StatefulSetSpec {
    type V = StatefulSetSpecView;

    open spec fn deep_view(&self) -> StatefulSetSpecView {
        StatefulSetSpecView {
            service_name: self.service_name.deep_view(),
            replicas: self.replicas,
            pod_management_policy: self.pod_management_policy.deep_view(),
            selector: self.selector.deep_view(),
            template: self.template.deep_view(),
            volume_claim_templates: self.volume_claim_templates.deep_view(),
        }
    }
}

/// What the API server reports of a StatefulSet's rollout.
#[derive(Clone, Debug, PartialEq, Default)]
pub struct StatefulSetStatus {
    pub observed_generation: Option<i64>,
    pub replicas: i32,
    pub ready_replicas: Option<i32>,
    pub updated_replicas: Option<i32>,
    pub current_revision: Option<String>,
    pub update_revision: Option<String>,
}

/// The mathematical value of [`StatefulSetStatus`].
pub struct StatefulSetStatusView {
    pub observed_generation: Option<i64>,
    pub replicas: i32,
    pub ready_replicas: Option<i32>,
    pub updated_replicas: Option<i32>,
    pub current_revision: Option<Seq<char>>,
    pub update_revision: Option<Seq<char>>,
}

impl DeepView for StatefulSetStatus {
    type V = StatefulSetStatusView;

    open spec fn deep_view(&self) -> StatefulSetStatusView {
        StatefulSetStatusView {
            observed_generation: self.observed_generation,
            replicas: self.replicas,
            ready_replicas: self.ready_replicas,
            updated_replicas: self.updated_replicas,
            current_revision: self.current_revision.deep_view(),
            update_revision: self.update_revision.deep_view(),
        }
    }
}

#[derive(Clone, Debug, PartialEq, Default)]
pub struct StatefulSet {
    pub metadata: ObjectMeta,
    pub spec: Option<StatefulSetSpec>,
    pub status: Option<StatefulSetStatus>,
}

/// The mathematical value of [`StatefulSet`].
pub struct StatefulSetView {
    pub metadata: ObjectMetaView,
    pub spec: Option<StatefulSetSpecView>,
    pub status: Option<StatefulSetStatusView>,
}

impl DeepView for StatefulSet {
    type V = StatefulSetView;

    open spec fn deep_view(&self) -> StatefulSetView {
        StatefulSetView {
            metadata: self.metadata.deep_view(),
            spec: self.spec.deep_view(),
            status: self.status.deep_view(),
        }
    }
}


/// The most useful name of an object: its name, else its generate-name, else empty.
pub open spec fn name_any_of(meta: ObjectMetaView) -> Seq<char> {
    match meta.name {
        Some(name) => name,
        None => match meta.generate_name {
            Some(generate_name) => generate_name,
            None => Seq::empty(),
        },
    }
}

/// Metadata that sets nothing.
pub open spec fn empty_meta() -> ObjectMetaView {
    ObjectMetaView {
        name: None,
        generate_name: None,
        namespace: None,
        uid: None,
        generation: None,
        labels: None,
        owner_references: None,
    }
}

impl ObjectMeta {
    /// The name, else the generate-name, else the empty string.
    pub fn name_any(&self) -> (name: String)
        ensures
            name@ == name_any_of(self.deep_view()),
    {
        match &self.name {
            Some(name) => name.clone(),
            None => match &self.generate_name {
                Some(generate_name) => generate_name.clone(),
                None => String::new(),
            },
        }
    }
}

impl Service {
    /// The service's name, as `ResourceExt::name_any` gives it.
    pub fn name_any(&self) -> (name: String)
        ensures
            name@ == name_any_of(self.deep_view().metadata),
    {
        self.metadata.name_any()
    }
}

impl StatefulSet {
    /// The StatefulSet's name, as `ResourceExt::name_any` gives it.
    pub fn name_any(&self) -> (name: String)
        ensures
            name@ == name_any_of(self.deep_view().metadata),
    {
        self.metadata.name_any()
    }
}

} // verus!
