//! The operator's reconcile logic: which initialization phase a cluster is in,
//! when a StatefulSet rollout is complete, which local-access services to prune,
//! and the reconcile pass itself as a state machine driven by API results.
use vstd::prelude::*;
use vstd::string::*;

use crate::api::{
    normalized_replicas_of, NervixCluster, NervixClusterInitializationPhase, NervixClusterStatus,
    NervixClusterStatusView, NervixClusterView,
};
use crate::manifests::{
    bootstrap_local_service, bootstrap_local_service_of, cluster_name, cluster_service,
    cluster_service_of, enabled_local_access, enabled_local_access_of, headless_service,
    headless_service_of, local_service_name, local_service_name_of, mode_replicas,
    node_local_service, node_local_service_name, node_local_service_name_of,
    node_local_service_of, node_services_fit, advertised_ports_fit, stateful_set, stateful_set_of,
    status, status_of, StatefulSetMode,
};
use crate::objects::{Service, ServiceView, StatefulSet, StatefulSetView};

verus! {

// ---------------------------------------------------------------- initialization phase

/// The phase that the cluster's last reported status records, if any.
pub open spec fn recorded_phase_of(cluster: NervixClusterView) -> Option<
    NervixClusterInitializationPhase,
> {
    match cluster.status {
        Some(status) => status.initialization_phase,
        None => None,
    }
}

/// The phase the cluster is in: a recorded credential removal or completed
/// initialization stands; otherwise the cluster is initializing exactly when it
/// names a password Secret.
pub open spec fn initialization_phase_of(cluster: NervixClusterView) -> Option<
    NervixClusterInitializationPhase,
> {
    match recorded_phase_of(cluster) {
        Some(NervixClusterInitializationPhase::RemovingCredentials) => Some(
            NervixClusterInitializationPhase::RemovingCredentials,
        ),
        Some(NervixClusterInitializationPhase::Initialized) => Some(
            NervixClusterInitializationPhase::Initialized,
        ),
        _ => if cluster.spec.initial_default_user_password_secret_ref is Some {
            Some(NervixClusterInitializationPhase::Initializing)
        } else {
            None
        },
    }
}

/// The StatefulSet mode of a phase.
pub open spec fn mode_of(phase: Option<NervixClusterInitializationPhase>) -> StatefulSetMode {
    match phase {
        Some(NervixClusterInitializationPhase::Initializing) => StatefulSetMode::Initializing,
        Some(NervixClusterInitializationPhase::RemovingCredentials) => StatefulSetMode::RemovingCredentials,
        _ => StatefulSetMode::Running,
    }
}

/// The phase the cluster is in (see [`initialization_phase_of`]).
pub fn initialization_phase(cluster: &NervixCluster) -> (phase: Option<
    NervixClusterInitializationPhase,
>)
    ensures
        phase == initialization_phase_of(cluster.deep_view()),
{
    let recorded = match &cluster.status {
        Some(status) => status.initialization_phase,
        None => None,
    };
    match recorded {
        Some(NervixClusterInitializationPhase::RemovingCredentials) => Some(
            NervixClusterInitializationPhase::RemovingCredentials,
        ),
        Some(NervixClusterInitializationPhase::Initialized) => Some(
            NervixClusterInitializationPhase::Initialized,
        ),
        _ => if cluster.spec.initial_default_user_password_secret_ref.is_some() {
            Some(NervixClusterInitializationPhase::Initializing)
        } else {
            None
        },
    }
}

/// The StatefulSet mode of a phase: the password is handed out only while
/// initializing, the full replica count only once initialization is over.
pub fn stateful_set_mode(initialization_phase: Option<NervixClusterInitializationPhase>) -> (mode:
    StatefulSetMode)
    ensures
        mode == mode_of(initialization_phase),
{
    match initialization_phase {
        Some(NervixClusterInitializationPhase::Initializing) => StatefulSetMode::Initializing,
        Some(NervixClusterInitializationPhase::RemovingCredentials) => StatefulSetMode::RemovingCredentials,
        Some(NervixClusterInitializationPhase::Initialized) | None => StatefulSetMode::Running,
    }
}

// ---------------------------------------------------------------- rollout

/// A StatefulSet has rolled out `desired` pods: the controller has seen its
/// latest generation, and all `desired` pods run the current revision, which is
/// the one that was asked for, and are ready.
pub open spec fn rollout_complete_of(stateful_set: StatefulSetView, desired: i32) -> bool {
    match stateful_set.status {
        None => false,
        Some(status) => {
            let generation = match stateful_set.metadata.generation {
                Some(generation) => generation,
                None => 0,
            };
            let observed = match status.observed_generation {
                Some(observed) => observed,
                None => 0,
            };
            &&& observed >= generation
            &&& status.replicas == desired
            &&& status.ready_replicas == Some(desired)
            &&& status.updated_replicas == Some(desired)
            &&& status.current_revision is Some
            &&& status.current_revision == status.update_revision
        },
    }
}

/// Whether the StatefulSet has rolled out `desired` pods (see [`rollout_complete_of`]).
pub fn stateful_set_rollout_complete(stateful_set: &StatefulSet, desired_replicas: i32) -> (complete:
    bool)
    ensures
        complete == rollout_complete_of(stateful_set.deep_view(), desired_replicas),
{
    let status = match &stateful_set.status {
        Some(status) => status,
        None => {
            return false;
        },
    };
    let generation = match stateful_set.metadata.generation {
        Some(generation) => generation,
        None => 0,
    };
    let observed = match status.observed_generation {
        Some(observed) => observed,
        None => 0,
    };
    let same_revision = match (&status.current_revision, &status.update_revision) {
        (Some(current), Some(update)) => *current == *update,
        _ => false,
    };
    observed >= generation && status.replicas == desired_replicas && status.ready_replicas == Some(
        desired_replicas,
    ) && status.updated_replicas == Some(desired_replicas) && same_revision
}

// ---------------------------------------------------------------- local-access services

/// The names of the local-access services that the cluster should have: the
/// shared one and one per node when local access is enabled, none otherwise.
pub open spec fn desired_local_service_names_of(cluster: NervixClusterView) -> Seq<Seq<char>> {
    match enabled_local_access_of(cluster) {
        Some(_) => seq![local_service_name_of(cluster)] + Seq::new(
            normalized_replicas_of(cluster.spec) as nat,
            |ordinal: int| node_local_service_name_of(cluster, ordinal),
        ),
        None => Seq::empty(),
    }
}

/// The names of the local-access services that the cluster should have.
pub fn desired_local_service_names(cluster: &NervixCluster) -> (names: Vec<String>)
    ensures
        names.deep_view() == desired_local_service_names_of(cluster.deep_view()),
{
    let mut names: Vec<String> = Vec::new();
    match enabled_local_access(cluster) {
        Some(_) => {
            names.push(local_service_name(cluster));
            let replicas = cluster.spec.normalized_replicas();
            let ghost c = cluster.deep_view();
            let mut ordinal: i32 = 0;
            while ordinal < replicas
                invariant
                    c == cluster.deep_view(),
                    replicas == normalized_replicas_of(c.spec),
                    0 <= ordinal <= replicas,
                    names.deep_view() =~= seq![local_service_name_of(c)] + Seq::new(
                        ordinal as nat,
                        |k: int| node_local_service_name_of(c, k),
                    ),
                decreases replicas - ordinal,
            {
                let name = node_local_service_name(cluster, ordinal);
                let ghost before = names.deep_view();
                names.push(name);
                assert(names.deep_view() =~= before.push(name@));
                ordinal = ordinal + 1;
            }
        },
        None => {
            assert(names.deep_view() =~= Seq::<Seq<char>>::empty());
        },
    }
    names
}

/// The label selector that lists the cluster's local-access services.
pub open spec fn local_access_selector_of(cluster: NervixClusterView) -> Seq<char> {
    "app.kubernetes.io/instance="@ + cluster_name(cluster)
        + ",app.kubernetes.io/component=local-access"@
}

/// The label selector that lists the cluster's local-access services.
pub fn local_access_selector(cluster: &NervixCluster) -> (selector: String)
    ensures
        selector@ == local_access_selector_of(cluster.deep_view()),
{
    let mut selector = String::from_str("app.kubernetes.io/instance=");
    selector.append(cluster.name_any().as_str());
    selector.append(",app.kubernetes.io/component=local-access");
    selector
}

/// Whether `name` is one of `names`.
pub fn contains_name(names: &Vec<String>, name: &String) -> (found: bool)
    ensures
        found == names.deep_view().contains(name@),
{
    let mut index: usize = 0;
    while index < names.len()
        invariant
            0 <= index <= names.len(),
            forall|k: int| 0 <= k < index ==> names.deep_view()[k] != name@,
        decreases names.len() - index,
    {
        if names[index] == *name {
            assert(names.deep_view()[index as int] == name@);
            return true;
        }
        index = index + 1;
    }
    false
}

/// The listed services that are not desired, in listing order.
pub open spec fn services_to_prune_of(listed: Seq<Seq<char>>, desired: Seq<Seq<char>>) -> Seq<
    Seq<char>,
> {
    listed.filter(|name: Seq<char>| !desired.contains(name))
}

/// The listed services that are not desired, in listing order.
pub fn services_to_prune(listed: &Vec<String>, desired: &Vec<String>) -> (doomed: Vec<String>)
    ensures
        doomed.deep_view() == services_to_prune_of(listed.deep_view(), desired.deep_view()),
{
    let ghost keep = |name: Seq<char>| !desired.deep_view().contains(name);
    let mut doomed: Vec<String> = Vec::new();
    let mut index: usize = 0;
    while index < listed.len()
        invariant
            0 <= index <= listed.len(),
            keep == (|name: Seq<char>| !desired.deep_view().contains(name)),
            doomed.deep_view() =~= listed.deep_view().take(index as int).filter(keep),
        decreases listed.len() - index,
    {
        reveal_with_fuel(Seq::filter, 1);
        let name = &listed[index];
        let ghost before = doomed.deep_view();
        if !contains_name(desired, name) {
            doomed.push(name.clone());
            assert(doomed.deep_view() =~= before.push(name@));
        }
        assert(listed.deep_view().take(index + 1).drop_last() =~= listed.deep_view().take(
            index as int,
        ));
        index = index + 1;
    }
    assert(listed.deep_view().take(listed.len() as int) =~= listed.deep_view());
    doomed
}

// ---------------------------------------------------------------- reconcile pass

/// What a failed API call reported: its HTTP status code, if the API server
/// answered, and a description.
#[derive(Clone, Debug, PartialEq)]
pub struct ApiFailure {
    pub code: Option<u16>,
    pub message: String,
}

/// The mathematical value of [`ApiFailure`].
pub struct ApiFailureView {
    pub code: Option<u16>,
    pub message: Seq<char>,
}

impl DeepView for ApiFailure {
    type V = ApiFailureView;

    open spec fn deep_view(&self) -> ApiFailureView {
        ApiFailureView { code: self.code, message: self.message@ }
    }
}

/// Why a reconcile pass failed.
#[derive(Clone, Debug, PartialEq)]
pub enum Error {
    /// The cluster resource has no namespace; it carries the resource's name.
    MissingNamespace(String),
    /// A call to the Kubernetes API failed.
    Kube(ApiFailure),
}

/// The mathematical value of [`Error`].
pub enum ErrorView {
    MissingNamespace(Seq<char>),
    Kube(ApiFailureView),
}

impl DeepView for Error {
    type V = ErrorView;

    open spec fn deep_view(&self) -> ErrorView {
        match self {
            Error::MissingNamespace(name) => ErrorView::MissingNamespace(name@),
            Error::Kube(failure) => ErrorView::Kube(failure.deep_view()),
        }
    }
}

/// When to reconcile the cluster again.
#[derive(Clone, Copy, Debug, PartialEq, Eq, Structural)]
pub struct Action {
    pub requeue_after_seconds: u64,
}

/// Reconcile again soon, after a phase of initialization has advanced.
pub open spec fn requeue_soon() -> Action {
    Action { requeue_after_seconds: 2 }
}

/// Reconcile again later, after an ordinary pass.
pub open spec fn requeue_later() -> Action {
    Action { requeue_after_seconds: 30 }
}

/// Reconcile again after a failed pass.
pub open spec fn requeue_after_error() -> Action {
    Action { requeue_after_seconds: 10 }
}

/// What to do after a failed pass: try again after ten seconds, whatever the error.
pub fn error_policy(error: &Error) -> (action: Action)
    ensures
        action == requeue_after_error(),
{
    Action { requeue_after_seconds: 10 }
}

/// A call to the Kubernetes API that the reconcile pass asks for, or its end.
#[derive(Debug)]
pub enum ReconcileCommand {
    /// Server-side apply this Service.
    ApplyService(Service),
    /// List the Services that match this label selector, by name.
    ListLocalServices(String),
    /// Delete the Service of this name.
    DeleteService(String),
    /// Server-side apply this StatefulSet.
    ApplyStatefulSet(StatefulSet),
    /// Read the StatefulSet of this name.
    GetStatefulSet(String),
    /// Merge this status into the cluster resource's status.
    PatchStatus(NervixClusterStatus),
    /// The pass is over, with this outcome.
    Finish(Result<Action, Error>),
}

/// The mathematical value of [`ReconcileCommand`].
pub enum ReconcileCommandView {
    ApplyService(ServiceView),
    ListLocalServices(Seq<char>),
    DeleteService(Seq<char>),
    ApplyStatefulSet(StatefulSetView),
    GetStatefulSet(Seq<char>),
    PatchStatus(NervixClusterStatusView),
    Finish(Result<Action, ErrorView>),
}

impl DeepView for ReconcileCommand {
    type V = ReconcileCommandView;

    open spec fn deep_view(&self) -> ReconcileCommandView {
        match self {
            ReconcileCommand::ApplyService(service) => ReconcileCommandView::ApplyService(
                service.deep_view(),
            ),
            ReconcileCommand::ListLocalServices(selector) => ReconcileCommandView::ListLocalServices(
                selector@,
            ),
            ReconcileCommand::DeleteService(name) => ReconcileCommandView::DeleteService(name@),
            ReconcileCommand::ApplyStatefulSet(set) => ReconcileCommandView::ApplyStatefulSet(
                set.deep_view(),
            ),
            ReconcileCommand::GetStatefulSet(name) => ReconcileCommandView::GetStatefulSet(name@),
            ReconcileCommand::PatchStatus(status) => ReconcileCommandView::PatchStatus(
                status.deep_view(),
            ),
            ReconcileCommand::Finish(outcome) => ReconcileCommandView::Finish(
                match outcome {
                    Ok(action) => Ok(*action),
                    Err(error) => Err(error.deep_view()),
                },
            ),
        }
    }
}

/// The result of the last command, handed back to the reconcile pass.
#[derive(Debug)]
pub enum ReconcileEvent {
    /// An apply, delete or status patch succeeded.
    Succeeded,
    /// The listing succeeded with Services of these names.
    ListedServices(Vec<String>),
    /// The StatefulSet was read.
    FetchedStatefulSet(StatefulSet),
    /// The call failed.
    Failed(ApiFailure),
}

/// The mathematical value of [`ReconcileEvent`].
pub enum ReconcileEventView {
    Succeeded,
    ListedServices(Seq<Seq<char>>),
    FetchedStatefulSet(StatefulSetView),
    Failed(ApiFailureView),
}

impl DeepView for ReconcileEvent {
    type V = ReconcileEventView;

    open spec fn deep_view(&self) -> ReconcileEventView {
        match self {
            ReconcileEvent::Succeeded => ReconcileEventView::Succeeded,
            ReconcileEvent::ListedServices(names) => ReconcileEventView::ListedServices(
                names.deep_view(),
            ),
            ReconcileEvent::FetchedStatefulSet(set) => ReconcileEventView::FetchedStatefulSet(
                set.deep_view(),
            ),
            ReconcileEvent::Failed(failure) => ReconcileEventView::Failed(failure.deep_view()),
        }
    }
}

/// Where a reconcile pass stands: which command's result it waits for.
#[derive(Debug)]
pub enum ReconcileStage {
    /// Applying the planned Service with this index.
    ApplyingService(u64),
    ListingLocalServices,
    /// Deleting the Service at this index of the doomed names.
    DeletingLocalServices(Vec<String>, usize),
    ApplyingStatefulSet,
    ReadingStatefulSet,
    /// Recording the next phase, before applying the StatefulSet of this mode.
    PatchingAdvancedStatus(StatefulSetMode),
    ApplyingAdvancedStatefulSet,
    PatchingStatus,
    Finished,
}

/// The mathematical value of [`ReconcileStage`].
pub enum ReconcileStageView {
    ApplyingService(u64),
    ListingLocalServices,
    DeletingLocalServices(Seq<Seq<char>>, usize),
    ApplyingStatefulSet,
    ReadingStatefulSet,
    PatchingAdvancedStatus(StatefulSetMode),
    ApplyingAdvancedStatefulSet,
    PatchingStatus,
    Finished,
}

impl DeepView for ReconcileStage {
    type V = ReconcileStageView;

    open spec fn deep_view(&self) -> ReconcileStageView {
        match self {
            ReconcileStage::ApplyingService(index) => ReconcileStageView::ApplyingService(*index),
            ReconcileStage::ListingLocalServices => ReconcileStageView::ListingLocalServices,
            ReconcileStage::DeletingLocalServices(doomed, next) => ReconcileStageView::DeletingLocalServices(
                doomed.deep_view(),
                *next,
            ),
            ReconcileStage::ApplyingStatefulSet => ReconcileStageView::ApplyingStatefulSet,
            ReconcileStage::ReadingStatefulSet => ReconcileStageView::ReadingStatefulSet,
            ReconcileStage::PatchingAdvancedStatus(mode) => ReconcileStageView::PatchingAdvancedStatus(
                *mode,
            ),
            ReconcileStage::ApplyingAdvancedStatefulSet => ReconcileStageView::ApplyingAdvancedStatefulSet,
            ReconcileStage::PatchingStatus => ReconcileStageView::PatchingStatus,
            ReconcileStage::Finished => ReconcileStageView::Finished,
        }
    }
}

/// The number of Services that a pass applies: the headless and the client
/// service, then, with local access, the shared NodePort service and one per node.
pub open spec fn planned_service_count_of(cluster: NervixClusterView) -> int {
    match enabled_local_access_of(cluster) {
        Some(_) => 3 + normalized_replicas_of(cluster.spec),
        None => 2,
    }
}

/// The Service that a pass applies at the given index.
pub open spec fn planned_service_of(cluster: NervixClusterView, index: int) -> ServiceView {
    if index == 0 {
        headless_service_of(cluster)
    } else if index == 1 {
        cluster_service_of(cluster)
    } else {
        let access = enabled_local_access_of(cluster).unwrap();
        if index == 2 {
            bootstrap_local_service_of(cluster, access)
        } else {
            node_local_service_of(cluster, access, index - 3)
        }
    }
}

/// The pass ends with the failure.
pub open spec fn fail_of(failure: ApiFailureView) -> (ReconcileStageView, ReconcileCommandView) {
    (ReconcileStageView::Finished, ReconcileCommandView::Finish(Err(ErrorView::Kube(failure))))
}

/// The StatefulSet of the cluster's current phase is applied.
pub open spec fn apply_stateful_set_of(cluster: NervixClusterView) -> (
    ReconcileStageView,
    ReconcileCommandView,
) {
    (
        ReconcileStageView::ApplyingStatefulSet,
        ReconcileCommandView::ApplyStatefulSet(
            stateful_set_of(cluster, mode_of(initialization_phase_of(cluster))),
        ),
    )
}

/// After the listing: delete the first doomed Service, or go on to the StatefulSet.
pub open spec fn after_listing_of(cluster: NervixClusterView, listed: Seq<Seq<char>>) -> (
    ReconcileStageView,
    ReconcileCommandView,
) {
    let doomed = services_to_prune_of(listed, desired_local_service_names_of(cluster));
    if doomed.len() == 0 {
        apply_stateful_set_of(cluster)
    } else {
        (
            ReconcileStageView::DeletingLocalServices(doomed, 0),
            ReconcileCommandView::DeleteService(doomed[0]),
        )
    }
}

/// After a deletion: delete the next doomed Service, or go on to the StatefulSet.
pub open spec fn after_deletion_of(
    cluster: NervixClusterView,
    doomed: Seq<Seq<char>>,
    next: int,
) -> (ReconcileStageView, ReconcileCommandView) {
    if next + 1 < doomed.len() {
        (
            ReconcileStageView::DeletingLocalServices(doomed, (next + 1) as usize),
            ReconcileCommandView::DeleteService(doomed[next + 1]),
        )
    } else {
        apply_stateful_set_of(cluster)
    }
}

/// The ready pod count that a StatefulSet reports, zero if it reports none.
pub open spec fn ready_replicas_of(stateful_set: StatefulSetView) -> i32 {
    match stateful_set.status {
        Some(status) => match status.ready_replicas {
            Some(ready) => ready,
            None => 0,
        },
        None => 0,
    }
}

/// After reading the StatefulSet: once the one-pod set of a phase has rolled
/// out, record the next phase; otherwise record the current one.
pub open spec fn after_fetch_of(cluster: NervixClusterView, stateful_set: StatefulSetView) -> (
    ReconcileStageView,
    ReconcileCommandView,
) {
    let phase = initialization_phase_of(cluster);
    let desired = mode_replicas(cluster.spec, mode_of(phase));
    let ready = ready_replicas_of(stateful_set);
    if rollout_complete_of(stateful_set, desired) && phase == Some(
        NervixClusterInitializationPhase::Initializing,
    ) {
        (
            ReconcileStageView::PatchingAdvancedStatus(StatefulSetMode::RemovingCredentials),
            ReconcileCommandView::PatchStatus(
                status_of(
                    cluster,
                    ready,
                    Some(NervixClusterInitializationPhase::RemovingCredentials),
                ),
            ),
        )
    } else if rollout_complete_of(stateful_set, desired) && phase == Some(
        NervixClusterInitializationPhase::RemovingCredentials,
    ) {
        (
            ReconcileStageView::PatchingAdvancedStatus(StatefulSetMode::Running),
            ReconcileCommandView::PatchStatus(
                status_of(cluster, ready, Some(NervixClusterInitializationPhase::Initialized)),
            ),
        )
    } else {
        (
            ReconcileStageView::PatchingStatus,
            ReconcileCommandView::PatchStatus(status_of(cluster, ready, phase)),
        )
    }
}

/// The events that a stage waits for.
pub open spec fn accepts_of(stage: ReconcileStageView, event: ReconcileEventView) -> bool {
    match stage {
        ReconcileStageView::Finished => false,
        ReconcileStageView::ListingLocalServices => event is ListedServices || event is Failed,
        ReconcileStageView::ReadingStatefulSet => event is FetchedStatefulSet || event is Failed,
        _ => event is Succeeded || event is Failed,
    }
}

/// The first command of a pass: fail at once without a namespace, else apply
/// the first planned Service.
pub open spec fn begin_of(cluster: NervixClusterView) -> (ReconcileStageView, ReconcileCommandView) {
    if cluster.metadata.namespace is None {
        (
            ReconcileStageView::Finished,
            ReconcileCommandView::Finish(
                Err(ErrorView::MissingNamespace(cluster_name(cluster))),
            ),
        )
    } else {
        (
            ReconcileStageView::ApplyingService(0),
            ReconcileCommandView::ApplyService(planned_service_of(cluster, 0)),
        )
    }
}

/// One step of a pass: the stage it moves to and the command it issues, given
/// the stage it was in and the result of its last command. A failed call ends
/// the pass with the failure, except that a Service that is already gone
/// (404) counts as deleted.
pub open spec fn step_of(
    cluster: NervixClusterView,
    stage: ReconcileStageView,
    event: ReconcileEventView,
) -> (ReconcileStageView, ReconcileCommandView) {
    match event {
        ReconcileEventView::Failed(failure) => match stage {
            ReconcileStageView::DeletingLocalServices(doomed, next) => if failure.code == Some(
                404u16,
            ) {
                after_deletion_of(cluster, doomed, next as int)
            } else {
                fail_of(failure)
            },
            _ => fail_of(failure),
        },
        _ => match stage {
            ReconcileStageView::ApplyingService(index) => if index + 1
                < planned_service_count_of(cluster) {
                (
                    ReconcileStageView::ApplyingService((index + 1) as u64),
                    ReconcileCommandView::ApplyService(planned_service_of(cluster, index + 1)),
                )
            } else {
                (
                    ReconcileStageView::ListingLocalServices,
                    ReconcileCommandView::ListLocalServices(local_access_selector_of(cluster)),
                )
            },
            ReconcileStageView::ListingLocalServices => match event {
                ReconcileEventView::ListedServices(listed) => after_listing_of(cluster, listed),
                _ => after_listing_of(cluster, Seq::empty()),
            },
            ReconcileStageView::DeletingLocalServices(doomed, next) => after_deletion_of(
                cluster,
                doomed,
                next as int,
            ),
            ReconcileStageView::ApplyingStatefulSet => (
                ReconcileStageView::ReadingStatefulSet,
                ReconcileCommandView::GetStatefulSet(cluster_name(cluster)),
            ),
            ReconcileStageView::ReadingStatefulSet => match event {
                ReconcileEventView::FetchedStatefulSet(set) => after_fetch_of(cluster, set),
                _ => (ReconcileStageView::ReadingStatefulSet, ReconcileCommandView::GetStatefulSet(
                    cluster_name(cluster),
                )),
            },
            ReconcileStageView::PatchingAdvancedStatus(mode) => (
                ReconcileStageView::ApplyingAdvancedStatefulSet,
                ReconcileCommandView::ApplyStatefulSet(stateful_set_of(cluster, mode)),
            ),
            ReconcileStageView::ApplyingAdvancedStatefulSet => (
                ReconcileStageView::Finished,
                ReconcileCommandView::Finish(Ok(requeue_soon())),
            ),
            ReconcileStageView::PatchingStatus => (
                ReconcileStageView::Finished,
                ReconcileCommandView::Finish(Ok(requeue_later())),
            ),
            ReconcileStageView::Finished => (
                ReconcileStageView::Finished,
                ReconcileCommandView::Finish(Ok(requeue_later())),
            ),
        },
    }
}

/// Whether every NodePort of every node of the cluster fits an `i32`, so that
/// a reconcile pass can build all of its Services.
pub fn node_ports_in_range(cluster: &NervixCluster) -> (fit: bool)
    ensures
        fit == node_services_fit(cluster.deep_view()),
{
    match enabled_local_access(cluster) {
        Some(access) => {
            let count = cluster.spec.normalized_replicas() as i64;
            let grpc = access.first_node_grpc_node_port as i64;
            let web_console = access.first_node_web_console_node_port as i64;
            let observability = access.first_node_observability_node_port as i64;
            grpc + count - 1 <= i32::MAX as i64 && web_console + count - 1 <= i32::MAX as i64
                && observability + count - 1 <= i32::MAX as i64
        },
        None => true,
    }
}

fn planned_service(cluster: &NervixCluster, index: u64) -> (service: Service)
    requires
        index < planned_service_count_of(cluster.deep_view()),
        node_services_fit(cluster.deep_view()),
    ensures
        service.deep_view() == planned_service_of(cluster.deep_view(), index as int),
{
    if index == 0 {
        headless_service(cluster)
    } else if index == 1 {
        cluster_service(cluster)
    } else {
        let access = enabled_local_access(cluster).unwrap();
        if index == 2 {
            bootstrap_local_service(cluster, &access)
        } else {
            let ordinal = (index - 3) as i32;
            node_local_service(cluster, &access, ordinal)
        }
    }
}

fn fail(failure: ApiFailure) -> (next: (ReconcileStage, ReconcileCommand))
    ensures
        next.deep_view() == fail_of(failure.deep_view()),
{
    (ReconcileStage::Finished, ReconcileCommand::Finish(Err(Error::Kube(failure))))
}

fn apply_first_stateful_set(cluster: &NervixCluster) -> (next: (ReconcileStage, ReconcileCommand))
    ensures
        next.deep_view() == apply_stateful_set_of(cluster.deep_view()),
{
    let mode = stateful_set_mode(initialization_phase(cluster));
    (ReconcileStage::ApplyingStatefulSet, ReconcileCommand::ApplyStatefulSet(stateful_set(cluster, mode)))
}

fn after_deletion(cluster: &NervixCluster, doomed: Vec<String>, next: usize) -> (step: (
    ReconcileStage,
    ReconcileCommand,
))
    ensures
        step.deep_view() == after_deletion_of(cluster.deep_view(), doomed.deep_view(), next as int),
{
    if next < doomed.len() && next + 1 < doomed.len() {
        let name = doomed[next + 1].clone();
        (ReconcileStage::DeletingLocalServices(doomed, next + 1), ReconcileCommand::DeleteService(name))
    } else {
        apply_first_stateful_set(cluster)
    }
}

fn after_listing(cluster: &NervixCluster, listed: &Vec<String>) -> (step: (
    ReconcileStage,
    ReconcileCommand,
))
    ensures
        step.deep_view() == after_listing_of(cluster.deep_view(), listed.deep_view()),
{
    let desired = desired_local_service_names(cluster);
    let doomed = services_to_prune(listed, &desired);
    if doomed.len() == 0 {
        apply_first_stateful_set(cluster)
    } else {
        let name = doomed[0].clone();
        (ReconcileStage::DeletingLocalServices(doomed, 0), ReconcileCommand::DeleteService(name))
    }
}

fn after_fetch(cluster: &NervixCluster, stateful_set: &StatefulSet) -> (step: (
    ReconcileStage,
    ReconcileCommand,
))
    requires
        advertised_ports_fit(cluster.deep_view()),
    ensures
        step.deep_view() == after_fetch_of(cluster.deep_view(), stateful_set.deep_view()),
{
    let phase = initialization_phase(cluster);
    let mode = stateful_set_mode(phase);
    let desired = match mode {
        StatefulSetMode::Running => cluster.spec.normalized_replicas(),
        _ => 1,
    };
    let ready = match &stateful_set.status {
        Some(observed) => match observed.ready_replicas {
            Some(ready) => ready,
            None => 0,
        },
        None => 0,
    };
    let complete = stateful_set_rollout_complete(stateful_set, desired);
    if complete && phase == Some(NervixClusterInitializationPhase::Initializing) {
        (
            ReconcileStage::PatchingAdvancedStatus(StatefulSetMode::RemovingCredentials),
            ReconcileCommand::PatchStatus(
                status(cluster, ready, Some(NervixClusterInitializationPhase::RemovingCredentials)),
            ),
        )
    } else if complete && phase == Some(NervixClusterInitializationPhase::RemovingCredentials) {
        (
            ReconcileStage::PatchingAdvancedStatus(StatefulSetMode::Running),
            ReconcileCommand::PatchStatus(
                status(cluster, ready, Some(NervixClusterInitializationPhase::Initialized)),
            ),
        )
    } else {
        (ReconcileStage::PatchingStatus, ReconcileCommand::PatchStatus(status(cluster, ready, phase)))
    }
}

/// One reconcile pass over a cluster: a state machine that issues Kubernetes
/// API calls one at a time and is handed back each call's result.
#[derive(Debug)]
pub struct Reconciliation {
    pub cluster: NervixCluster,
    pub stage: ReconcileStage,
}

impl Reconciliation {
    /// Starts a pass over the cluster and gives its first command.
    pub fn begin(cluster: NervixCluster) -> (started: (Reconciliation, ReconcileCommand))
        requires
            cluster.deep_view().metadata.namespace is Some ==> node_services_fit(
                cluster.deep_view(),
            ),
        ensures
            started.0.cluster == cluster,
            (started.0.stage.deep_view(), started.1.deep_view()) == begin_of(cluster.deep_view()),
    {
        if cluster.metadata.namespace.is_none() {
            let name = cluster.name_any();
            (
                Reconciliation { cluster, stage: ReconcileStage::Finished },
                ReconcileCommand::Finish(Err(Error::MissingNamespace(name))),
            )
        } else {
            let service = planned_service(&cluster, 0);
            (
                Reconciliation { cluster, stage: ReconcileStage::ApplyingService(0) },
                ReconcileCommand::ApplyService(service),
            )
        }
    }

    /// Whether the pass waits for this kind of result (see [`accepts_of`]).
    pub fn accepts(&self, event: &ReconcileEvent) -> (accepted: bool)
        ensures
            accepted == accepts_of(self.stage.deep_view(), event.deep_view()),
    {
        match &self.stage {
            ReconcileStage::Finished => false,
            ReconcileStage::ListingLocalServices => match event {
                ReconcileEvent::ListedServices(_) | ReconcileEvent::Failed(_) => true,
                _ => false,
            },
            ReconcileStage::ReadingStatefulSet => match event {
                ReconcileEvent::FetchedStatefulSet(_) | ReconcileEvent::Failed(_) => true,
                _ => false,
            },
            _ => match event {
                ReconcileEvent::Succeeded | ReconcileEvent::Failed(_) => true,
                _ => false,
            },
        }
    }

    /// Whether the pass is over.
    pub fn is_finished(&self) -> (finished: bool)
        ensures
            finished == (self.stage.deep_view() is Finished),
    {
        match self.stage {
            ReconcileStage::Finished => true,
            _ => false,
        }
    }

    /// Hands the pass the result of its last command and gives the next command.
    /// The cluster's node ports must fit an `i32`, as [`Reconciliation::begin`]
    /// asks of every pass that gets past its first command.
    pub fn step(&mut self, event: ReconcileEvent) -> (command: ReconcileCommand)
        requires
            node_services_fit(old(self).cluster.deep_view()),
            accepts_of(old(self).stage.deep_view(), event.deep_view()),
        ensures
            final(self).cluster == old(self).cluster,
            (final(self).stage.deep_view(), command.deep_view()) == step_of(
                old(self).cluster.deep_view(),
                old(self).stage.deep_view(),
                event.deep_view(),
            ),
    {
        let mut stage = ReconcileStage::Finished;
        core::mem::swap(&mut stage, &mut self.stage);
        let cluster = &self.cluster;
        let (next, command) = match event {
            ReconcileEvent::Failed(failure) => match stage {
                ReconcileStage::DeletingLocalServices(doomed, next) => if failure.code == Some(
                    404u16,
                ) {
                    after_deletion(cluster, doomed, next)
                } else {
                    fail(failure)
                },
                _ => fail(failure),
            },
            ReconcileEvent::ListedServices(listed) => after_listing(cluster, &listed),
            ReconcileEvent::FetchedStatefulSet(set) => after_fetch(cluster, &set),
            ReconcileEvent::Succeeded => match stage {
                ReconcileStage::ApplyingService(index) => {
                    let count: u64 = match enabled_local_access(cluster) {
                        Some(_) => 3 + cluster.spec.normalized_replicas() as u64,
                        None => 2,
                    };
                    if index < count - 1 {
                        (
                            ReconcileStage::ApplyingService(index + 1),
                            ReconcileCommand::ApplyService(planned_service(cluster, index + 1)),
                        )
                    } else {
                        (
                            ReconcileStage::ListingLocalServices,
                            ReconcileCommand::ListLocalServices(local_access_selector(cluster)),
                        )
                    }
                },
                ReconcileStage::DeletingLocalServices(doomed, next) => after_deletion(
                    cluster,
                    doomed,
                    next,
                ),
                ReconcileStage::ApplyingStatefulSet => (
                    ReconcileStage::ReadingStatefulSet,
                    ReconcileCommand::GetStatefulSet(cluster.name_any()),
                ),
                ReconcileStage::PatchingAdvancedStatus(mode) => (
                    ReconcileStage::ApplyingAdvancedStatefulSet,
                    ReconcileCommand::ApplyStatefulSet(stateful_set(cluster, mode)),
                ),
                ReconcileStage::ApplyingAdvancedStatefulSet => (
                    ReconcileStage::Finished,
                    ReconcileCommand::Finish(Ok(Action { requeue_after_seconds: 2 })),
                ),
                _ => (
                    ReconcileStage::Finished,
                    ReconcileCommand::Finish(Ok(Action { requeue_after_seconds: 30 })),
                ),
            },
        };
        self.stage = next;
        command
    }
}

} // verus!
