//! Properties that hold of the library as a whole: of the manifests together,
//! of the reported status against the services, and of the reconcile pass.
use vstd::prelude::*;

use crate::api::{
    normalized_replicas_of, resolved_cluster_id_of, LocalAccessSpecView, NervixClusterInitializationPhase,
    NervixClusterStatusView, NervixClusterView,
};
use crate::controller::{
    accepts_of, begin_of, desired_local_service_names_of, initialization_phase_of, mode_of,
    planned_service_count_of, recorded_phase_of, rollout_complete_of, services_to_prune_of,
    step_of, ApiFailureView, ErrorView, ReconcileCommandView, ReconcileEventView,
    ReconcileStageView,
};
use crate::manifests::{
    bootstrap_local_service_of, cluster_name, cluster_service_of, component_labels_of,
    container_env_of, container_of, enabled_local_access_of, headless_service_name_of,
    script_grpc_advertise_of, script_web_console_advertise_of, startup_script_of, headless_service_of, host_port,
    initial_password_env_name, initial_password_probe_of, local_service_name_of, mode_replicas,
    node_local_service_name_of, node_local_service_of, node_ports_fit, node_status_of, pod_name_of,
    secret_env_of, selector_labels_of, stateful_set_of, status_of, StatefulSetMode,
};
use crate::objects::{
    distinct_keys, entry_value, name_any_of, ContainerView, EnvVarView, StatefulSetView,
};
use crate::text::{decimal, decimal_nat, digit_char};

verus! {

/// Every entry of `selector` is matched by `labels`.
pub open spec fn selects(selector: Seq<(Seq<char>, Seq<char>)>, labels: Seq<(Seq<char>, Seq<char>)>) -> bool {
    forall|i: int| 0 <= i < selector.len() ==> entry_value(labels, #[trigger] selector[i].0) == Some(selector[i].1)
}

/// The labels of the pods of a StatefulSet.
pub open spec fn pod_labels_of(set: StatefulSetView) -> Seq<(Seq<char>, Seq<char>)> {
    set.spec.unwrap().template.metadata.unwrap().labels.unwrap()
}

/// The environment of the (single) container of a StatefulSet's pods.
pub open spec fn pod_env_of(set: StatefulSetView) -> Seq<EnvVarView> {
    set.spec.unwrap().template.spec.unwrap().containers[0].env.unwrap()
}

/// Some variable of the environment has the given name.
pub open spec fn env_names(env: Seq<EnvVarView>, name: Seq<char>) -> bool {
    exists|i: int| 0 <= i < env.len() && #[trigger] env[i].name == name
}

proof fn lemma_label_keys_differ()
    ensures
        "app.kubernetes.io/name"@ != "app.kubernetes.io/instance"@,
        "app.kubernetes.io/name"@ != "app.kubernetes.io/component"@,
        "app.kubernetes.io/name"@ != "app.kubernetes.io/managed-by"@,
        "app.kubernetes.io/instance"@ != "app.kubernetes.io/component"@,
        "app.kubernetes.io/instance"@ != "app.kubernetes.io/managed-by"@,
        "app.kubernetes.io/component"@ != "app.kubernetes.io/managed-by"@,
{
    reveal_strlit("app.kubernetes.io/name");
    reveal_strlit("app.kubernetes.io/instance");
    reveal_strlit("app.kubernetes.io/component");
    reveal_strlit("app.kubernetes.io/managed-by");
    assert("app.kubernetes.io/name"@[18] != "app.kubernetes.io/instance"@[18]);
    assert("app.kubernetes.io/name"@[18] != "app.kubernetes.io/component"@[18]);
    assert("app.kubernetes.io/name"@[18] != "app.kubernetes.io/managed-by"@[18]);
    assert("app.kubernetes.io/instance"@[18] != "app.kubernetes.io/component"@[18]);
    assert("app.kubernetes.io/instance"@[18] != "app.kubernetes.io/managed-by"@[18]);
    assert("app.kubernetes.io/component"@[18] != "app.kubernetes.io/managed-by"@[18]);
}

/// The label sets that the operator writes never name a key twice.
pub proof fn law_labels_have_distinct_keys(cluster: NervixClusterView, component: Seq<char>)
    ensures
        distinct_keys(selector_labels_of(cluster)),
        distinct_keys(component_labels_of(cluster, component)),
{
    lemma_label_keys_differ();
}

/// The pods of the StatefulSet, in every mode, carry all the labels that the
/// StatefulSet, the headless service, the client service and the shared
/// NodePort service select them by.
pub proof fn law_pod_labels_satisfy_selectors(cluster: NervixClusterView, mode: StatefulSetMode)
    ensures
        selects(
            stateful_set_of(cluster, mode).spec.unwrap().selector.match_labels.unwrap(),
            pod_labels_of(stateful_set_of(cluster, mode)),
        ),
        selects(
            headless_service_of(cluster).spec.unwrap().selector.unwrap(),
            pod_labels_of(stateful_set_of(cluster, mode)),
        ),
        selects(
            cluster_service_of(cluster).spec.unwrap().selector.unwrap(),
            pod_labels_of(stateful_set_of(cluster, mode)),
        ),
        forall|access: LocalAccessSpecView|
            selects(
                #[trigger] bootstrap_local_service_of(cluster, access).spec.unwrap().selector.unwrap(),
                pod_labels_of(stateful_set_of(cluster, mode)),
            ),
{
    lemma_label_keys_differ();
    let labels = component_labels_of(cluster, "application"@);
    reveal_with_fuel(entry_value, 3);
    assert(entry_value(labels, "app.kubernetes.io/name"@) == Some("nervix"@));
    assert(labels.drop_first()[0] == labels[1]);
    assert(entry_value(labels, "app.kubernetes.io/instance"@) == Some(labels[1].1));
    assert(pod_labels_of(stateful_set_of(cluster, mode)) == labels);
}

proof fn lemma_env_names_differ()
    ensures
        "POD_NAMESPACE"@ != initial_password_env_name(),
        "HOST_IP"@ != initial_password_env_name(),
        "RUST_LOG"@ != initial_password_env_name(),
{
    reveal_strlit("POD_NAMESPACE");
    reveal_strlit("HOST_IP");
    reveal_strlit("RUST_LOG");
    reveal_strlit("NERVIX_INIT_DEFAULT_USER_PASSWORD");
    assert("POD_NAMESPACE"@[0] != initial_password_env_name()[0]);
    assert("HOST_IP"@[0] != initial_password_env_name()[0]);
    assert("RUST_LOG"@[0] != initial_password_env_name()[0]);
}

/// The initial password reaches a pod only in the initializing StatefulSet of a
/// cluster that names a password Secret; there it comes from that Secret, which
/// must exist, and readiness means that the password authenticates. The other
/// modes use the plain HTTP readiness check.
pub proof fn law_initial_password_only_while_initializing(
    cluster: NervixClusterView,
    mode: StatefulSetMode,
)
    ensures
        env_names(pod_env_of(stateful_set_of(cluster, mode)), initial_password_env_name()) <==> (
        mode == StatefulSetMode::Initializing
            && cluster.spec.initial_default_user_password_secret_ref is Some),
        mode == StatefulSetMode::Initializing
            && cluster.spec.initial_default_user_password_secret_ref is Some ==> pod_env_of(
            stateful_set_of(cluster, mode),
        ).last() == secret_env_of(
            initial_password_env_name(),
            cluster.spec.initial_default_user_password_secret_ref.unwrap(),
        ),
        mode == StatefulSetMode::Initializing ==> stateful_set_of(
            cluster,
            mode,
        ).spec.unwrap().template.spec.unwrap().containers[0].readiness_probe
            == Some(initial_password_probe_of()),
        mode != StatefulSetMode::Initializing ==> stateful_set_of(
            cluster,
            mode,
        ).spec.unwrap().template.spec.unwrap().containers[0].readiness_probe.unwrap().http_get
            is Some,
{
    lemma_env_names_differ();
    let env = pod_env_of(stateful_set_of(cluster, mode));
    assert(env == container_env_of(cluster, mode));
    if mode == StatefulSetMode::Initializing
        && cluster.spec.initial_default_user_password_secret_ref is Some {
        assert(env[3].name == initial_password_env_name());
    } else {
        if env_names(env, initial_password_env_name()) {
            let i = choose|i: int| 0 <= i < env.len() && #[trigger] env[i].name == initial_password_env_name();
            assert(env.len() == 3);
            assert(false);
        }
    }
}

/// The StatefulSet runs a single pod while the password is set up or removed,
/// and the normalized replica count (at least one) otherwise; every pod gets one
/// container and one data volume.
pub proof fn law_replicas_by_mode(cluster: NervixClusterView, mode: StatefulSetMode)
    ensures
        stateful_set_of(cluster, mode).spec.unwrap().replicas == Some(
            mode_replicas(cluster.spec, mode),
        ),
        mode != StatefulSetMode::Running ==> stateful_set_of(cluster, mode).spec.unwrap().replicas
            == Some(1i32),
        mode == StatefulSetMode::Running ==> stateful_set_of(cluster, mode).spec.unwrap().replicas
            == Some(normalized_replicas_of(cluster.spec)),
        normalized_replicas_of(cluster.spec) >= 1,
        cluster.spec.replicas >= 1 ==> normalized_replicas_of(cluster.spec) == cluster.spec.replicas,
        stateful_set_of(cluster, mode).spec.unwrap().volume_claim_templates.unwrap().len() == 1,
        stateful_set_of(cluster, mode).spec.unwrap().template.spec.unwrap().containers.len() == 1,
{
}

/// The status lists one node per replica, in ordinal order, named after its pod,
/// and reports the given ready count and phase.
pub proof fn law_status_lists_every_node(
    cluster: NervixClusterView,
    ready_replicas: i32,
    phase: Option<NervixClusterInitializationPhase>,
)
    ensures
        status_of(cluster, ready_replicas, phase).replicas == normalized_replicas_of(cluster.spec),
        status_of(cluster, ready_replicas, phase).nodes.len() == normalized_replicas_of(
            cluster.spec,
        ),
        status_of(cluster, ready_replicas, phase).ready_replicas == ready_replicas,
        status_of(cluster, ready_replicas, phase).initialization_phase == phase,
        forall|ordinal: int|
            0 <= ordinal < normalized_replicas_of(cluster.spec) ==> {
                &&& (#[trigger] status_of(cluster, ready_replicas, phase).nodes[ordinal]).ordinal
                    == ordinal
                &&& status_of(cluster, ready_replicas, phase).nodes[ordinal].name == pod_name_of(
                    cluster,
                    ordinal,
                )
            },
{
}

/// With local access, the node status of each pod advertises its gRPC and web
/// console addresses at exactly the NodePorts of that pod's own NodePort
/// service, and that service selects exactly that pod.
pub proof fn law_node_addresses_match_node_services(
    cluster: NervixClusterView,
    ready_replicas: i32,
    phase: Option<NervixClusterInitializationPhase>,
    ordinal: int,
)
    requires
        enabled_local_access_of(cluster) is Some,
        0 <= ordinal < normalized_replicas_of(cluster.spec),
        node_ports_fit(enabled_local_access_of(cluster).unwrap(), ordinal),
    ensures
        ({
            let access = enabled_local_access_of(cluster).unwrap();
            let node = status_of(cluster, ready_replicas, phase).nodes[ordinal];
            let service = node_local_service_of(cluster, access, ordinal).spec.unwrap();
            &&& service.selector == Some(
                seq![("statefulset.kubernetes.io/pod-name"@, node.name)],
            )
            &&& service.ports.unwrap()[0].name == Some("grpc"@)
            &&& node.grpc_advertise_address == host_port(
                "$(HOST_IP)"@,
                service.ports.unwrap()[0].node_port.unwrap() as int,
            )
            &&& service.ports.unwrap()[1].name == Some("web-console"@)
            &&& node.web_console_advertise_address == host_port(
                "$(HOST_IP)"@,
                service.ports.unwrap()[1].node_port.unwrap() as int,
            )
        }),
{
}

proof fn lemma_decimal_nat_nonempty(n: nat)
    ensures
        decimal_nat(n).len() >= 1,
        n >= 10 ==> decimal_nat(n).len() >= 2,
    decreases n,
{
    if n >= 10 {
        lemma_decimal_nat_nonempty(n / 10);
    }
}

proof fn lemma_decimal_nat_injective(a: nat, b: nat)
    requires
        decimal_nat(a) == decimal_nat(b),
    ensures
        a == b,
    decreases a,
{
    lemma_decimal_nat_nonempty(a);
    lemma_decimal_nat_nonempty(b);
    if a < 10 && b < 10 {
        assert(decimal_nat(a)[0] == digit_char(a as int));
        assert(decimal_nat(b)[0] == digit_char(b as int));
    } else if a >= 10 && b >= 10 {
        let pa = decimal_nat(a / 10);
        let pb = decimal_nat(b / 10);
        assert(decimal_nat(a) == pa + seq![digit_char((a % 10) as int)]);
        assert(decimal_nat(b) == pb + seq![digit_char((b % 10) as int)]);
        assert(decimal_nat(a).last() == digit_char((a % 10) as int));
        assert(decimal_nat(b).last() == digit_char((b % 10) as int));
        assert(pa =~= decimal_nat(a).drop_last());
        assert(pb =~= decimal_nat(b).drop_last());
        lemma_decimal_nat_injective(a / 10, b / 10);
    } else {
        assert(decimal_nat(a).len() != decimal_nat(b).len());
    }
}

/// Distinct natural numbers have distinct decimal renderings.
pub proof fn law_decimal_injective(a: int, b: int)
    requires
        a >= 0,
        b >= 0,
        a != b,
    ensures
        decimal(a) != decimal(b),
{
    if decimal(a) == decimal(b) {
        lemma_decimal_nat_injective(a as nat, b as nat);
    }
}

proof fn lemma_distinct_suffixes(prefix: Seq<char>, a: Seq<char>, b: Seq<char>)
    requires
        a != b,
    ensures
        prefix + a != prefix + b,
{
    if prefix + a == prefix + b {
        assert(a =~= (prefix + a).skip(prefix.len() as int));
        assert(b =~= (prefix + b).skip(prefix.len() as int));
    }
}

/// With local access, the cluster wants the shared NodePort service and one
/// NodePort service per node, all under distinct names; without, none.
pub proof fn law_one_local_service_per_node(cluster: NervixClusterView)
    ensures
        enabled_local_access_of(cluster) is Some ==> desired_local_service_names_of(cluster).len()
            == 1 + normalized_replicas_of(cluster.spec),
        enabled_local_access_of(cluster) is None ==> desired_local_service_names_of(cluster).len()
            == 0,
        desired_local_service_names_of(cluster).no_duplicates(),
{
    let names = desired_local_service_names_of(cluster);
    if enabled_local_access_of(cluster) is Some {
        let n = normalized_replicas_of(cluster.spec) as int;
        reveal_strlit("-local");
        reveal_strlit("-local-node-");
        assert forall|i: int, j: int| 0 <= i < names.len() && 0 <= j < names.len() && i != j implies names[i] != names[j] by {
            if i > 0 && j > 0 {
                law_decimal_injective(i, j);
                lemma_distinct_suffixes(cluster_name(cluster) + "-local-node-"@, decimal(i), decimal(j));
                assert(names[i] == node_local_service_name_of(cluster, i - 1));
                assert(names[j] == node_local_service_name_of(cluster, j - 1));
            } else {
                let k = if i == 0 { j } else { i };
                assert(names[0] == local_service_name_of(cluster));
                assert(names[k] == node_local_service_name_of(cluster, k - 1));
                lemma_decimal_nat_nonempty(k as nat);
                assert(names[0].len() != names[k].len());
            }
        }
    } else {
        assert(names.len() == 0);
    }
}

/// Pruning deletes exactly the listed services that are not wanted: nothing
/// wanted, nothing unlisted, and every listed service that is not wanted.
pub proof fn law_prune_deletes_exactly_the_unwanted(listed: Seq<Seq<char>>, desired: Seq<Seq<char>>)
    ensures
        forall|name: Seq<char>|
            #[trigger] services_to_prune_of(listed, desired).contains(name) <==> (listed.contains(
                name,
            ) && !desired.contains(name)),
{
    let keep = |name: Seq<char>| !desired.contains(name);
    assert forall|name: Seq<char>|
        #[trigger] services_to_prune_of(listed, desired).contains(name) <==> (listed.contains(name)
            && !desired.contains(name)) by {
        if services_to_prune_of(listed, desired).contains(name) {
            listed.lemma_filter_contains_rev(keep, name);
            let i = choose|i: int| 0 <= i < listed.filter(keep).len() && listed.filter(keep)[i] == name;
            listed.lemma_filter_pred(keep, i);
        }
        if listed.contains(name) && !desired.contains(name) {
            let i = choose|i: int| 0 <= i < listed.len() && listed[i] == name;
            listed.lemma_filter_contains(keep, i);
        }
    }
}

/// The phase that follows a completed rollout of a one-pod phase.
pub open spec fn next_phase_of(phase: Option<NervixClusterInitializationPhase>) -> Option<
    NervixClusterInitializationPhase,
> {
    match phase {
        Some(NervixClusterInitializationPhase::Initializing) => Some(
            NervixClusterInitializationPhase::RemovingCredentials,
        ),
        Some(NervixClusterInitializationPhase::RemovingCredentials) => Some(
            NervixClusterInitializationPhase::Initialized,
        ),
        _ => phase,
    }
}

/// The StatefulSet mode that follows a completed rollout of a one-pod phase.
pub open spec fn advanced_mode_of(phase: Option<NervixClusterInitializationPhase>) -> StatefulSetMode {
    mode_of(next_phase_of(phase))
}

/// The stages that a pass over the cluster can be in: it applies only planned
/// services, deletes only from its list of doomed services, and advances the
/// StatefulSet only to the mode that follows the cluster's phase.
pub open spec fn stage_valid(cluster: NervixClusterView, stage: ReconcileStageView) -> bool {
    match stage {
        ReconcileStageView::ApplyingService(index) => index < planned_service_count_of(cluster),
        ReconcileStageView::DeletingLocalServices(doomed, next) => next < doomed.len() <= usize::MAX,
        ReconcileStageView::PatchingAdvancedStatus(mode) => {
            let phase = initialization_phase_of(cluster);
            &&& phase == Some(NervixClusterInitializationPhase::Initializing)
                || phase == Some(NervixClusterInitializationPhase::RemovingCredentials)
            &&& mode == advanced_mode_of(phase)
        },
        _ => true,
    }
}

/// A result that an executable value can carry: a listing of at most
/// `usize::MAX` names.
pub open spec fn event_in_memory(event: ReconcileEventView) -> bool {
    event matches ReconcileEventView::ListedServices(listed) ==> listed.len() <= usize::MAX
}

/// A pass starts in a valid stage, and every step keeps its stage valid; the
/// pass issues `Finish` exactly when it ends.
pub proof fn law_passes_stay_valid(
    cluster: NervixClusterView,
    stage: ReconcileStageView,
    event: ReconcileEventView,
)
    ensures
        stage_valid(cluster, begin_of(cluster).0),
        (begin_of(cluster).0 is Finished) <==> (begin_of(cluster).1 is Finish),
        stage_valid(cluster, stage) && accepts_of(stage, event) && event_in_memory(event)
            ==> stage_valid(cluster, step_of(cluster, stage, event).0),
        accepts_of(stage, event) ==> ((step_of(cluster, stage, event).0 is Finished) <==> (step_of(
            cluster,
            stage,
            event,
        ).1 is Finish)),
{
    if let ReconcileEventView::ListedServices(listed) = event {
        let desired = desired_local_service_names_of(cluster);
        listed.lemma_filter_len(|name: Seq<char>| !desired.contains(name));
    }
}

/// A failed call ends the pass with that failure, except a deletion of a
/// Service that is already gone, which counts as done.
pub proof fn law_failures_end_the_pass(
    cluster: NervixClusterView,
    stage: ReconcileStageView,
    failure: ApiFailureView,
)
    requires
        accepts_of(stage, ReconcileEventView::Failed(failure)),
    ensures
        (stage is DeletingLocalServices && failure.code == Some(404u16)) ==> step_of(
            cluster,
            stage,
            ReconcileEventView::Failed(failure),
        ) == step_of(cluster, stage, ReconcileEventView::Succeeded),
        !(stage is DeletingLocalServices && failure.code == Some(404u16)) ==> step_of(
            cluster,
            stage,
            ReconcileEventView::Failed(failure),
        ) == (
            ReconcileStageView::Finished,
            ReconcileCommandView::Finish(Err(ErrorView::Kube(failure))),
        ),
{
}

/// The initial password is handed to a StatefulSet only by the first apply of a
/// pass over a cluster in the initializing phase; never when the pass advances.
pub proof fn law_password_only_in_the_initializing_apply(
    cluster: NervixClusterView,
    stage: ReconcileStageView,
    event: ReconcileEventView,
)
    requires
        stage_valid(cluster, stage),
        accepts_of(stage, event),
    ensures
        step_of(cluster, stage, event).1 matches ReconcileCommandView::ApplyStatefulSet(set)
            ==> (env_names(pod_env_of(set), initial_password_env_name()) ==> (
        initialization_phase_of(cluster) == Some(NervixClusterInitializationPhase::Initializing)
            && !(stage is PatchingAdvancedStatus))),
{
    let command = step_of(cluster, stage, event).1;
    if let ReconcileCommandView::ApplyStatefulSet(set) = command {
        if stage is PatchingAdvancedStatus && event !is Failed {
            let mode = advanced_mode_of(initialization_phase_of(cluster));
            law_initial_password_only_while_initializing(cluster, mode);
        } else {
            law_initial_password_only_while_initializing(
                cluster,
                mode_of(initialization_phase_of(cluster)),
            );
        }
    }
}

/// A pass scales the StatefulSet beyond one pod only for a cluster that is not
/// initializing, or right after the credential-free pod of the credential
/// removal has rolled out.
pub proof fn law_scale_up_only_after_credentials_are_removed(
    cluster: NervixClusterView,
    stage: ReconcileStageView,
    event: ReconcileEventView,
)
    requires
        stage_valid(cluster, stage),
        accepts_of(stage, event),
    ensures
        step_of(cluster, stage, event).1 matches ReconcileCommandView::ApplyStatefulSet(set)
            ==> (set.spec.unwrap().replicas != Some(1i32) ==> (initialization_phase_of(cluster)
            is None || initialization_phase_of(cluster) == Some(
            NervixClusterInitializationPhase::Initialized,
        ) || (initialization_phase_of(cluster) == Some(
            NervixClusterInitializationPhase::RemovingCredentials,
        ) && stage == ReconcileStageView::PatchingAdvancedStatus(StatefulSetMode::Running)))),
{
}

/// A pass advances the initialization only on reading a StatefulSet whose
/// one-pod rollout is complete, and then records exactly the next phase.
pub proof fn law_advance_only_after_rollout(
    cluster: NervixClusterView,
    stage: ReconcileStageView,
    event: ReconcileEventView,
)
    requires
        accepts_of(stage, event),
    ensures
        step_of(cluster, stage, event).0 is PatchingAdvancedStatus ==> {
            &&& stage is ReadingStatefulSet
            &&& event matches ReconcileEventView::FetchedStatefulSet(set) && rollout_complete_of(
                set,
                1,
            )
            &&& step_of(cluster, stage, event).1 matches ReconcileCommandView::PatchStatus(status)
                && status.initialization_phase == next_phase_of(initialization_phase_of(cluster))
            &&& next_phase_of(initialization_phase_of(cluster)) != initialization_phase_of(cluster)
        },
        step_of(cluster, stage, event).1 matches ReconcileCommandView::PatchStatus(status) ==> (
        status.initialization_phase == initialization_phase_of(cluster)
            || status.initialization_phase == next_phase_of(initialization_phase_of(cluster))),
{
}

/// The phase that a pass records in the status is the phase that the next pass
/// works in: a recorded credential removal or completed initialization holds
/// even if the password Secret is no longer named, while a recorded
/// initialization goes on only as long as the Secret is named.
pub proof fn law_recorded_phase_is_resumed(cluster: NervixClusterView, status: NervixClusterStatusView)
    ensures
        ({
            let next = NervixClusterView { status: Some(status), ..cluster };
            &&& (status.initialization_phase == Some(
                NervixClusterInitializationPhase::RemovingCredentials)
                || status.initialization_phase == Some(
                NervixClusterInitializationPhase::Initialized)) ==> initialization_phase_of(next)
                == status.initialization_phase
            &&& (status.initialization_phase is None || status.initialization_phase == Some(
                NervixClusterInitializationPhase::Initializing)) ==> initialization_phase_of(next)
                == (if cluster.spec.initial_default_user_password_secret_ref is Some {
                Some(NervixClusterInitializationPhase::Initializing)
            } else {
                None
            })
        }),
{
}

/// Initialization happens once: a cluster whose status records that the
/// credentials are being removed, or that initialization is done, never again
/// gets a StatefulSet that hands out the initial password, whatever its spec names.
pub proof fn law_initialization_happens_once(cluster: NervixClusterView)
    requires
        recorded_phase_of(cluster) == Some(NervixClusterInitializationPhase::RemovingCredentials)
            || recorded_phase_of(cluster) == Some(NervixClusterInitializationPhase::Initialized),
    ensures
        initialization_phase_of(cluster) == recorded_phase_of(cluster),
        !env_names(
            pod_env_of(stateful_set_of(cluster, mode_of(initialization_phase_of(cluster)))),
            initial_password_env_name(),
        ),
{
    law_initial_password_only_while_initializing(cluster, mode_of(initialization_phase_of(cluster)));
}

/// How far a stage is from the end of its pass, by kind of step: applying
/// services, listing, deleting, applying the StatefulSet, reading it, recording
/// an advanced phase, the last apply or status patch, and the end.
pub open spec fn stage_order(stage: ReconcileStageView) -> int {
    match stage {
        ReconcileStageView::ApplyingService(_) => 7,
        ReconcileStageView::ListingLocalServices => 6,
        ReconcileStageView::DeletingLocalServices(_, _) => 5,
        ReconcileStageView::ApplyingStatefulSet => 4,
        ReconcileStageView::ReadingStatefulSet => 3,
        ReconcileStageView::PatchingAdvancedStatus(_) => 2,
        ReconcileStageView::ApplyingAdvancedStatefulSet => 1,
        ReconcileStageView::PatchingStatus => 1,
        ReconcileStageView::Finished => 0,
    }
}

/// How many steps of its kind a stage has left.
pub open spec fn stage_steps_left(cluster: NervixClusterView, stage: ReconcileStageView) -> int {
    match stage {
        ReconcileStageView::ApplyingService(index) => planned_service_count_of(cluster) - index,
        ReconcileStageView::DeletingLocalServices(doomed, next) => doomed.len() - next,
        _ => 0,
    }
}

/// Every pass ends: each step from a valid stage either moves to a later kind
/// of step, or stays at its kind with fewer steps of it left (never below zero).
pub proof fn law_every_pass_ends(
    cluster: NervixClusterView,
    stage: ReconcileStageView,
    event: ReconcileEventView,
)
    requires
        stage_valid(cluster, stage),
        accepts_of(stage, event),
    ensures
        ({
            let next = step_of(cluster, stage, event).0;
            ||| stage_order(next) < stage_order(stage)
            ||| (stage_order(next) == stage_order(stage) && 0 <= stage_steps_left(cluster, next)
                < stage_steps_left(cluster, stage))
        }),
{
}

/// The container is the same while credentials are removed as when running,
/// and while initializing it differs only in its readiness probe (the
/// authenticating check) and, when a password Secret is named, one trailing
/// variable that reads the password from that Secret.
pub proof fn law_container_differs_by_mode_only_in_password_and_readiness(
    cluster: NervixClusterView,
)
    ensures
        container_of(cluster, StatefulSetMode::RemovingCredentials) == container_of(
            cluster,
            StatefulSetMode::Running,
        ),
        container_of(cluster, StatefulSetMode::Initializing) == (ContainerView {
            readiness_probe: Some(initial_password_probe_of()),
            env: Some(container_env_of(cluster, StatefulSetMode::Initializing)),
            ..container_of(cluster, StatefulSetMode::Running)
        }),
        container_env_of(cluster, StatefulSetMode::Initializing) == container_env_of(
            cluster,
            StatefulSetMode::Running,
        ) + match cluster.spec.initial_default_user_password_secret_ref {
            Some(secret_ref) => seq![secret_env_of(initial_password_env_name(), secret_ref)],
            None => Seq::<EnvVarView>::empty(),
        },
{
    let base = container_env_of(cluster, StatefulSetMode::Running);
    match cluster.spec.initial_default_user_password_secret_ref {
        Some(secret_ref) => {
            assert(container_env_of(cluster, StatefulSetMode::Initializing) =~= base + seq![
                secret_env_of(initial_password_env_name(), secret_ref),
            ]);
        },
        None => {
            assert(container_env_of(cluster, StatefulSetMode::Initializing) =~= base
                + Seq::<EnvVarView>::empty());
        },
    }
}

/// With local access, the status entry of the node with any ordinal whose
/// NodePorts fit advertises its gRPC and web-console addresses at exactly the
/// NodePorts of that node's own NodePort service, in any namespace, and that
/// service selects exactly the pod the entry names.
pub proof fn law_node_status_matches_node_service(
    namespace: Seq<char>,
    cluster: NervixClusterView,
    ordinal: int,
)
    requires
        enabled_local_access_of(cluster) is Some,
        node_ports_fit(enabled_local_access_of(cluster).unwrap(), ordinal),
    ensures
        ({
            let access = enabled_local_access_of(cluster).unwrap();
            let node = node_status_of(namespace, cluster, ordinal);
            let service = node_local_service_of(cluster, access, ordinal).spec.unwrap();
            &&& service.selector == Some(
                seq![("statefulset.kubernetes.io/pod-name"@, node.name)],
            )
            &&& service.ports.unwrap()[0].name == Some("grpc"@)
            &&& node.grpc_advertise_address == host_port(
                "$(HOST_IP)"@,
                service.ports.unwrap()[0].node_port.unwrap() as int,
            )
            &&& service.ports.unwrap()[1].name == Some("web-console"@)
            &&& node.web_console_advertise_address == host_port(
                "$(HOST_IP)"@,
                service.ports.unwrap()[1].node_port.unwrap() as int,
            )
        }),
{
}

/// A StatefulSet counts as rolled out to `desired` pods only when its status
/// reports exactly `desired` pods, all of them ready and all of them updated,
/// running a known current revision that is the requested update revision, and
/// the controller has observed the latest generation (a missing generation or
/// observed generation reads as 0); and it counts as rolled out whenever all of
/// that holds.
pub proof fn law_rollout_complete_means_every_pod_ready_and_current(
    stateful_set: StatefulSetView,
    desired: i32,
)
    ensures
        rollout_complete_of(stateful_set, desired) ==> ({
            let status = stateful_set.status.unwrap();
            &&& stateful_set.status is Some
            &&& status.ready_replicas == Some(desired)
            &&& status.updated_replicas == Some(desired)
            &&& status.replicas == desired
            &&& status.current_revision is Some
            &&& status.update_revision == status.current_revision
            &&& stateful_set.metadata.generation.unwrap_or(0) <= status.observed_generation.unwrap_or(0)
        }),
        ({
            let status = stateful_set.status.unwrap();
            &&& stateful_set.status is Some
            &&& status.ready_replicas == Some(desired)
            &&& status.updated_replicas == Some(desired)
            &&& status.replicas == desired
            &&& status.current_revision is Some
            &&& status.update_revision == status.current_revision
            &&& stateful_set.metadata.generation.unwrap_or(0) <= status.observed_generation.unwrap_or(0)
        }) ==> rollout_complete_of(stateful_set, desired),
{
}

/// A pass leaves the one-pod phases only after reading a StatefulSet whose single
/// pod is ready (for the initializing pod: its authenticating readiness check has
/// passed) and runs the requested revision.
pub proof fn law_advance_needs_the_pod_ready(
    cluster: NervixClusterView,
    stateful_set: StatefulSetView,
)
    ensures
        step_of(
            cluster,
            ReconcileStageView::ReadingStatefulSet,
            ReconcileEventView::FetchedStatefulSet(stateful_set),
        ).0 is PatchingAdvancedStatus ==> {
            &&& stateful_set.status is Some
            &&& stateful_set.status.unwrap().ready_replicas == Some(1i32)
            &&& stateful_set.status.unwrap().current_revision is Some
            &&& stateful_set.status.unwrap().update_revision
                == stateful_set.status.unwrap().current_revision
        },
{
    law_rollout_complete_means_every_pod_ready_and_current(stateful_set, 1);
}

/// After reading the StatefulSet, a pass patches a status that reports as ready
/// exactly the ready pods that the StatefulSet reports (0 when it reports none),
/// whatever its other counts say; the replica count of the spec (at least one);
/// the cluster's observed generation; and one node per replica.
pub proof fn law_patched_status_reports_ready_pods(
    cluster: NervixClusterView,
    stateful_set: StatefulSetView,
)
    ensures
        step_of(
            cluster,
            ReconcileStageView::ReadingStatefulSet,
            ReconcileEventView::FetchedStatefulSet(stateful_set),
        ).1 matches ReconcileCommandView::PatchStatus(status) && {
            &&& status.ready_replicas == match stateful_set.status {
                Some(observed) => observed.ready_replicas.unwrap_or(0),
                None => 0,
            }
            &&& status.replicas == (if cluster.spec.replicas < 1 {
                1
            } else {
                cluster.spec.replicas
            })
            &&& status.observed_generation == cluster.metadata.generation
            &&& status.nodes.len() == status.replicas
        },
{
}

/// The label pair that every selector of the cluster's pods names: the
/// application and the cluster resource's name.
pub open spec fn selects_cluster_pods(
    selector: Seq<(Seq<char>, Seq<char>)>,
    cluster: NervixClusterView,
) -> bool {
    &&& entry_value(selector, "app.kubernetes.io/name"@) == Some("nervix"@)
    &&& entry_value(selector, "app.kubernetes.io/instance"@) == Some(name_any_of(cluster.metadata))
}

/// The StatefulSet, the headless service, the client service and the shared
/// NodePort service all select the cluster's pods by the application name and
/// the cluster's own name (so none selects nothing, or another cluster's pods);
/// each NodePort service of a node selects exactly that node's pod; and the
/// StatefulSet's governing service is the headless service.
pub proof fn law_services_select_the_cluster_pods(
    cluster: NervixClusterView,
    mode: StatefulSetMode,
    access: LocalAccessSpecView,
    ordinal: int,
)
    ensures
        selects_cluster_pods(
            stateful_set_of(cluster, mode).spec.unwrap().selector.match_labels.unwrap(),
            cluster,
        ),
        selects_cluster_pods(headless_service_of(cluster).spec.unwrap().selector.unwrap(), cluster),
        selects_cluster_pods(cluster_service_of(cluster).spec.unwrap().selector.unwrap(), cluster),
        selects_cluster_pods(
            bootstrap_local_service_of(cluster, access).spec.unwrap().selector.unwrap(),
            cluster,
        ),
        node_local_service_of(cluster, access, ordinal).spec.unwrap().selector == Some(
            seq![("statefulset.kubernetes.io/pod-name"@, name_any_of(cluster.metadata) + "-"@ + decimal(ordinal))],
        ),
        stateful_set_of(cluster, mode).spec.unwrap().service_name == headless_service_of(
            cluster,
        ).metadata.name,
        headless_service_of(cluster).spec.unwrap().cluster_ip == Some("None"@),
        headless_service_of(cluster).spec.unwrap().publish_not_ready_addresses == Some(true),
{
    lemma_label_keys_differ();
    reveal_with_fuel(entry_value, 3);
    let selector = selector_labels_of(cluster);
    assert(selector.drop_first()[0] == selector[1]);
}

// ---------------------------------------------------------------- startup script text

/// `part` occurs in `text`.
pub open spec fn contains_text(text: Seq<char>, part: Seq<char>) -> bool {
    exists|start: int|
        0 <= start && start + part.len() <= text.len() && #[trigger] text.subrange(
            start,
            start + part.len(),
        ) == part
}

proof fn lemma_contains_middle(before: Seq<char>, part: Seq<char>, after: Seq<char>)
    ensures
        contains_text(before + part + after, part),
{
    let text = before + part + after;
    assert(text.subrange(before.len() as int, (before.len() + part.len()) as int) =~= part);
}

spec fn seg0() -> Seq<char> {
    "ordinal=\"${HOSTNAME##*-}\"\nnode_number=$((ordinal + 1))\nnode_id=\"node-${node_number}\"\npod_fqdn=\"${HOSTNAME}."@
}

spec fn seg1() -> Seq<char> {
    ".${POD_NAMESPACE}.svc.cluster.local\"\nif [ \"${ordinal}\" = \"0\" ]; then\n  bootstrap_args=\"--allow-bootstrap\"\nelse\n  bootstrap_args=\"--cluster-bootstrap-host "@
}

spec fn seg2() -> Seq<char> {
    "-0."@
}

spec fn seg3() -> Seq<char> {
    ".${POD_NAMESPACE}.svc.cluster.local:47392\"\nfi\n\nexec /usr/local/bin/nervix-server \\\n  --addr 0.0.0.0:47391 \\\n  --grpc-mode http \\\n  --grpc-advertise-addr "@
}

spec fn seg4() -> Seq<char> {
    " \\\n  --http-listen-addr 0.0.0.0:8080 \\\n  --https-listen-addr 0.0.0.0:8443 \\\n  --observability-listen-addr 0.0.0.0:9090 \\\n  --web-console-listen-addr 0.0.0.0:47420 \\\n  --web-console-advertise-addr "@
}

spec fn seg5() -> Seq<char> {
    " \\\n  --cluster-id "@
}

spec fn seg6() -> Seq<char> {
    " \\\n  --node-id \"${node_id}\" \\\n  --cluster-listen-addr 0.0.0.0:47392 \\\n  --cluster-advertise-addr \"${pod_fqdn}:47392\" \\\n  --cluster-api-mode http \\\n  --cluster-api-listen-addr 0.0.0.0:47393 \\\n  --cluster-api-advertise-addr \"${pod_fqdn}:47393\" \\\n  --interconnect-mode http \\\n  --interconnect-listen-addr 0.0.0.0:47395 \\\n  --interconnect-advertise-addr \"${pod_fqdn}:47395\" \\\n  --replica-count "@
}

spec fn seg7() -> Seq<char> {
    " \\\n  --db-path /var/lib/nervix/db \\\n  ${bootstrap_args}\n"@
}

proof fn lemma_script_parts(cluster: NervixClusterView)
    ensures
        startup_script_of(cluster) == seg0() + headless_service_name_of(cluster) + seg1()
            + name_any_of(cluster.metadata) + seg2() + headless_service_name_of(cluster) + seg3()
            + script_grpc_advertise_of(cluster) + seg4() + script_web_console_advertise_of(cluster)
            + seg5() + resolved_cluster_id_of(cluster.spec, name_any_of(cluster.metadata)) + seg6()
            + decimal(normalized_replicas_of(cluster.spec) as int) + seg7(),
{
}

/// The gRPC address a node advertises, as the script computes it: with local
/// access present and enabled, the node's IP and the first node's gRPC NodePort
/// plus the pod ordinal; otherwise (absent or disabled) the pod's DNS name and
/// the gRPC port.
pub open spec fn expected_grpc_advertise(cluster: NervixClusterView) -> Seq<char> {
    match cluster.spec.local_access {
        Some(access) => if access.enabled {
            "\"${HOST_IP}:$(("@ + decimal(access.first_node_grpc_node_port as int) + " + ordinal))\""@
        } else {
            "\"${pod_fqdn}:47391\""@
        },
        None => "\"${pod_fqdn}:47391\""@,
    }
}

/// The web-console address a node advertises (see [`expected_grpc_advertise`]).
pub open spec fn expected_web_console_advertise(cluster: NervixClusterView) -> Seq<char> {
    match cluster.spec.local_access {
        Some(access) => if access.enabled {
            "\"${HOST_IP}:$(("@ + decimal(access.first_node_web_console_node_port as int) + " + ordinal))\""@
        } else {
            "\"${pod_fqdn}:47420\""@
        },
        None => "\"${pod_fqdn}:47420\""@,
    }
}

/// Every pod's startup script names pod 0 of the headless service as the host
/// to join when a node does not bootstrap the cluster itself.
pub proof fn law_startup_script_joins_pod_zero(cluster: NervixClusterView)
    ensures
        contains_text(
            startup_script_of(cluster),
            "--cluster-bootstrap-host "@ + pod_name_of(cluster, 0) + "."@ + headless_service_name_of(
                cluster,
            ) + ".${POD_NAMESPACE}.svc.cluster.local:47392"@,
        ),
{
    lemma_script_parts(cluster);
    reveal_strlit(".${POD_NAMESPACE}.svc.cluster.local\"\nif [ \"${ordinal}\" = \"0\" ]; then\n  bootstrap_args=\"--allow-bootstrap\"\nelse\n  bootstrap_args=\"--cluster-bootstrap-host ");
    reveal_strlit(".${POD_NAMESPACE}.svc.cluster.local\"\nif [ \"${ordinal}\" = \"0\" ]; then\n  bootstrap_args=\"--allow-bootstrap\"\nelse\n  bootstrap_args=\"");
    reveal_strlit("--cluster-bootstrap-host ");
    assert(seg1() =~= ".${POD_NAMESPACE}.svc.cluster.local\"\nif [ \"${ordinal}\" = \"0\" ]; then\n  bootstrap_args=\"--allow-bootstrap\"\nelse\n  bootstrap_args=\""@ + "--cluster-bootstrap-host "@);
    reveal_strlit(".${POD_NAMESPACE}.svc.cluster.local:47392\"\nfi\n\nexec /usr/local/bin/nervix-server \\\n  --addr 0.0.0.0:47391 \\\n  --grpc-mode http \\\n  --grpc-advertise-addr ");
    reveal_strlit(".${POD_NAMESPACE}.svc.cluster.local:47392");
    reveal_strlit("\"\nfi\n\nexec /usr/local/bin/nervix-server \\\n  --addr 0.0.0.0:47391 \\\n  --grpc-mode http \\\n  ");
    reveal_strlit("--grpc-advertise-addr ");
    assert(seg3() =~= ".${POD_NAMESPACE}.svc.cluster.local:47392"@ + "\"\nfi\n\nexec /usr/local/bin/nervix-server \\\n  --addr 0.0.0.0:47391 \\\n  --grpc-mode http \\\n  "@ + "--grpc-advertise-addr "@);
    reveal_strlit("-0.");
    reveal_strlit("-");
    reveal_strlit(".");
    reveal_strlit("--cluster-bootstrap-host ");
    reveal_strlit(".${POD_NAMESPACE}.svc.cluster.local:47392");
    let name = name_any_of(cluster.metadata);
    let h = headless_service_name_of(cluster);
    assert(decimal(0) == seq![digit_char(0)]);
    assert(pod_name_of(cluster, 0) + "."@ =~= name + seg2());
    let part = "--cluster-bootstrap-host "@ + pod_name_of(cluster, 0) + "."@ + h
            + ".${POD_NAMESPACE}.svc.cluster.local:47392"@;
    let before = seg0() + h + ".${POD_NAMESPACE}.svc.cluster.local\"\nif [ \"${ordinal}\" = \"0\" ]; then\n  bootstrap_args=\"--allow-bootstrap\"\nelse\n  bootstrap_args=\""@;
    let after = "\"\nfi\n\nexec /usr/local/bin/nervix-server \\\n  --addr 0.0.0.0:47391 \\\n  --grpc-mode http \\\n  "@ + "--grpc-advertise-addr "@ + script_grpc_advertise_of(cluster)
            + seg4() + script_web_console_advertise_of(cluster) + seg5() + resolved_cluster_id_of(
            cluster.spec,
            name,
        ) + seg6() + decimal(normalized_replicas_of(cluster.spec) as int) + seg7();
    lemma_contains_middle(before, part, after);
    assert(startup_script_of(cluster) =~= before + part + after);
}

/// The script advertises the gRPC and web-console addresses that
/// [`expected_grpc_advertise`] and [`expected_web_console_advertise`] give:
/// NodePort addresses on the node's IP exactly when local access is present and
/// enabled, pod DNS names otherwise.
pub proof fn law_startup_script_advertises_reachable_addresses(cluster: NervixClusterView)
    ensures
        contains_text(
            startup_script_of(cluster),
            "--grpc-advertise-addr "@ + expected_grpc_advertise(cluster) + " "@,
        ),
        contains_text(
            startup_script_of(cluster),
            "--web-console-advertise-addr "@ + expected_web_console_advertise(cluster) + " "@,
        ),
{
    lemma_startup_script_grpc(cluster);
    lemma_startup_script_web_console(cluster);
}

proof fn lemma_startup_script_grpc(cluster: NervixClusterView)
    ensures
        contains_text(
            startup_script_of(cluster),
            "--grpc-advertise-addr "@ + expected_grpc_advertise(cluster) + " "@,
        ),
{
    lemma_script_parts(cluster);
    let name = name_any_of(cluster.metadata);
    let h = headless_service_name_of(cluster);
    assert(script_grpc_advertise_of(cluster) == expected_grpc_advertise(cluster));
    reveal_strlit(".${POD_NAMESPACE}.svc.cluster.local:47392\"\nfi\n\nexec /usr/local/bin/nervix-server \\\n  --addr 0.0.0.0:47391 \\\n  --grpc-mode http \\\n  --grpc-advertise-addr ");
    reveal_strlit(".${POD_NAMESPACE}.svc.cluster.local:47392\"\nfi\n\nexec /usr/local/bin/nervix-server \\\n  --addr 0.0.0.0:47391 \\\n  --grpc-mode http \\\n  ");
    reveal_strlit("--grpc-advertise-addr ");
    reveal_strlit(" \\\n  --http-listen-addr 0.0.0.0:8080 \\\n  --https-listen-addr 0.0.0.0:8443 \\\n  --observability-listen-addr 0.0.0.0:9090 \\\n  --web-console-listen-addr 0.0.0.0:47420 \\\n  --web-console-advertise-addr ");
    reveal_strlit(" ");
    reveal_strlit("\\\n  --http-listen-addr 0.0.0.0:8080 \\\n  --https-listen-addr 0.0.0.0:8443 \\\n  --observability-listen-addr 0.0.0.0:9090 \\\n  --web-console-listen-addr 0.0.0.0:47420 \\\n  --web-console-advertise-addr ");
    assert(seg3() =~= ".${POD_NAMESPACE}.svc.cluster.local:47392\"\nfi\n\nexec /usr/local/bin/nervix-server \\\n  --addr 0.0.0.0:47391 \\\n  --grpc-mode http \\\n  "@ + "--grpc-advertise-addr "@);
    assert(seg4() =~= " "@ + "\\\n  --http-listen-addr 0.0.0.0:8080 \\\n  --https-listen-addr 0.0.0.0:8443 \\\n  --observability-listen-addr 0.0.0.0:9090 \\\n  --web-console-listen-addr 0.0.0.0:47420 \\\n  --web-console-advertise-addr "@);
    let part = "--grpc-advertise-addr "@ + expected_grpc_advertise(cluster) + " "@;
    let before = seg0() + h + seg1() + name + seg2() + h + ".${POD_NAMESPACE}.svc.cluster.local:47392\"\nfi\n\nexec /usr/local/bin/nervix-server \\\n  --addr 0.0.0.0:47391 \\\n  --grpc-mode http \\\n  "@;
    let after = "\\\n  --http-listen-addr 0.0.0.0:8080 \\\n  --https-listen-addr 0.0.0.0:8443 \\\n  --observability-listen-addr 0.0.0.0:9090 \\\n  --web-console-listen-addr 0.0.0.0:47420 \\\n  --web-console-advertise-addr "@ + script_web_console_advertise_of(cluster) + seg5() + resolved_cluster_id_of(cluster.spec, name) + seg6() + decimal(normalized_replicas_of(cluster.spec) as int) + seg7();
    lemma_contains_middle(before, part, after);
    assert(startup_script_of(cluster) =~= before + part + after);
}

proof fn lemma_startup_script_web_console(cluster: NervixClusterView)
    ensures
        contains_text(
            startup_script_of(cluster),
            "--web-console-advertise-addr "@ + expected_web_console_advertise(cluster) + " "@,
        ),
{
    lemma_script_parts(cluster);
    let name = name_any_of(cluster.metadata);
    let h = headless_service_name_of(cluster);
    assert(script_web_console_advertise_of(cluster) == expected_web_console_advertise(cluster));
    reveal_strlit(" \\\n  --http-listen-addr 0.0.0.0:8080 \\\n  --https-listen-addr 0.0.0.0:8443 \\\n  --observability-listen-addr 0.0.0.0:9090 \\\n  --web-console-listen-addr 0.0.0.0:47420 \\\n  --web-console-advertise-addr ");
    reveal_strlit(" \\\n  --http-listen-addr 0.0.0.0:8080 \\\n  --https-listen-addr 0.0.0.0:8443 \\\n  --observability-listen-addr 0.0.0.0:9090 \\\n  --web-console-listen-addr 0.0.0.0:47420 \\\n  ");
    reveal_strlit("--web-console-advertise-addr ");
    reveal_strlit(" \\\n  --cluster-id ");
    reveal_strlit(" ");
    reveal_strlit("\\\n  --cluster-id ");
    assert(seg4() =~= " \\\n  --http-listen-addr 0.0.0.0:8080 \\\n  --https-listen-addr 0.0.0.0:8443 \\\n  --observability-listen-addr 0.0.0.0:9090 \\\n  --web-console-listen-addr 0.0.0.0:47420 \\\n  "@ + "--web-console-advertise-addr "@);
    assert(seg5() =~= " "@ + "\\\n  --cluster-id "@);
    let part = "--web-console-advertise-addr "@ + expected_web_console_advertise(cluster) + " "@;
    let before = seg0() + h + seg1() + name + seg2() + h + seg3() + script_grpc_advertise_of(cluster) + " \\\n  --http-listen-addr 0.0.0.0:8080 \\\n  --https-listen-addr 0.0.0.0:8443 \\\n  --observability-listen-addr 0.0.0.0:9090 \\\n  --web-console-listen-addr 0.0.0.0:47420 \\\n  "@;
    let after = "\\\n  --cluster-id "@ + resolved_cluster_id_of(cluster.spec, name) + seg6() + decimal(normalized_replicas_of(cluster.spec) as int) + seg7();
    lemma_contains_middle(before, part, after);
    assert(startup_script_of(cluster) =~= before + part + after);
}

/// The script passes the cluster id (the configured one, else the resource's
/// name) and the replica count (the spec's, raised to at least one) to the
/// server.
pub proof fn law_startup_script_names_cluster_and_size(cluster: NervixClusterView)
    ensures
        contains_text(
            startup_script_of(cluster),
            "--cluster-id "@ + match cluster.spec.cluster_id {
                Some(id) => id,
                None => name_any_of(cluster.metadata),
            } + " "@,
        ),
        contains_text(
            startup_script_of(cluster),
            "--replica-count "@ + decimal(
                if cluster.spec.replicas < 1 {
                    1
                } else {
                    cluster.spec.replicas as int
                },
            ) + " "@,
        ),
{
    lemma_startup_script_cluster_id(cluster);
    lemma_startup_script_replica_count(cluster);
}

proof fn lemma_startup_script_cluster_id(cluster: NervixClusterView)
    ensures
        contains_text(
            startup_script_of(cluster),
            "--cluster-id "@ + resolved_cluster_id_of(cluster.spec, name_any_of(cluster.metadata))
                + " "@,
        ),
{
    lemma_script_parts(cluster);
    let name = name_any_of(cluster.metadata);
    let h = headless_service_name_of(cluster);
    reveal_strlit(" \\\n  --cluster-id ");
    reveal_strlit(" \\\n  ");
    reveal_strlit("--cluster-id ");
    reveal_strlit(" \\\n  --node-id \"${node_id}\" \\\n  --cluster-listen-addr 0.0.0.0:47392 \\\n  --cluster-advertise-addr \"${pod_fqdn}:47392\" \\\n  --cluster-api-mode http \\\n  --cluster-api-listen-addr 0.0.0.0:47393 \\\n  --cluster-api-advertise-addr \"${pod_fqdn}:47393\" \\\n  --interconnect-mode http \\\n  --interconnect-listen-addr 0.0.0.0:47395 \\\n  --interconnect-advertise-addr \"${pod_fqdn}:47395\" \\\n  --replica-count ");
    reveal_strlit(" ");
    reveal_strlit("\\\n  --node-id \"${node_id}\" \\\n  --cluster-listen-addr 0.0.0.0:47392 \\\n  --cluster-advertise-addr \"${pod_fqdn}:47392\" \\\n  --cluster-api-mode http \\\n  --cluster-api-listen-addr 0.0.0.0:47393 \\\n  --cluster-api-advertise-addr \"${pod_fqdn}:47393\" \\\n  --interconnect-mode http \\\n  --interconnect-listen-addr 0.0.0.0:47395 \\\n  --interconnect-advertise-addr \"${pod_fqdn}:47395\" \\\n  --replica-count ");
    assert(seg5() =~= " \\\n  "@ + "--cluster-id "@);
    assert(seg6() =~= " "@ + "\\\n  --node-id \"${node_id}\" \\\n  --cluster-listen-addr 0.0.0.0:47392 \\\n  --cluster-advertise-addr \"${pod_fqdn}:47392\" \\\n  --cluster-api-mode http \\\n  --cluster-api-listen-addr 0.0.0.0:47393 \\\n  --cluster-api-advertise-addr \"${pod_fqdn}:47393\" \\\n  --interconnect-mode http \\\n  --interconnect-listen-addr 0.0.0.0:47395 \\\n  --interconnect-advertise-addr \"${pod_fqdn}:47395\" \\\n  --replica-count "@);
    let part = "--cluster-id "@ + resolved_cluster_id_of(cluster.spec, name) + " "@;
    let before = seg0() + h + seg1() + name + seg2() + h + seg3() + script_grpc_advertise_of(cluster) + seg4() + script_web_console_advertise_of(cluster) + " \\\n  "@;
    let after = "\\\n  --node-id \"${node_id}\" \\\n  --cluster-listen-addr 0.0.0.0:47392 \\\n  --cluster-advertise-addr \"${pod_fqdn}:47392\" \\\n  --cluster-api-mode http \\\n  --cluster-api-listen-addr 0.0.0.0:47393 \\\n  --cluster-api-advertise-addr \"${pod_fqdn}:47393\" \\\n  --interconnect-mode http \\\n  --interconnect-listen-addr 0.0.0.0:47395 \\\n  --interconnect-advertise-addr \"${pod_fqdn}:47395\" \\\n  --replica-count "@ + decimal(normalized_replicas_of(cluster.spec) as int) + seg7();
    lemma_contains_middle(before, part, after);
    assert(startup_script_of(cluster) =~= before + part + after);
}

proof fn lemma_startup_script_replica_count(cluster: NervixClusterView)
    ensures
        contains_text(
            startup_script_of(cluster),
            "--replica-count "@ + decimal(normalized_replicas_of(cluster.spec) as int) + " "@,
        ),
{
    lemma_script_parts(cluster);
    let name = name_any_of(cluster.metadata);
    let h = headless_service_name_of(cluster);
    reveal_strlit(" \\\n  --node-id \"${node_id}\" \\\n  --cluster-listen-addr 0.0.0.0:47392 \\\n  --cluster-advertise-addr \"${pod_fqdn}:47392\" \\\n  --cluster-api-mode http \\\n  --cluster-api-listen-addr 0.0.0.0:47393 \\\n  --cluster-api-advertise-addr \"${pod_fqdn}:47393\" \\\n  --interconnect-mode http \\\n  --interconnect-listen-addr 0.0.0.0:47395 \\\n  --interconnect-advertise-addr \"${pod_fqdn}:47395\" \\\n  --replica-count ");
    reveal_strlit(" \\\n  --node-id \"${node_id}\" \\\n  --cluster-listen-addr 0.0.0.0:47392 \\\n  --cluster-advertise-addr \"${pod_fqdn}:47392\" \\\n  --cluster-api-mode http \\\n  --cluster-api-listen-addr 0.0.0.0:47393 \\\n  --cluster-api-advertise-addr \"${pod_fqdn}:47393\" \\\n  --interconnect-mode http \\\n  --interconnect-listen-addr 0.0.0.0:47395 \\\n  --interconnect-advertise-addr \"${pod_fqdn}:47395\" \\\n  ");
    reveal_strlit("--replica-count ");
    reveal_strlit(" \\\n  --db-path /var/lib/nervix/db \\\n  ${bootstrap_args}\n");
    reveal_strlit(" ");
    reveal_strlit("\\\n  --db-path /var/lib/nervix/db \\\n  ${bootstrap_args}\n");
    assert(seg6() =~= " \\\n  --node-id \"${node_id}\" \\\n  --cluster-listen-addr 0.0.0.0:47392 \\\n  --cluster-advertise-addr \"${pod_fqdn}:47392\" \\\n  --cluster-api-mode http \\\n  --cluster-api-listen-addr 0.0.0.0:47393 \\\n  --cluster-api-advertise-addr \"${pod_fqdn}:47393\" \\\n  --interconnect-mode http \\\n  --interconnect-listen-addr 0.0.0.0:47395 \\\n  --interconnect-advertise-addr \"${pod_fqdn}:47395\" \\\n  "@ + "--replica-count "@);
    assert(seg7() =~= " "@ + "\\\n  --db-path /var/lib/nervix/db \\\n  ${bootstrap_args}\n"@);
    let part = "--replica-count "@ + decimal(normalized_replicas_of(cluster.spec) as int) + " "@;
    let before = seg0() + h + seg1() + name + seg2() + h + seg3() + script_grpc_advertise_of(cluster) + seg4() + script_web_console_advertise_of(cluster) + seg5() + resolved_cluster_id_of(cluster.spec, name) + " \\\n  --node-id \"${node_id}\" \\\n  --cluster-listen-addr 0.0.0.0:47392 \\\n  --cluster-advertise-addr \"${pod_fqdn}:47392\" \\\n  --cluster-api-mode http \\\n  --cluster-api-listen-addr 0.0.0.0:47393 \\\n  --cluster-api-advertise-addr \"${pod_fqdn}:47393\" \\\n  --interconnect-mode http \\\n  --interconnect-listen-addr 0.0.0.0:47395 \\\n  --interconnect-advertise-addr \"${pod_fqdn}:47395\" \\\n  "@;
    let after = "\\\n  --db-path /var/lib/nervix/db \\\n  ${bootstrap_args}\n"@;
    lemma_contains_middle(before, part, after);
    assert(startup_script_of(cluster) =~= before + part + after);
}

proof fn lemma_startup_script_db_path(cluster: NervixClusterView)
    ensures
        contains_text(startup_script_of(cluster), "--db-path "@ + "/var/lib/nervix"@ + "/db"@),
{
    lemma_script_parts(cluster);
    let name = name_any_of(cluster.metadata);
    let h = headless_service_name_of(cluster);
    reveal_strlit(" \\\n  --db-path /var/lib/nervix/db \\\n  ${bootstrap_args}\n");
    reveal_strlit(" \\\n  ");
    reveal_strlit("--db-path ");
    reveal_strlit("/var/lib/nervix");
    reveal_strlit("/db");
    reveal_strlit(" \\\n  ${bootstrap_args}\n");
    assert(seg7() =~= " \\\n  "@ + "--db-path "@ + "/var/lib/nervix"@ + "/db"@ + " \\\n  ${bootstrap_args}\n"@);
    let part = "--db-path "@ + "/var/lib/nervix"@ + "/db"@;
    let before = seg0() + h + seg1() + name + seg2() + h + seg3() + script_grpc_advertise_of(cluster) + seg4() + script_web_console_advertise_of(cluster) + seg5() + resolved_cluster_id_of(cluster.spec, name) + seg6() + decimal(normalized_replicas_of(cluster.spec) as int) + " \\\n  "@;
    let after = " \\\n  ${bootstrap_args}\n"@;
    lemma_contains_middle(before, part, after);
    assert(startup_script_of(cluster) =~= before + part + after);
}

/// Every mode's container mounts the pod's data volume claim at a directory
/// that holds the server's database (`--db-path <mount>/db` in the command it
/// runs), so the database survives pod restarts; the claim asks for the
/// storage that the spec names.
pub proof fn law_data_volume_holds_the_database(cluster: NervixClusterView, mode: StatefulSetMode)
    ensures
        ({
            let set = stateful_set_of(cluster, mode).spec.unwrap();
            let container = set.template.spec.unwrap().containers[0];
            let claim = set.volume_claim_templates.unwrap()[0];
            &&& claim.metadata.name is Some
            &&& claim.spec.unwrap().resources.unwrap().requests == Some(
                seq![("storage"@, cluster.spec.storage)],
            )
            &&& exists|i: int|
                0 <= i < container.volume_mounts.unwrap().len() && {
                    let mount = #[trigger] container.volume_mounts.unwrap()[i];
                    &&& mount.name == claim.metadata.name.unwrap()
                    &&& contains_text(
                        container.command.unwrap()[2],
                        "--db-path "@ + mount.mount_path + "/db"@,
                    )
                }
        }),
{
    lemma_startup_script_db_path(cluster);
    let set = stateful_set_of(cluster, mode).spec.unwrap();
    let container = set.template.spec.unwrap().containers[0];
    assert(container.command.unwrap()[2] == startup_script_of(cluster));
    assert(container.volume_mounts.unwrap()[0].mount_path == "/var/lib/nervix"@);
}

} // verus!
