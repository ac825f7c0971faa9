use nervix_k8s_operator::api::{
    NervixCluster, NervixClusterInitializationPhase, NervixClusterSpec, NervixClusterStatus,
    SecretKeyRef,
};
use nervix_k8s_operator::controller::{
    initialization_phase, stateful_set_mode, stateful_set_rollout_complete,
};
use nervix_k8s_operator::manifests::StatefulSetMode;
use nervix_k8s_operator::objects::{ObjectMeta, StatefulSet, StatefulSetStatus};

fn cluster() -> NervixCluster {
    NervixCluster::new(
        "nervix",
        NervixClusterSpec {
            image: "ghcr.io/nervix-io/nervix:test".to_string(),
            replicas: 3,
            cluster_id: None,
            initial_default_user_password_secret_ref: None,
            storage: "5Gi".to_string(),
            log_filter: None,
            local_access: None,
            resources: Default::default(),
        },
    )
}

#[test]
fn initialization_phase_starts_only_when_a_password_secret_is_configured() {
    let mut cluster = cluster();
    assert_eq!(initialization_phase(&cluster), None);
    assert_eq!(
        stateful_set_mode(initialization_phase(&cluster)),
        StatefulSetMode::Running
    );

    cluster.spec.initial_default_user_password_secret_ref = Some(SecretKeyRef {
        name: "nervix-initial-password".to_string(),
        key: "password".to_string(),
    });
    assert_eq!(
        initialization_phase(&cluster),
        Some(NervixClusterInitializationPhase::Initializing)
    );
    assert_eq!(
        stateful_set_mode(initialization_phase(&cluster)),
        StatefulSetMode::Initializing
    );
}

#[test]
fn credential_removal_continues_if_the_secret_reference_is_removed() {
    let mut cluster = cluster();
    cluster.status = Some(NervixClusterStatus {
        initialization_phase: Some(NervixClusterInitializationPhase::RemovingCredentials),
        ..Default::default()
    });

    assert_eq!(
        initialization_phase(&cluster),
        Some(NervixClusterInitializationPhase::RemovingCredentials)
    );
    assert_eq!(
        stateful_set_mode(initialization_phase(&cluster)),
        StatefulSetMode::RemovingCredentials
    );
}

#[test]
fn rollout_is_complete_only_after_the_new_ready_revision_is_observed() {
    let mut stateful_set = StatefulSet {
        metadata: ObjectMeta {
            generation: Some(4),
            ..Default::default()
        },
        status: Some(StatefulSetStatus {
            observed_generation: Some(4),
            replicas: 1,
            ready_replicas: Some(1),
            updated_replicas: Some(1),
            current_revision: Some("nervix-abc".to_string()),
            update_revision: Some("nervix-abc".to_string()),
        }),
        ..Default::default()
    };

    assert!(stateful_set_rollout_complete(&stateful_set, 1));

    stateful_set.status.as_mut().unwrap().update_revision = Some("nervix-def".to_string());
    assert!(!stateful_set_rollout_complete(&stateful_set, 1));

    stateful_set.status.as_mut().unwrap().update_revision = Some("nervix-abc".to_string());
    stateful_set.status.as_mut().unwrap().observed_generation = Some(3);
    assert!(!stateful_set_rollout_complete(&stateful_set, 1));
}
