use nervix_k8s_operator::api::{
    LocalAccessSpec, NervixCluster, NervixClusterInitializationPhase, NervixClusterSpec,
    SecretKeyRef,
};
use nervix_k8s_operator::manifests::{
    bootstrap_local_service, cluster_service, node_local_service, startup_script, stateful_set,
    status, StatefulSetMode, GRPC_PORT, WEB_CONSOLE_PORT,
};
use nervix_k8s_operator::objects::{PodTemplateSpec, Service};

fn cluster() -> NervixCluster {
    NervixCluster::new(
        "nervix",
        NervixClusterSpec {
            image: "ghcr.io/nervix-io/nervix:test".to_string(),
            replicas: 3,
            cluster_id: Some("nervix-kube".to_string()),
            initial_default_user_password_secret_ref: Some(SecretKeyRef {
                name: "nervix-initial-password".to_string(),
                key: "password".to_string(),
            }),
            storage: "5Gi".to_string(),
            log_filter: None,
            local_access: Some(LocalAccessSpec {
                enabled: true,
                bootstrap_grpc_node_port: 31390,
                bootstrap_web_console_node_port: 31420,
                bootstrap_observability_node_port: 31090,
                first_node_grpc_node_port: 31391,
                first_node_web_console_node_port: 31421,
                first_node_observability_node_port: 31091,
            }),
            resources: Default::default(),
        },
    )
}

fn label<'a>(labels: &'a [(String, String)], key: &str) -> Option<&'a String> {
    labels.iter().find(|(k, _)| k == key).map(|(_, v)| v)
}

fn assert_service_port(service: &Service, name: &str, port: i32, node_port: Option<i32>) {
    let service_port = service
        .spec
        .as_ref()
        .and_then(|spec| spec.ports.as_ref())
        .and_then(|ports| {
            ports
                .iter()
                .find(|service_port| service_port.name.as_deref() == Some(name))
        })
        .expect("service port exists");

    assert_eq!(service_port.port, port);
    assert_eq!(service_port.node_port, node_port);
}

fn assert_no_initial_password(template: &PodTemplateSpec) {
    let container = &template.spec.as_ref().expect("pod spec exists").containers[0];
    assert!(match container.env.as_ref() {
        None => true,
        Some(env) => env
            .iter()
            .all(|env| env.name != "NERVIX_INIT_DEFAULT_USER_PASSWORD"),
    });
}

#[test]
fn stateful_set_pod_labels_satisfy_service_selector() {
    let cluster = cluster();
    let service = cluster_service(&cluster);
    let stateful_set = stateful_set(&cluster, StatefulSetMode::Running);

    let selector = service.spec.unwrap().selector.unwrap();
    let pod_labels = stateful_set
        .spec
        .unwrap()
        .template
        .metadata
        .unwrap()
        .labels
        .unwrap();

    for (key, value) in selector {
        assert_eq!(label(&pod_labels, &key), Some(&value));
    }
}

#[test]
fn local_access_creates_one_bootstrap_and_one_service_per_node() {
    let cluster = cluster();
    let access = cluster.spec.local_access.as_ref().unwrap();

    let bootstrap = bootstrap_local_service(&cluster, access);
    assert_eq!(bootstrap.name_any(), "nervix-local");
    assert_service_port(&bootstrap, "grpc", GRPC_PORT, Some(31390));
    assert_service_port(&bootstrap, "web-console", WEB_CONSOLE_PORT, Some(31420));

    let node_services = (0..cluster.spec.normalized_replicas())
        .map(|ordinal| node_local_service(&cluster, access, ordinal).name_any())
        .collect::<Vec<_>>();

    assert_eq!(
        node_services,
        vec![
            "nervix-local-node-1".to_string(),
            "nervix-local-node-2".to_string(),
            "nervix-local-node-3".to_string()
        ]
    );
}

#[test]
fn startup_script_bootstraps_only_first_node() {
    let script = startup_script(&cluster());

    assert!(script.contains("--allow-bootstrap"));
    assert!(script.contains("--cluster-bootstrap-host nervix-0.nervix-headless.${POD_NAMESPACE}.svc.cluster.local:47392"));
    assert!(script.contains("--replica-count 3"));
    assert!(script.contains("--web-console-listen-addr 0.0.0.0:47420"));
    assert!(
        script.contains("--web-console-advertise-addr \"${HOST_IP}:$((31421 + ordinal))\"")
    );
}

#[test]
fn initialization_uses_one_replica_and_secret_backed_authenticated_readiness() {
    let stateful_set = stateful_set(&cluster(), StatefulSetMode::Initializing);
    let spec = stateful_set.spec.expect("stateful set spec exists");
    assert_eq!(spec.replicas, Some(1));

    let container = &spec.template.spec.expect("pod spec exists").containers[0];
    let password_env = container
        .env
        .as_ref()
        .and_then(|env| {
            env.iter()
                .find(|env| env.name == "NERVIX_INIT_DEFAULT_USER_PASSWORD")
        })
        .expect("initial password environment variable exists");
    let secret_ref = password_env
        .value_from
        .as_ref()
        .and_then(|source| source.secret_key_ref.as_ref())
        .expect("initial password comes from a Secret");
    assert_eq!(secret_ref.name, "nervix-initial-password");
    assert_eq!(secret_ref.key, "password");

    let probe_command = container
        .readiness_probe
        .as_ref()
        .and_then(|probe| probe.exec_.as_ref())
        .and_then(|action| action.command.as_ref())
        .expect("initialization uses an exec readiness probe")
        .join(" ");
    assert!(probe_command.contains("/usr/local/bin/nervix-cli"));
    assert!(probe_command.contains("SHOW CLUSTER STATUS;"));
    assert!(probe_command.contains("NERVIX_PASSWORD=\"${NERVIX_INIT_DEFAULT_USER_PASSWORD}\""));
}

#[test]
fn credentials_are_removed_from_one_replica_before_normal_scale_up() {
    let cluster = cluster();
    let removing_credentials = stateful_set(&cluster, StatefulSetMode::RemovingCredentials);
    let removing_spec = removing_credentials
        .spec
        .expect("credential-removal StatefulSet spec exists");
    assert_eq!(removing_spec.replicas, Some(1));
    assert_no_initial_password(&removing_spec.template);
    assert!(removing_spec.template.spec.unwrap().containers[0]
        .readiness_probe
        .as_ref()
        .is_some_and(|probe| probe.http_get.is_some()));

    let running = stateful_set(&cluster, StatefulSetMode::Running);
    let running_spec = running.spec.expect("running StatefulSet spec exists");
    assert_eq!(running_spec.replicas, Some(3));
    assert_no_initial_password(&running_spec.template);
}

#[test]
fn status_includes_per_node_web_console_advertise_address() {
    let status = status(
        &cluster(),
        3,
        Some(NervixClusterInitializationPhase::Initialized),
    );

    assert_eq!(
        status.nodes[0].web_console_advertise_address,
        "$(HOST_IP):31421"
    );
    assert_eq!(
        status.nodes[2].web_console_advertise_address,
        "$(HOST_IP):31423"
    );
    assert_eq!(
        status.initialization_phase,
        Some(NervixClusterInitializationPhase::Initialized)
    );
}
