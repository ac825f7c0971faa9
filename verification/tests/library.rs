use nervix_k8s_operator::api::{
    default_bootstrap_grpc_node_port, default_bootstrap_observability_node_port,
    default_bootstrap_web_console_node_port, default_cpu_request,
    default_first_node_grpc_node_port, default_first_node_observability_node_port,
    default_first_node_web_console_node_port, default_memory_limit, default_memory_request,
    default_replicas, default_storage, default_true, LocalAccessSpec, NervixCluster,
    NervixClusterInitializationPhase, NervixClusterSpec, NervixClusterStatus, ResourceSpec,
    SecretKeyRef,
};
use nervix_k8s_operator::controller::{
    contains_name, desired_local_service_names, error_policy, local_access_selector,
    node_ports_in_range, services_to_prune, Action, ApiFailure, Error, ReconcileCommand,
    ReconcileEvent, ReconcileStage, Reconciliation,
};
use nervix_k8s_operator::manifests::{
    cluster_service, headless_service, local_service_name, node_local_service,
    node_local_service_name, pod_name, selector_labels, startup_script, stateful_set, status,
    StatefulSetMode,
};
use nervix_k8s_operator::objects::{ServicePort, StatefulSet, StatefulSetStatus};
use nervix_k8s_operator::text::i32_to_decimal;

fn local_access() -> LocalAccessSpec {
    LocalAccessSpec {
        enabled: true,
        bootstrap_grpc_node_port: 31390,
        bootstrap_web_console_node_port: 31420,
        bootstrap_observability_node_port: 31090,
        first_node_grpc_node_port: 31391,
        first_node_web_console_node_port: 31421,
        first_node_observability_node_port: 31091,
    }
}

fn spec(replicas: i32) -> NervixClusterSpec {
    NervixClusterSpec {
        image: "ghcr.io/nervix-io/nervix:test".to_string(),
        replicas,
        cluster_id: None,
        initial_default_user_password_secret_ref: None,
        storage: "5Gi".to_string(),
        log_filter: None,
        local_access: None,
        resources: ResourceSpec::default(),
    }
}

fn placed(mut cluster: NervixCluster) -> NervixCluster {
    cluster.metadata.namespace = Some("prod".to_string());
    cluster.metadata.uid = Some("uid-1".to_string());
    cluster.metadata.generation = Some(7);
    cluster
}

fn label<'a>(labels: &'a [(String, String)], key: &str) -> Option<&'a String> {
    labels.iter().find(|(k, _)| k == key).map(|(_, v)| v)
}

fn rolled_out(replicas: i32) -> StatefulSet {
    let mut set = StatefulSet::default();
    set.metadata.generation = Some(2);
    set.status = Some(StatefulSetStatus {
        observed_generation: Some(2),
        replicas,
        ready_replicas: Some(replicas),
        updated_replicas: Some(replicas),
        current_revision: Some("rev-a".to_string()),
        update_revision: Some("rev-a".to_string()),
    });
    set
}

#[test]
fn decimal_rendering_matches_display() {
    for n in [0, 7, 10, 31421, -5, -40, i32::MAX, i32::MIN] {
        assert_eq!(i32_to_decimal(n), n.to_string());
    }
}

#[test]
fn replicas_are_normalized_to_at_least_one() {
    assert_eq!(spec(0).normalized_replicas(), 1);
    assert_eq!(spec(-4).normalized_replicas(), 1);
    assert_eq!(spec(1).normalized_replicas(), 1);
    assert_eq!(spec(5).normalized_replicas(), 5);
}

#[test]
fn defaults_match_the_documented_values() {
    assert_eq!(default_replicas(), 3);
    assert!(default_true());
    assert_eq!(default_storage(), "5Gi");
    assert_eq!(default_cpu_request(), "250m");
    assert_eq!(default_memory_request(), "512Mi");
    assert_eq!(default_memory_limit(), "2Gi");
    assert_eq!(default_bootstrap_grpc_node_port(), 31390);
    assert_eq!(default_bootstrap_web_console_node_port(), 31420);
    assert_eq!(default_bootstrap_observability_node_port(), 31090);
    assert_eq!(default_first_node_grpc_node_port(), 31391);
    assert_eq!(default_first_node_web_console_node_port(), 31421);
    assert_eq!(default_first_node_observability_node_port(), 31091);
    let resources = ResourceSpec::default();
    assert_eq!(resources.cpu_request, "250m");
    assert_eq!(resources.memory_request, "512Mi");
    assert_eq!(resources.memory_limit, "2Gi");
}

#[test]
fn cluster_id_falls_back_to_the_resource_name() {
    let mut s = spec(3);
    assert_eq!(s.resolved_cluster_id("nervix"), "nervix");
    s.cluster_id = Some("prod-east".to_string());
    assert_eq!(s.resolved_cluster_id("nervix"), "prod-east");
}

#[test]
fn owner_reference_needs_name_and_uid() {
    let cluster = NervixCluster::new("nervix", spec(3));
    assert!(cluster.controller_owner_ref().is_none());
    let owner = placed(cluster).controller_owner_ref().unwrap();
    assert_eq!(owner.api_version, "nervix.io/v1alpha1");
    assert_eq!(owner.kind, "NervixCluster");
    assert_eq!(owner.name, "nervix");
    assert_eq!(owner.uid, "uid-1");
    assert_eq!(owner.controller, Some(true));
}

#[test]
fn name_any_prefers_name_then_generate_name() {
    let mut cluster = NervixCluster::new("nervix", spec(3));
    assert_eq!(cluster.name_any(), "nervix");
    cluster.metadata.name = None;
    assert_eq!(cluster.name_any(), "");
    cluster.metadata.generate_name = Some("nervix-".to_string());
    assert_eq!(cluster.name_any(), "nervix-");
}

#[test]
fn headless_service_publishes_every_port_of_unready_pods() {
    let cluster = placed(NervixCluster::new("nervix", spec(3)));
    let service = headless_service(&cluster);
    assert_eq!(service.metadata.name.as_deref(), Some("nervix-headless"));
    assert_eq!(service.metadata.namespace.as_deref(), Some("prod"));
    let owners = service.metadata.owner_references.as_ref().unwrap();
    assert_eq!(owners.len(), 1);
    assert_eq!(owners[0].uid, "uid-1");
    let labels = service.metadata.labels.as_ref().unwrap();
    assert_eq!(label(labels, "app.kubernetes.io/component").map(|s| s.as_str()), Some("application"));
    assert_eq!(label(labels, "app.kubernetes.io/managed-by").map(|s| s.as_str()), Some("nervix-k8s-operator"));
    let spec = service.spec.unwrap();
    assert_eq!(spec.cluster_ip.as_deref(), Some("None"));
    assert_eq!(spec.publish_not_ready_addresses, Some(true));
    assert_eq!(spec.type_, None);
    let ports = spec.ports.unwrap();
    let names: Vec<&str> = ports.iter().map(|p| p.name.as_deref().unwrap()).collect();
    assert_eq!(names, vec!["grpc", "gossip", "cluster-api", "interconnect", "http", "https", "web-console", "observability"]);
    let numbers: Vec<i32> = ports.iter().map(|p| p.port).collect();
    assert_eq!(numbers, vec![47391, 47392, 47393, 47395, 8080, 8443, 47420, 9090]);
    assert_eq!(ports[1].protocol.as_deref(), Some("UDP"));
    assert_eq!(ports[0].protocol.as_deref(), Some("TCP"));
    assert_eq!(ports[0].target_port.as_deref(), Some("grpc"));
    for key_value in selector_labels(&cluster) {
        assert_eq!(label(&spec.selector.clone().unwrap(), &key_value.0), Some(&key_value.1));
    }
}

#[test]
fn cluster_service_is_a_cluster_ip_service_without_gossip() {
    let cluster = NervixCluster::new("nervix", spec(3));
    let service = cluster_service(&cluster);
    assert_eq!(service.name_any(), "nervix");
    assert_eq!(service.metadata.owner_references, None);
    let spec = service.spec.unwrap();
    assert_eq!(spec.type_.as_deref(), Some("ClusterIP"));
    let ports = spec.ports.unwrap();
    assert_eq!(ports.len(), 7);
    assert!(ports.iter().all(|p| p.name.as_deref() != Some("gossip")));
}

#[test]
fn node_service_of_third_pod_uses_shifted_node_ports() {
    let cluster = NervixCluster::new("nervix", spec(3));
    let service = node_local_service(&cluster, &local_access(), 2);
    assert_eq!(service.name_any(), "nervix-local-node-3");
    let spec = service.spec.unwrap();
    assert_eq!(spec.type_.as_deref(), Some("NodePort"));
    let selector = spec.selector.unwrap();
    assert_eq!(selector, vec![("statefulset.kubernetes.io/pod-name".to_string(), "nervix-2".to_string())]);
    let node_ports: Vec<Option<i32>> = spec.ports.unwrap().iter().map(|p| p.node_port).collect();
    assert_eq!(node_ports, vec![Some(31393), Some(31423), Some(31093)]);
    assert_eq!(pod_name(&cluster, 2), "nervix-2");
    assert_eq!(node_local_service_name(&cluster, 0), "nervix-local-node-1");
    assert_eq!(local_service_name(&cluster), "nervix-local");
}

#[test]
fn with_protocol_replaces_only_the_protocol() {
    let port = ServicePort {
        name: Some("gossip".to_string()),
        port: 47392,
        target_port: Some("gossip".to_string()),
        protocol: Some("TCP".to_string()),
        node_port: None,
    };
    let udp = port.clone().with_protocol("UDP");
    assert_eq!(udp.protocol.as_deref(), Some("UDP"));
    assert_eq!(udp.port, 47392);
    assert_eq!(udp.name, port.name);
}

#[test]
fn startup_script_is_exact_with_local_access() {
    let mut s = spec(3);
    s.cluster_id = Some("nervix-kube".to_string());
    s.local_access = Some(local_access());
    let script = startup_script(&NervixCluster::new("nervix", s));
    assert_eq!(script, "ordinal=\"${HOSTNAME##*-}\"\nnode_number=$((ordinal + 1))\nnode_id=\"node-${node_number}\"\npod_fqdn=\"${HOSTNAME}.nervix-headless.${POD_NAMESPACE}.svc.cluster.local\"\nif [ \"${ordinal}\" = \"0\" ]; then\n  bootstrap_args=\"--allow-bootstrap\"\nelse\n  bootstrap_args=\"--cluster-bootstrap-host nervix-0.nervix-headless.${POD_NAMESPACE}.svc.cluster.local:47392\"\nfi\n\nexec /usr/local/bin/nervix-server \\\n  --addr 0.0.0.0:47391 \\\n  --grpc-mode http \\\n  --grpc-advertise-addr \"${HOST_IP}:$((31391 + ordinal))\" \\\n  --http-listen-addr 0.0.0.0:8080 \\\n  --https-listen-addr 0.0.0.0:8443 \\\n  --observability-listen-addr 0.0.0.0:9090 \\\n  --web-console-listen-addr 0.0.0.0:47420 \\\n  --web-console-advertise-addr \"${HOST_IP}:$((31421 + ordinal))\" \\\n  --cluster-id nervix-kube \\\n  --node-id \"${node_id}\" \\\n  --cluster-listen-addr 0.0.0.0:47392 \\\n  --cluster-advertise-addr \"${pod_fqdn}:47392\" \\\n  --cluster-api-mode http \\\n  --cluster-api-listen-addr 0.0.0.0:47393 \\\n  --cluster-api-advertise-addr \"${pod_fqdn}:47393\" \\\n  --interconnect-mode http \\\n  --interconnect-listen-addr 0.0.0.0:47395 \\\n  --interconnect-advertise-addr \"${pod_fqdn}:47395\" \\\n  --replica-count 3 \\\n  --db-path /var/lib/nervix/db \\\n  ${bootstrap_args}\n");
}

#[test]
fn startup_script_is_exact_without_local_access() {
    let mut s = spec(0);
    let mut access = local_access();
    access.enabled = false;
    s.local_access = Some(access);
    let script = startup_script(&NervixCluster::new("db", s));
    assert_eq!(script, "ordinal=\"${HOSTNAME##*-}\"\nnode_number=$((ordinal + 1))\nnode_id=\"node-${node_number}\"\npod_fqdn=\"${HOSTNAME}.db-headless.${POD_NAMESPACE}.svc.cluster.local\"\nif [ \"${ordinal}\" = \"0\" ]; then\n  bootstrap_args=\"--allow-bootstrap\"\nelse\n  bootstrap_args=\"--cluster-bootstrap-host db-0.db-headless.${POD_NAMESPACE}.svc.cluster.local:47392\"\nfi\n\nexec /usr/local/bin/nervix-server \\\n  --addr 0.0.0.0:47391 \\\n  --grpc-mode http \\\n  --grpc-advertise-addr \"${pod_fqdn}:47391\" \\\n  --http-listen-addr 0.0.0.0:8080 \\\n  --https-listen-addr 0.0.0.0:8443 \\\n  --observability-listen-addr 0.0.0.0:9090 \\\n  --web-console-listen-addr 0.0.0.0:47420 \\\n  --web-console-advertise-addr \"${pod_fqdn}:47420\" \\\n  --cluster-id db \\\n  --node-id \"${node_id}\" \\\n  --cluster-listen-addr 0.0.0.0:47392 \\\n  --cluster-advertise-addr \"${pod_fqdn}:47392\" \\\n  --cluster-api-mode http \\\n  --cluster-api-listen-addr 0.0.0.0:47393 \\\n  --cluster-api-advertise-addr \"${pod_fqdn}:47393\" \\\n  --interconnect-mode http \\\n  --interconnect-listen-addr 0.0.0.0:47395 \\\n  --interconnect-advertise-addr \"${pod_fqdn}:47395\" \\\n  --replica-count 1 \\\n  --db-path /var/lib/nervix/db \\\n  ${bootstrap_args}\n");
}

#[test]
fn stateful_set_carries_storage_resources_and_log_filter() {
    let mut s = spec(2);
    s.log_filter = Some("debug".to_string());
    s.storage = "20Gi".to_string();
    let set = stateful_set(&placed(NervixCluster::new("nervix", s)), StatefulSetMode::Running);
    assert_eq!(set.name_any(), "nervix");
    let spec = set.spec.unwrap();
    assert_eq!(spec.replicas, Some(2));
    assert_eq!(spec.service_name.as_deref(), Some("nervix-headless"));
    assert_eq!(spec.pod_management_policy.as_deref(), Some("OrderedReady"));
    let claims = spec.volume_claim_templates.unwrap();
    assert_eq!(claims.len(), 1);
    let claim_spec = claims[0].spec.clone().unwrap();
    assert_eq!(claim_spec.access_modes, Some(vec!["ReadWriteOnce".to_string()]));
    assert_eq!(claim_spec.resources.unwrap().requests, Some(vec![("storage".to_string(), "20Gi".to_string())]));
    let pod = spec.template.spec.unwrap();
    assert_eq!(pod.termination_grace_period_seconds, Some(30));
    assert_eq!(pod.security_context.unwrap().fs_group, Some(10001));
    let container = &pod.containers[0];
    assert_eq!(container.image.as_deref(), Some("ghcr.io/nervix-io/nervix:test"));
    let env = container.env.clone().unwrap();
    assert_eq!(env.len(), 3);
    assert_eq!(env[2].name, "RUST_LOG");
    assert_eq!(env[2].value.as_deref(), Some("debug"));
    assert_eq!(env[1].value_from.clone().unwrap().field_ref.unwrap().field_path, "status.hostIP");
    let resources = container.resources.clone().unwrap();
    assert_eq!(resources.requests.unwrap(), vec![("cpu".to_string(), "250m".to_string()), ("memory".to_string(), "512Mi".to_string())]);
    assert_eq!(resources.limits.unwrap(), vec![("memory".to_string(), "2Gi".to_string())]);
    assert_eq!(container.command.as_ref().unwrap()[2], startup_script(&NervixCluster::new("nervix", spec_with_storage())));
}

fn spec_with_storage() -> NervixClusterSpec {
    let mut s = spec(2);
    s.log_filter = Some("debug".to_string());
    s.storage = "20Gi".to_string();
    s
}

#[test]
fn initializing_without_a_secret_hands_out_no_password() {
    let set = stateful_set(&NervixCluster::new("nervix", spec(3)), StatefulSetMode::Initializing);
    let spec = set.spec.unwrap();
    assert_eq!(spec.replicas, Some(1));
    let container = &spec.template.spec.unwrap().containers[0];
    let env = container.env.clone().unwrap();
    assert!(env.iter().all(|e| e.name != "NERVIX_INIT_DEFAULT_USER_PASSWORD"));
    assert_eq!(env[2].value.as_deref(), Some("info,nervix=info"));
}

#[test]
fn status_without_local_access_advertises_pod_dns_names() {
    let cluster = placed(NervixCluster::new("nervix", spec(2)));
    let status = status(&cluster, 1, None);
    assert_eq!(status.observed_generation, Some(7));
    assert_eq!(status.replicas, 2);
    assert_eq!(status.ready_replicas, 1);
    assert_eq!(status.initialization_phase, None);
    assert_eq!(status.nodes.len(), 2);
    let node = &status.nodes[1];
    assert_eq!(node.name, "nervix-1");
    assert_eq!(node.ordinal, 1);
    assert_eq!(node.grpc_advertise_address, "nervix-1.nervix-headless.prod.svc.cluster.local:47391");
    assert_eq!(node.web_console_advertise_address, "nervix-1.nervix-headless.prod.svc.cluster.local:47420");
    assert_eq!(node.cluster_advertise_address, "nervix-1.nervix-headless.prod.svc.cluster.local:47392");
    assert_eq!(node.cluster_api_advertise_address, "nervix-1.nervix-headless.prod.svc.cluster.local:47393");
    assert_eq!(node.interconnect_advertise_address, "nervix-1.nervix-headless.prod.svc.cluster.local:47395");
    let default_namespace = status_namespace_default();
    assert_eq!(default_namespace, "nervix-0.nervix-headless.default.svc.cluster.local:47391");
}

fn status_namespace_default() -> String {
    status(&NervixCluster::new("nervix", spec(1)), 0, None).nodes[0].grpc_advertise_address.clone()
}

#[test]
fn node_addresses_match_node_service_ports() {
    let mut s = spec(3);
    s.local_access = Some(local_access());
    let cluster = NervixCluster::new("nervix", s);
    let status = status(&cluster, 3, None);
    for ordinal in 0..3 {
        let service = node_local_service(&cluster, &local_access(), ordinal);
        let spec = service.spec.unwrap();
        let ports = spec.ports.unwrap();
        let node = &status.nodes[ordinal as usize];
        assert_eq!(node.grpc_advertise_address, format!("$(HOST_IP):{}", ports[0].node_port.unwrap()));
        assert_eq!(node.web_console_advertise_address, format!("$(HOST_IP):{}", ports[1].node_port.unwrap()));
        assert_eq!(spec.selector.unwrap()[0].1, node.name);
    }
}

#[test]
fn pruning_deletes_only_unwanted_listed_services() {
    let listed = vec!["nervix-local-node-4".to_string(), "nervix-local".to_string(), "nervix-local-node-1".to_string(), "stale".to_string()];
    let desired = vec!["nervix-local".to_string(), "nervix-local-node-1".to_string()];
    assert_eq!(services_to_prune(&listed, &desired), vec!["nervix-local-node-4".to_string(), "stale".to_string()]);
    assert_eq!(services_to_prune(&listed, &listed), Vec::<String>::new());
    assert!(contains_name(&desired, &"nervix-local".to_string()));
    assert!(!contains_name(&desired, &"stale".to_string()));
}

#[test]
fn desired_local_services_are_one_shared_and_one_per_node() {
    let mut s = spec(3);
    assert!(desired_local_service_names(&NervixCluster::new("nervix", s.clone())).is_empty());
    s.local_access = Some(local_access());
    let cluster = NervixCluster::new("nervix", s);
    assert_eq!(
        desired_local_service_names(&cluster),
        vec!["nervix-local", "nervix-local-node-1", "nervix-local-node-2", "nervix-local-node-3"]
    );
    assert_eq!(local_access_selector(&cluster), "app.kubernetes.io/instance=nervix,app.kubernetes.io/component=local-access");
}

#[test]
fn node_port_range_check_rejects_overflowing_ports() {
    let mut s = spec(3);
    let mut access = local_access();
    access.first_node_observability_node_port = i32::MAX - 1;
    s.local_access = Some(access);
    assert!(!node_ports_in_range(&NervixCluster::new("nervix", s.clone())));
    access.first_node_observability_node_port = i32::MAX - 2;
    s.local_access = Some(access);
    assert!(node_ports_in_range(&NervixCluster::new("nervix", s)));
}

#[test]
fn error_policy_requeues_after_ten_seconds() {
    assert_eq!(error_policy(&Error::MissingNamespace("nervix".to_string())), Action { requeue_after_seconds: 10 });
    assert_eq!(
        error_policy(&Error::Kube(ApiFailure { code: Some(500), message: "boom".to_string() })),
        Action { requeue_after_seconds: 10 }
    );
}

#[test]
fn pass_without_namespace_fails_at_once() {
    let (pass, command) = Reconciliation::begin(NervixCluster::new("nervix", spec(3)));
    assert!(pass.is_finished());
    match command {
        ReconcileCommand::Finish(Err(Error::MissingNamespace(name))) => assert_eq!(name, "nervix"),
        other => panic!("unexpected {:?}", other),
    }
}

#[test]
fn pass_applies_services_prunes_and_reports() {
    let cluster = placed(NervixCluster::new("nervix", spec(2)));
    let (mut pass, command) = Reconciliation::begin(cluster);
    match command {
        ReconcileCommand::ApplyService(service) => assert_eq!(service.name_any(), "nervix-headless"),
        other => panic!("unexpected {:?}", other),
    }
    assert!(!pass.accepts(&ReconcileEvent::ListedServices(vec![])));
    match pass.step(ReconcileEvent::Succeeded) {
        ReconcileCommand::ApplyService(service) => assert_eq!(service.name_any(), "nervix"),
        other => panic!("unexpected {:?}", other),
    }
    match pass.step(ReconcileEvent::Succeeded) {
        ReconcileCommand::ListLocalServices(selector) => assert_eq!(selector, "app.kubernetes.io/instance=nervix,app.kubernetes.io/component=local-access"),
        other => panic!("unexpected {:?}", other),
    }
    let listed = vec!["nervix-local".to_string(), "nervix-local-node-1".to_string()];
    match pass.step(ReconcileEvent::ListedServices(listed)) {
        ReconcileCommand::DeleteService(name) => assert_eq!(name, "nervix-local"),
        other => panic!("unexpected {:?}", other),
    }
    match pass.step(ReconcileEvent::Failed(ApiFailure { code: Some(404), message: "gone".to_string() })) {
        ReconcileCommand::DeleteService(name) => assert_eq!(name, "nervix-local-node-1"),
        other => panic!("unexpected {:?}", other),
    }
    match pass.step(ReconcileEvent::Succeeded) {
        ReconcileCommand::ApplyStatefulSet(set) => assert_eq!(set.spec.unwrap().replicas, Some(2)),
        other => panic!("unexpected {:?}", other),
    }
    match pass.step(ReconcileEvent::Succeeded) {
        ReconcileCommand::GetStatefulSet(name) => assert_eq!(name, "nervix"),
        other => panic!("unexpected {:?}", other),
    }
    match pass.step(ReconcileEvent::FetchedStatefulSet(rolled_out(2))) {
        ReconcileCommand::PatchStatus(status) => {
            assert_eq!(status.ready_replicas, 2);
            assert_eq!(status.initialization_phase, None);
        }
        other => panic!("unexpected {:?}", other),
    }
    match pass.step(ReconcileEvent::Succeeded) {
        ReconcileCommand::Finish(Ok(action)) => assert_eq!(action.requeue_after_seconds, 30),
        other => panic!("unexpected {:?}", other),
    }
    assert!(pass.is_finished());
    assert!(!pass.accepts(&ReconcileEvent::Succeeded));
}

#[test]
fn pass_advances_initialization_after_complete_rollout() {
    let mut s = spec(3);
    s.initial_default_user_password_secret_ref = Some(SecretKeyRef { name: "pw".to_string(), key: "k".to_string() });
    let cluster = placed(NervixCluster::new("nervix", s));
    let (mut pass, _) = Reconciliation::begin(cluster.clone());
    pass.step(ReconcileEvent::Succeeded);
    pass.step(ReconcileEvent::Succeeded);
    match pass.step(ReconcileEvent::ListedServices(vec![])) {
        ReconcileCommand::ApplyStatefulSet(set) => {
            let spec = set.spec.unwrap();
            assert_eq!(spec.replicas, Some(1));
            let env = spec.template.spec.unwrap().containers[0].env.clone().unwrap();
            assert_eq!(env.last().unwrap().name, "NERVIX_INIT_DEFAULT_USER_PASSWORD");
        }
        other => panic!("unexpected {:?}", other),
    }
    pass.step(ReconcileEvent::Succeeded);
    match pass.step(ReconcileEvent::FetchedStatefulSet(rolled_out(1))) {
        ReconcileCommand::PatchStatus(status) => assert_eq!(status.initialization_phase, Some(NervixClusterInitializationPhase::RemovingCredentials)),
        other => panic!("unexpected {:?}", other),
    }
    match pass.step(ReconcileEvent::Succeeded) {
        ReconcileCommand::ApplyStatefulSet(set) => {
            let spec = set.spec.unwrap();
            assert_eq!(spec.replicas, Some(1));
            let env = spec.template.spec.unwrap().containers[0].env.clone().unwrap();
            assert!(env.iter().all(|e| e.name != "NERVIX_INIT_DEFAULT_USER_PASSWORD"));
        }
        other => panic!("unexpected {:?}", other),
    }
    match pass.step(ReconcileEvent::Succeeded) {
        ReconcileCommand::Finish(Ok(action)) => assert_eq!(action.requeue_after_seconds, 2),
        other => panic!("unexpected {:?}", other),
    }

    // The next pass sees the recorded phase and, once the clean pod is ready, scales up.
    let mut removing = cluster;
    removing.status = Some(NervixClusterStatus {
        initialization_phase: Some(NervixClusterInitializationPhase::RemovingCredentials),
        ..Default::default()
    });
    let (mut pass, _) = Reconciliation::begin(removing);
    pass.step(ReconcileEvent::Succeeded);
    pass.step(ReconcileEvent::Succeeded);
    pass.step(ReconcileEvent::ListedServices(vec![]));
    pass.step(ReconcileEvent::Succeeded);
    // Not rolled out yet: the phase stays.
    let mut pending = rolled_out(1);
    pending.status.as_mut().unwrap().update_revision = Some("rev-b".to_string());
    let mut waiting = pass;
    match waiting.step(ReconcileEvent::FetchedStatefulSet(pending)) {
        ReconcileCommand::PatchStatus(status) => assert_eq!(status.initialization_phase, Some(NervixClusterInitializationPhase::RemovingCredentials)),
        other => panic!("unexpected {:?}", other),
    }
    assert!(matches!(waiting.stage, ReconcileStage::PatchingStatus));
}

#[test]
fn pass_scales_up_once_credentials_are_removed() {
    let mut cluster = placed(NervixCluster::new("nervix", spec(3)));
    cluster.status = Some(NervixClusterStatus {
        initialization_phase: Some(NervixClusterInitializationPhase::RemovingCredentials),
        ..Default::default()
    });
    let (mut pass, _) = Reconciliation::begin(cluster);
    pass.step(ReconcileEvent::Succeeded);
    pass.step(ReconcileEvent::Succeeded);
    pass.step(ReconcileEvent::ListedServices(vec![]));
    pass.step(ReconcileEvent::Succeeded);
    match pass.step(ReconcileEvent::FetchedStatefulSet(rolled_out(1))) {
        ReconcileCommand::PatchStatus(status) => assert_eq!(status.initialization_phase, Some(NervixClusterInitializationPhase::Initialized)),
        other => panic!("unexpected {:?}", other),
    }
    match pass.step(ReconcileEvent::Succeeded) {
        ReconcileCommand::ApplyStatefulSet(set) => assert_eq!(set.spec.unwrap().replicas, Some(3)),
        other => panic!("unexpected {:?}", other),
    }
}

#[test]
fn failed_call_ends_the_pass_with_the_failure() {
    let cluster = placed(NervixCluster::new("nervix", spec(1)));
    let (mut pass, _) = Reconciliation::begin(cluster);
    match pass.step(ReconcileEvent::Failed(ApiFailure { code: Some(409), message: "conflict".to_string() })) {
        ReconcileCommand::Finish(Err(Error::Kube(failure))) => {
            assert_eq!(failure.code, Some(409));
            assert_eq!(failure.message, "conflict");
        }
        other => panic!("unexpected {:?}", other),
    }
    assert!(pass.is_finished());
}

#[test]
fn failed_deletion_other_than_not_found_ends_the_pass() {
    let cluster = placed(NervixCluster::new("nervix", spec(1)));
    let (mut pass, _) = Reconciliation::begin(cluster);
    pass.step(ReconcileEvent::Succeeded);
    pass.step(ReconcileEvent::Succeeded);
    pass.step(ReconcileEvent::ListedServices(vec!["old".to_string()]));
    match pass.step(ReconcileEvent::Failed(ApiFailure { code: Some(403), message: "forbidden".to_string() })) {
        ReconcileCommand::Finish(Err(Error::Kube(failure))) => assert_eq!(failure.code, Some(403)),
        other => panic!("unexpected {:?}", other),
    }
}

#[test]
fn pass_with_local_access_applies_bootstrap_and_node_services() {
    let mut s = spec(2);
    s.local_access = Some(local_access());
    let cluster = placed(NervixCluster::new("nervix", s));
    let (mut pass, _) = Reconciliation::begin(cluster);
    let mut applied = Vec::new();
    loop {
        match pass.step(ReconcileEvent::Succeeded) {
            ReconcileCommand::ApplyService(service) => applied.push(service.name_any()),
            ReconcileCommand::ListLocalServices(_) => break,
            other => panic!("unexpected {:?}", other),
        }
    }
    assert_eq!(applied, vec!["nervix", "nervix-local", "nervix-local-node-1", "nervix-local-node-2"]);
    match pass.step(ReconcileEvent::ListedServices(vec!["nervix-local".to_string(), "nervix-local-node-2".to_string(), "nervix-local-node-3".to_string()])) {
        ReconcileCommand::DeleteService(name) => assert_eq!(name, "nervix-local-node-3"),
        other => panic!("unexpected {:?}", other),
    }
}

#[test]
fn initialized_cluster_never_gets_the_password_again() {
    let mut s = spec(3);
    s.initial_default_user_password_secret_ref = Some(SecretKeyRef { name: "pw".to_string(), key: "k".to_string() });
    let mut cluster = NervixCluster::new("nervix", s);
    cluster.status = Some(NervixClusterStatus {
        initialization_phase: Some(NervixClusterInitializationPhase::Initialized),
        ..Default::default()
    });
    let phase = nervix_k8s_operator::controller::initialization_phase(&cluster);
    assert_eq!(phase, Some(NervixClusterInitializationPhase::Initialized));
    let mode = nervix_k8s_operator::controller::stateful_set_mode(phase);
    assert_eq!(mode, StatefulSetMode::Running);
    let set = stateful_set(&cluster, mode);
    let env = set.spec.unwrap().template.spec.unwrap().containers[0].env.clone().unwrap();
    assert!(env.iter().all(|e| e.name != "NERVIX_INIT_DEFAULT_USER_PASSWORD"));
}

#[test]
fn recorded_initializing_phase_lapses_without_the_secret() {
    let mut cluster = NervixCluster::new("nervix", spec(3));
    cluster.status = Some(NervixClusterStatus {
        initialization_phase: Some(NervixClusterInitializationPhase::Initializing),
        ..Default::default()
    });
    assert_eq!(nervix_k8s_operator::controller::initialization_phase(&cluster), None);
}

#[test]
fn label_sets_have_distinct_keys() {
    let cluster = NervixCluster::new("nervix", spec(3));
    let labels = nervix_k8s_operator::manifests::component_labels(&cluster, "application");
    for (i, a) in labels.iter().enumerate() {
        for (j, b) in labels.iter().enumerate() {
            if i != j {
                assert_ne!(a.0, b.0);
            }
        }
    }
    assert_eq!(labels.len(), 4);
}

#[test]
fn containers_differ_by_mode_only_in_password_and_readiness() {
    let mut s = spec(3);
    s.initial_default_user_password_secret_ref = Some(SecretKeyRef { name: "pw".to_string(), key: "k".to_string() });
    let cluster = NervixCluster::new("nervix", s);
    let container = |mode| stateful_set(&cluster, mode).spec.unwrap().template.spec.unwrap().containers[0].clone();
    let running = container(StatefulSetMode::Running);
    let removing = container(StatefulSetMode::RemovingCredentials);
    let mut initializing = container(StatefulSetMode::Initializing);
    assert_eq!(removing, running);
    let mut env = initializing.env.clone().unwrap();
    let password = env.pop().unwrap();
    assert_eq!(password.name, "NERVIX_INIT_DEFAULT_USER_PASSWORD");
    assert_eq!(password.value_from.unwrap().secret_key_ref.unwrap().name, "pw");
    assert!(initializing.readiness_probe.as_ref().unwrap().exec_.is_some());
    initializing.env = Some(env);
    initializing.readiness_probe = running.readiness_probe.clone();
    assert_eq!(initializing, running);
}
