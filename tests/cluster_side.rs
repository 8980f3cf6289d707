use statehub::api::{
    aws_location_path, base_url, cluster_token_path, is_unauthorized, location_path,
    set_owner_path, volume_primary_path,
};
use statehub::config::{Config, ConfigV1, ConfigV2};
use statehub::k8s::{
    collect_node_locations, detect_provider, is_aks, normalize_name, Helm, HelmCommand,
    HelmOutcome, Kubeconfig, NodeLocationError, NodeRegion,
};
use statehub::location::Location;
use statehub::register::{
    configmap_data, register_steps, resolve_cluster_name, RegisterOptions, RegisterStep,
};
use statehub::text::{last_delimiter, to_decimal};
use statehub::v0::{AwsRegion, AzureRegion, Cluster, ClusterLocations, ClusterName, Provider, StateName, VolumeName};

fn node(name: &str, region: Option<&str>) -> NodeRegion {
    NodeRegion {
        name: name.to_string(),
        region: region.map(String::from),
    }
}

#[test]
fn node_locations_are_distinct_in_first_seen_order() {
    let nodes = vec![
        node("n1", Some("eastus")),
        node("n2", Some("us-west-2")),
        node("n3", Some("eastus")),
    ];
    match collect_node_locations(&nodes) {
        Ok(ls) => assert_eq!(
            ls,
            vec![Location::Azure(AzureRegion::EastUs), Location::Aws(AwsRegion::UsWest2)]
        ),
        Err(_) => panic!("all nodes are labelled"),
    }
}

#[test]
fn unlabelled_nodes_are_an_error() {
    let nodes = vec![node("n1", Some("eastus")), node("n2", None), node("n3", None)];
    match collect_node_locations(&nodes) {
        Err(NodeLocationError::Unlabeled(names)) => {
            assert_eq!(names, vec!["n2".to_string(), "n3".to_string()])
        }
        _ => panic!("expected the unlabelled nodes"),
    }
    assert!(matches!(collect_node_locations(&vec![]), Err(NodeLocationError::NoNodes)));
    assert!(matches!(
        collect_node_locations(&vec![node("n1", Some("moon-1"))]),
        Err(NodeLocationError::Invalid(_))
    ));
}

#[test]
fn provider_detection() {
    assert!(is_aks(&vec![None, Some("MC_group_cluster_eastus".to_string())]));
    assert!(!is_aks(&vec![None, Some("group".to_string())]));
    assert_eq!(detect_provider(&vec![Some("MC_x".to_string())]), Provider::Aks);
    assert_eq!(detect_provider(&vec![]), Provider::Eks);
}

#[test]
fn kubeconfig_names() {
    let config = Kubeconfig {
        current_context: None,
        contexts: vec!["arn:aws:eks:us-west-2:1234:cluster/zulu".to_string(), "b".to_string()],
        clusters: vec!["c".to_string()],
    };
    assert_eq!(config.default_context(), Some("arn:aws:eks:us-west-2:1234:cluster/zulu"));
    assert_eq!(config.cluster_name().map(|n| n.0), Some("zulu".to_string()));
    assert!(config.contains("c"));
    assert!(config.contains("b"));
    assert!(!config.contains("d"));
    assert_eq!(config.all_contexts(), vec!["arn:aws:eks:us-west-2:1234:cluster/zulu", "b"]);
    assert_eq!(config.current_context(), None);
    let only_clusters = Kubeconfig {
        current_context: None,
        contexts: vec![],
        clusters: vec!["c".to_string()],
    };
    assert_eq!(only_clusters.default_context(), Some("c"));
    let current = Kubeconfig {
        current_context: Some("x/y".to_string()),
        contexts: vec!["b".to_string()],
        clusters: vec![],
    };
    assert_eq!(current.default_context(), Some("x/y"));
    assert_eq!(normalize_name("plain").0, "plain");
    assert_eq!(normalize_name("a/b/c").0, "c");
    assert_eq!(last_delimiter("a:b:c", ':'), "c");
    assert_eq!(last_delimiter("abc/", '/'), "");
}

#[test]
fn cluster_name_resolution() {
    let explicit = resolve_cluster_name(Some(ClusterName::from("a")), Some(ClusterName::from("b")));
    assert_eq!(explicit.ok().map(|n| n.0), Some("a".to_string()));
    let context = resolve_cluster_name(None, Some(ClusterName::from("b")));
    assert_eq!(context.ok().map(|n| n.0), Some("b".to_string()));
    match resolve_cluster_name(None, None) {
        Err(e) => assert_eq!(
            e.message(),
            "No default Kubernetes context found, need to provide cluster name"
        ),
        Ok(_) => panic!("no name to use"),
    }
}

#[test]
fn register_options_from_flags() {
    let states = || vec![StateName::from("default"), StateName::from("other")];
    let o = RegisterOptions::from_flags(states(), false, false, None, false);
    assert_eq!(o.default_state.as_deref(), Some("default"));
    assert_eq!(o.states.as_ref().map(|s| s.len()), Some(2));
    assert!(o.claim_unowned_states);
    let o = RegisterOptions::from_flags(states(), false, false, Some("other".to_string()), true);
    assert_eq!(o.default_state.as_deref(), Some("other"));
    assert!(!o.claim_unowned_states);
    let o = RegisterOptions::from_flags(states(), true, false, None, false);
    assert!(o.states.is_none());
    assert!(o.default_state.is_none());
    let o = RegisterOptions::from_flags(states(), false, true, None, false);
    assert!(o.default_state.is_none());
}

#[test]
fn registration_step_order() {
    assert_eq!(
        register_steps(true, true),
        vec![
            RegisterStep::ResolveName,
            RegisterStep::DiscoverLocations,
            RegisterStep::ResolveProvider,
            RegisterStep::Register,
            RegisterStep::ExtendStates,
            RegisterStep::PrepareNamespace,
            RegisterStep::IssueToken,
            RegisterStep::StoreConfigmap,
            RegisterStep::InstallHelm,
            RegisterStep::ClaimOwnership
        ]
    );
    assert_eq!(
        register_steps(false, false),
        vec![
            RegisterStep::ResolveName,
            RegisterStep::DiscoverLocations,
            RegisterStep::ResolveProvider,
            RegisterStep::Register,
            RegisterStep::PrepareNamespace,
            RegisterStep::IssueToken,
            RegisterStep::StoreConfigmap,
            RegisterStep::InstallHelm
        ]
    );
    assert!(!RegisterStep::ResolveProvider.mutates());
    assert!(RegisterStep::Register.mutates());
}

fn cluster_with_chart() -> Cluster {
    Cluster {
        id: 0,
        name: ClusterName::from("zulu"),
        created: 0,
        modified: 0,
        locations: ClusterLocations::from(&vec![]),
        helm: vec![statehub::v0::Helm {
            repo: "https://charts.example".to_string(),
            chart: "agent".to_string(),
            version: "1.2.3".to_string(),
            parameters: vec![("a".to_string(), "1".to_string())],
        }],
    }
}

#[test]
fn helm_commands_carry_chart_and_cluster() {
    let helm = Helm::new("statehub-system".to_string(), Some("default".to_string()), false);
    let commands = helm.command(&cluster_with_chart());
    assert_eq!(commands.len(), 1);
    assert_eq!(
        commands[0].show(),
        "helm install agent --namespace statehub-system --repo https://charts.example --version 1.2.3 agent --set a=1 --set cluster-name=zulu --set default-state=default"
    );
    assert_eq!(helm.namespace(), "statehub-system");
    assert_eq!(helm.default_state(), Some("default"));
}

#[test]
fn helm_report_runs_past_failures() {
    let helm = Helm::new("ns".to_string(), None, false);
    let commands = vec![
        HelmCommand { args: vec!["install".to_string(), "a".to_string()] },
        HelmCommand { args: vec!["install".to_string(), "b".to_string()] },
    ];
    let outcomes = vec![
        HelmOutcome { success: false, stdout: String::new(), stderr: "boom".to_string() },
        HelmOutcome { success: true, stdout: "done".to_string(), stderr: String::new() },
    ];
    let (out, err) = helm.report(&commands, &outcomes);
    assert_eq!(out, "helm install b\ndone\n");
    assert_eq!(err, "Running 'helm install a' failed\nboom\n");
    let skipped = helm.skip();
    let (out, err) = skipped.report(&commands, &vec![]);
    assert_eq!(out, "");
    assert_eq!(err, "Manually run\nhelm install a\nhelm install b");
}

#[test]
fn cluster_token_is_stored_in_base64() {
    let (key, value) = statehub::register::cluster_token_data("token");
    assert_eq!(key, "cluster-token");
    assert_eq!(value, "dG9rZW4=");
    let (_, empty) = statehub::register::cluster_token_data("");
    assert_eq!(empty, "");
}

#[test]
fn configmap_defaults_to_empty_state() {
    let helm = Helm::new("ns".to_string(), None, true);
    let data = configmap_data(&ClusterName::from("zulu"), &helm, "https://api.statehub.io/v0");
    assert_eq!(data.cluster_name, "zulu");
    assert_eq!(data.default_state, "");
    assert_eq!(data.api_url, "https://api.statehub.io/v0");
    assert_eq!(data.cleanup_grace, "600s");
}

#[test]
fn api_addresses() {
    assert_eq!(base_url("https://api.example.com"), "https://api.example.com/v0");
    assert_eq!(base_url("api.test.statehub.io"), "https://api.test.statehub.io/v0");
    assert_eq!(base_url("localhost"), "http://localhost:3000/v0");
    assert_eq!(base_url("api.example.com"), "http://api.example.com:3000/v0");
    let state = StateName::from("alfa");
    assert_eq!(
        aws_location_path(&state, AwsRegion::UsWest2),
        "/states/alfa/locations/aws/us-west-2"
    );
    assert_eq!(
        location_path(&state, &Location::Azure(AzureRegion::EastUs2)),
        "/states/alfa/locations/azure/eastus2"
    );
    assert_eq!(set_owner_path(&state, &ClusterName::from("zulu")), "/states/alfa/owner/zulu");
    assert_eq!(cluster_token_path(&ClusterName::from("zulu")), "/clusters/zulu/token");
    assert_eq!(
        volume_primary_path(&state, &VolumeName::from("v"), &Location::Aws(AwsRegion::UsEast1)),
        "/states/alfa/volumes/v/activeLocation/aws:us-east-1"
    );
    assert!(is_unauthorized(Some(401)));
    assert!(!is_unauthorized(Some(403)));
    assert!(!is_unauthorized(None));
}

#[test]
fn config_layers() {
    let config = Config::default();
    assert_eq!(config.api(), "https://api.statehub.io");
    assert_eq!(config.console(), "https://console.statehub.io");
    assert_eq!(config.token(), None);
    let config = config
        .optionally_management_api(Some("http://localhost".to_string()))
        .optionally_management_console(None)
        .set_token(Some("t".to_string()));
    assert_eq!(config.api(), "http://localhost");
    assert_eq!(config.console(), "https://console.statehub.io");
    assert_eq!(config.token(), Some("t"));
    let config = config.set_token(None);
    assert_eq!(config.token(), Some("t"));
    let v1 = ConfigV1 { version: "1".to_string(), api: "a".to_string(), token: None };
    let loaded = Config::rolling_load(ConfigV1::validate_config(Some("1"), Some(v1)), None);
    assert_eq!(loaded.api(), "a");
    assert_eq!(loaded.version, "2");
    let v2 = ConfigV2 {
        version: "2".to_string(),
        api: "b".to_string(),
        console: "c".to_string(),
        token: Some("t".to_string()),
    };
    assert!(ConfigV2::validate_config(Some("1"), None).is_none());
    let loaded = Config::rolling_load(None, ConfigV2::validate_config(Some("2"), Some(v2)));
    assert_eq!(loaded.console(), "c");
    let fallback = Config::rolling_load(None, None);
    assert_eq!(fallback.api(), "https://api.statehub.io");
}

#[test]
fn decimal_rendering() {
    assert_eq!(to_decimal(0), "0");
    assert_eq!(to_decimal(7), "7");
    assert_eq!(to_decimal(1234567890), "1234567890");
    assert_eq!(to_decimal(u64::MAX), u64::MAX.to_string());
}
