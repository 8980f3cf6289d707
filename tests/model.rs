use statehub::location::Location;
use statehub::v0::{
    AwsRegion, AzureRegion, Cluster, ClusterLocations, ClusterName, Condition,
    CreateStateLocationsDto, LocationVolumeStatus, Permission, Provider, ProvisioningStatus, State,
    StateLocationAws, StateLocationAzure, StateLocationStatus, StateLocationVolumeProgress,
    Volume, VolumeBindingMode, VolumeFileSystem, VolumeLocation, VolumeName, VolumeStatus,
};

fn volume_location(name: &str, value: StateLocationStatus, progress: Option<(u64, u64)>) -> VolumeLocation {
    VolumeLocation {
        status: LocationVolumeStatus { value, msg: None },
        progress: progress.map(|(s, t)| StateLocationVolumeProgress {
            bytes_synchronized: s,
            bytes_total: t,
        }),
        name: name.to_string(),
    }
}

fn volume(locations: Vec<VolumeLocation>) -> Volume {
    Volume {
        id: 0,
        name: VolumeName::from("vol"),
        size_gi: 1,
        fs_type: "ext4".to_string(),
        active_location: None,
        locations,
        format: None,
        created: 0,
        modified: 0,
    }
}

#[test]
fn location_status_names_and_finality() {
    let all = [
        (StateLocationStatus::Ready, "ok", true),
        (StateLocationStatus::Provisioning, "provisioning", false),
        (StateLocationStatus::Recovering, "recovering", false),
        (StateLocationStatus::Deleting, "deleting", false),
        (StateLocationStatus::Error, "error", true),
    ];
    for (status, name, final_) in all {
        assert_eq!(status.as_str(), name);
        assert_eq!(status.is_final(), final_);
        assert_eq!(status.is_deleting(), status == StateLocationStatus::Deleting);
    }
}

#[test]
fn new_state_is_empty_and_green() {
    let state = State::new("alfa");
    assert_eq!(state.name.as_str(), "alfa");
    assert!(state.owner.is_none());
    assert_eq!(state.condition, Condition::Green);
    assert_eq!(state.provisioning_status, ProvisioningStatus::Ready);
    assert!(state.all_locations().is_empty());
    assert_eq!(Condition::default(), Condition::Green);
    assert_eq!(ProvisioningStatus::default(), ProvisioningStatus::Ready);
    assert_eq!(VolumeBindingMode::default(), VolumeBindingMode::WaitForFirstConsumer);
}

#[test]
fn owner_is_shown_with_a_lock() {
    let mut state = State::new("alfa");
    assert_eq!(state.show_owner(true), "🔓");
    assert_eq!(state.show_owner(false), "-");
    state.owner = Some(ClusterName::from("zulu"));
    assert_eq!(state.show_owner(true), "🔒 zulu");
    assert_eq!(state.show_owner(false), "zulu");
}

#[test]
fn state_listing_line() {
    let mut state = State::new("alfa");
    state.locations.aws.push(StateLocationAws {
        region: AwsRegion::UsWest2,
        status: StateLocationStatus::Provisioning,
        volumes: vec![volume_location("a", StateLocationStatus::Ready, None)],
        private_link_service: None,
    });
    state.locations.azure.push(StateLocationAzure {
        region: AzureRegion::EastUs2,
        status: StateLocationStatus::Ready,
        volumes: vec![],
        private_link_service: None,
    });
    assert_eq!(
        state.show(false),
        format!(
            "o {:>24} [GREEN]  {:<12} [aws:us-west-2 [+], azure:eastus2 [v]] (-)",
            "alfa", "(1 volume)"
        )
    );
    assert_eq!(
        state.show(true),
        format!(
            "☘ {:>24} 🟢 {:<12} [aws:us-west-2 ⤴, azure:eastus2 🆗] (🔓)",
            "alfa", "(1 volume)"
        )
    );
    assert_eq!(Condition::Red.show(false), "[RED]   ");
    assert_eq!(Condition::Yellow.show(true), "🟡");
}

#[test]
fn cluster_listing_line() {
    let c = Cluster {
        id: 0,
        name: ClusterName::from("zulu"),
        created: 0,
        modified: 0,
        locations: ClusterLocations::from(&vec![
            Location::Aws(AwsRegion::UsEast2),
            Location::Azure(AzureRegion::UkSouth),
        ]),
        helm: vec![],
    };
    assert_eq!(c.locations.show(), "aws:us-east-2, azure:uksouth");
    assert_eq!(c.show(false), format!("* {:>24} [aws:us-east-2, azure:uksouth]", "zulu"));
    assert_eq!(Provider::Aks.as_upper_str(), "AKS");
}

#[test]
fn volume_details() {
    let mut v = volume(vec![]);
    v.size_gi = 20;
    assert_eq!(
        statehub::v0::volume::volume(&v),
        format!("Volume  :{:>60}\nSize    :{:>56} GiB\nFS Type :{:>60}\n", "vol", 20, "ext4")
    );
    let status = LocationVolumeStatus {
        value: StateLocationStatus::Error,
        msg: Some("disk full".to_string()),
    };
    assert_eq!(status.show(false), "[x] disk full");
    let pls = statehub::v0::PrivateLinkServiceAws { id: "i".to_string(), name: "n".to_string() };
    assert_eq!(pls.show(), "i / n");
}

#[test]
fn volumes_are_counted_by_the_fullest_location() {
    let mut state = State::new("alfa");
    assert_eq!(state.count_volumes(), "(0 volumes)");
    state.locations.aws.push(StateLocationAws {
        region: AwsRegion::UsWest2,
        status: StateLocationStatus::Ready,
        volumes: vec![volume_location("a", StateLocationStatus::Ready, None)],
        private_link_service: None,
    });
    assert_eq!(state.count_volumes(), "(1 volume)");
    let many: Vec<VolumeLocation> = (0..12)
        .map(|i| volume_location(&format!("v{}", i), StateLocationStatus::Ready, None))
        .collect();
    state.locations.azure.push(StateLocationAzure {
        region: AzureRegion::EastUs,
        status: StateLocationStatus::Ready,
        volumes: many,
        private_link_service: None,
    });
    assert_eq!(state.count_volumes(), "(12 volumes)");
}

#[test]
fn volume_deletion_and_progress() {
    let v = volume(vec![
        volume_location("a", StateLocationStatus::Ready, None),
        volume_location("b", StateLocationStatus::Provisioning, Some((50, 200))),
        volume_location("c", StateLocationStatus::Deleting, Some((1, 2))),
    ]);
    assert!(v.is_deleting());
    let (status, progress) = v.progress().expect("a location reports progress");
    assert_eq!(status.value, StateLocationStatus::Provisioning);
    assert_eq!(progress.bytes_synchronized, 50);
    assert_eq!(progress.show(), "25%");
    let quiet = volume(vec![volume_location("a", StateLocationStatus::Ready, None)]);
    assert!(!quiet.is_deleting());
    assert!(quiet.progress().is_none());
    assert!(!quiet.locations[0].status.is_deleting());
}

#[test]
fn file_systems_parse_and_print() {
    for (fs, name) in [
        (VolumeFileSystem::Ext, "ext"),
        (VolumeFileSystem::Ext2, "ext2"),
        (VolumeFileSystem::Ext3, "ext3"),
        (VolumeFileSystem::Ext4, "ext4"),
        (VolumeFileSystem::Jfs, "jfs"),
        (VolumeFileSystem::Swap, "swap"),
        (VolumeFileSystem::Fat, "fat"),
        (VolumeFileSystem::Fat32, "fat32"),
    ] {
        assert_eq!(fs.as_str(), name);
        assert_eq!(VolumeFileSystem::from_str(name).ok(), Some(fs));
    }
    match VolumeFileSystem::from_str("ntfs") {
        Err(e) => assert_eq!(e.message(), "Invalid file system type \"ntfs"),
        Ok(_) => panic!("ntfs is not supported"),
    }
}

#[test]
fn volume_statuses_parse_and_print() {
    for (s, name) in [
        (VolumeStatus::Ready, "ok"),
        (VolumeStatus::Degraded, "degraded"),
        (VolumeStatus::Error, "error"),
        (VolumeStatus::Syncing, "syncing"),
        (VolumeStatus::Pending, "pending"),
    ] {
        assert_eq!(s.as_str(), name);
        assert_eq!(VolumeStatus::from_str(name), Some(s));
    }
    assert_eq!(VolumeStatus::from_str("OK"), None);
}

#[test]
fn providers_parse_and_print() {
    for (p, name) in [
        (Provider::Eks, "eks"),
        (Provider::Aks, "aks"),
        (Provider::Kops, "kops"),
        (Provider::Generic, "generic"),
    ] {
        assert_eq!(p.as_str(), name);
        assert_eq!(Provider::from_str(name), Some(p));
    }
    assert_eq!(Provider::from_str("gke"), None);
}

#[test]
fn permissions_parse_and_print() {
    assert_eq!(Permission::ReadClusters.as_str(), "read:clusters");
    assert_eq!(Permission::ReadOrganizationRole.as_str(), "read:organization_roles");
    assert_eq!(Permission::UpdateStateLocationPle.as_str(), "update:state_location_ple");
    assert_eq!(Permission::from_str("read:clusters"), Some(Permission::ReadClusters));
    assert_eq!(Permission::from_str("update:profile"), Some(Permission::UpdateProfile));
    assert_eq!(Permission::from_str("read:everything"), None);
    for p in [Permission::DeleteMembers, Permission::CreateClusterToken, Permission::ReadProfile] {
        assert_eq!(Permission::from_str(p.as_str()), Some(p));
    }
}

#[test]
fn locations_split_by_vendor() {
    let ls = vec![
        Location::Azure(AzureRegion::EastUs),
        Location::Aws(AwsRegion::UsWest1),
        Location::Aws(AwsRegion::EuWest1),
    ];
    let cluster = ClusterLocations::from(&ls);
    assert_eq!(cluster.aws.len(), 2);
    assert_eq!(cluster.aws[0].region, AwsRegion::UsWest1);
    assert_eq!(cluster.aws[1].region, AwsRegion::EuWest1);
    assert!(cluster.aws[0].account_principal.is_none());
    assert_eq!(cluster.azure.len(), 1);
    assert_eq!(cluster.azure[0].region, AzureRegion::EastUs);
    let dto = CreateStateLocationsDto::from(&ls);
    assert_eq!(dto.aws.len(), 2);
    assert_eq!(dto.azure[0].region, AzureRegion::EastUs);
    let c = Cluster {
        id: 0,
        name: ClusterName::from("zulu"),
        created: 0,
        modified: 0,
        locations: cluster,
        helm: vec![],
    };
    assert_eq!(
        c.all_locations(),
        vec![
            Location::Aws(AwsRegion::UsWest1),
            Location::Aws(AwsRegion::EuWest1),
            Location::Azure(AzureRegion::EastUs),
        ]
    );
}

#[test]
fn volumes_grouped_by_name() {
    let mut state = State::new("alfa");
    state.locations.aws.push(StateLocationAws {
        region: AwsRegion::UsWest2,
        status: StateLocationStatus::Ready,
        volumes: vec![
            volume_location("db", StateLocationStatus::Ready, None),
            volume_location("logs", StateLocationStatus::Provisioning, None),
        ],
        private_link_service: None,
    });
    state.locations.azure.push(StateLocationAzure {
        region: AzureRegion::EastUs,
        status: StateLocationStatus::Ready,
        volumes: vec![volume_location("db", StateLocationStatus::Error, None)],
        private_link_service: None,
    });
    let groups = state.collect_volumes();
    assert_eq!(groups.len(), 2);
    assert_eq!(groups[0].name, "db");
    assert_eq!(
        groups[0].locations,
        vec![
            (Location::Aws(AwsRegion::UsWest2), StateLocationStatus::Ready),
            (Location::Azure(AzureRegion::EastUs), StateLocationStatus::Error),
        ]
    );
    assert_eq!(groups[1].name, "logs");
    assert_eq!(
        state.show_volumes(false),
        "  db:\n    aws:us-west-2: [v], azure:eastus: [x]\n  logs:\n    aws:us-west-2: [+]"
    );
    assert_eq!(State::new("empty").show_volumes(true), "");
}

#[test]
fn locations_in_detail() {
    let mut state = State::new("alfa");
    state.locations.aws.push(StateLocationAws {
        region: AwsRegion::UsWest2,
        status: StateLocationStatus::Ready,
        volumes: vec![],
        private_link_service: Some(statehub::v0::PrivateLinkServiceAws {
            id: "pls-1".to_string(),
            name: "svc".to_string(),
        }),
    });
    state.locations.azure.push(StateLocationAzure {
        region: AzureRegion::EastUs,
        status: StateLocationStatus::Deleting,
        volumes: vec![],
        private_link_service: None,
    });
    assert_eq!(
        state.locations.detailed_show(false),
        " aws:us-west-2:\n  Status: [v]\n  PLS   : pls-1 / svc\n azure:eastus:\n  Status: [-]\n  PLS   : None"
    );
}

#[test]
fn listings_are_one_line_each() {
    let states = vec![State::new("alfa"), State::new("bravo")];
    let text = statehub::v0::state::show_states(&states, false);
    assert_eq!(text.lines().count(), 2);
    assert_eq!(text, format!("{}\n{}", states[0].show(false), states[1].show(false)));
    let none: Vec<Cluster> = vec![];
    assert_eq!(statehub::v0::cluster::show_clusters(&none, true), "");
}
