use statehub::location::{InvalidRegion, Location};
use statehub::register::RegisterStep;
use statehub::text::{starts_with, str_eq, strip_prefix};
use statehub::v0::{AwsRegion, AzureRegion, ClusterName, InvalidVolumeFileSystem, StateLocationAws, StateLocationStatus, StateLocations, StateName};
use statehub::v1;

#[test]
fn string_helpers() {
    assert!(str_eq("abc", "abc"));
    assert!(!str_eq("abc", "abd"));
    assert!(!str_eq("abc", "ab"));
    assert!(starts_with("aws:us-west-2", "aws:"));
    assert!(!starts_with("aw", "aws:"));
    assert_eq!(strip_prefix("aws:us-west-2", "aws:"), "us-west-2");
    assert_eq!(strip_prefix("us-west-2", "aws:"), "us-west-2");
    assert_eq!(strip_prefix("ünïcode", "ü"), "nïcode");
}

#[test]
fn padding() {
    assert_eq!(statehub::text::pad_right_align("ab", 5), "   ab");
    assert_eq!(statehub::text::pad_left_align("ab", 5), "ab   ");
    assert_eq!(statehub::text::pad_right_align("abcdef", 5), "abcdef");
    assert_eq!(statehub::text::pad_left_align("ünï", 4), "ünï ");
}

#[test]
fn error_values_keep_their_text() {
    let e = InvalidRegion::new("AWS", "nowhere");
    assert_eq!(e.vendor, "AWS");
    assert_eq!(e.region, "nowhere");
    let fs = InvalidVolumeFileSystem::new("ntfs");
    assert_eq!(fs.file_system, "ntfs");
}

#[test]
fn step_successors_skip_what_is_not_asked() {
    assert_eq!(RegisterStep::Register.next(false, false), RegisterStep::PrepareNamespace);
    assert_eq!(RegisterStep::Register.next(true, false), RegisterStep::ExtendStates);
    assert_eq!(RegisterStep::InstallHelm.next(false, false), RegisterStep::Done);
    assert_eq!(RegisterStep::InstallHelm.next(false, true), RegisterStep::ClaimOwnership);
    assert_eq!(RegisterStep::Done.next(true, true), RegisterStep::Done);
}

#[test]
fn state_locations_membership() {
    let locations = StateLocations {
        aws: vec![StateLocationAws {
            region: AwsRegion::EuNorth1,
            status: StateLocationStatus::Provisioning,
            volumes: vec![],
            private_link_service: None,
        }],
        azure: vec![],
    };
    assert!(locations.contains(&Location::Aws(AwsRegion::EuNorth1)));
    assert!(!locations.contains(&Location::Azure(AzureRegion::NorthEurope)));
    assert!(!locations.contains(&Location::Aws(AwsRegion::EuWest1)));
}

#[test]
fn unversioned_state_model() {
    let mut state = v1::State {
        id: 7,
        name: StateName::from("alfa"),
        created: 0,
        modified: 0,
        storage_class: None,
        locations: StateLocations { aws: vec![], azure: vec![] },
        owner: None,
        provisioning_status: v1::ProvisioningStatus::Ready,
        allowed_clusters: None,
        condition: v1::Condition::Green,
    };
    assert!(!state.is_available_in(&Location::Azure(AzureRegion::WestUs2)));
    assert_eq!(state.show_owner(), "🔓");
    state.owner = Some(ClusterName::from("zulu"));
    assert_eq!(state.show_owner(), "🔒 zulu");
    assert_eq!(v1::VERSION, "");
    assert_eq!(v1::StateLocationStatus::Error.as_str(), "error");
    assert!(v1::StateLocationStatus::Error.is_final());
    assert_eq!(v1::Permission::ReadStates.as_str(), "read:states");
}
