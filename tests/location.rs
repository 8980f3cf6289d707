use statehub::location::{show_locations, Location, LocationError};
use statehub::v0::{AwsRegion, AzureRegion, GcpRegion};

const AWS: [AwsRegion; 16] = [
    AwsRegion::ApNortheast1,
    AwsRegion::ApNortheast2,
    AwsRegion::ApSouth1,
    AwsRegion::ApSoutheast1,
    AwsRegion::ApSoutheast2,
    AwsRegion::CaCentral1,
    AwsRegion::EuCentral1,
    AwsRegion::EuNorth1,
    AwsRegion::EuWest1,
    AwsRegion::EuWest2,
    AwsRegion::EuWest3,
    AwsRegion::SaEast1,
    AwsRegion::UsEast1,
    AwsRegion::UsEast2,
    AwsRegion::UsWest1,
    AwsRegion::UsWest2,
];

const AZURE: [AzureRegion; 10] = [
    AzureRegion::CentralUs,
    AzureRegion::EastUs,
    AzureRegion::EastUs2,
    AzureRegion::FranceCentral,
    AzureRegion::JapanEast,
    AzureRegion::NorthEurope,
    AzureRegion::SouthEastasia,
    AzureRegion::UkSouth,
    AzureRegion::WestEurope,
    AzureRegion::WestUs2,
];

fn all_locations() -> Vec<Location> {
    let mut all: Vec<Location> = AWS.iter().map(|r| Location::Aws(*r)).collect();
    all.extend(AZURE.iter().map(|r| Location::Azure(*r)));
    all
}

#[test]
fn qualified_form_round_trips_for_every_region() {
    for location in all_locations() {
        let qualified = location.show();
        match Location::from_str(&qualified) {
            Ok(parsed) => assert_eq!(parsed, location, "{}", qualified),
            Err(e) => panic!("{} did not parse: {}", qualified, e.message()),
        }
    }
}

#[test]
fn bare_form_round_trips_for_every_region() {
    for location in all_locations() {
        let bare = location.as_str();
        match Location::from_str(bare) {
            Ok(parsed) => assert_eq!(parsed, location, "{}", bare),
            Err(e) => panic!("{} did not parse: {}", bare, e.message()),
        }
    }
}

#[test]
fn display_forms() {
    let aws = Location::Aws(AwsRegion::UsWest2);
    let azure = Location::Azure(AzureRegion::EastUs2);
    assert_eq!(aws.as_str(), "us-west-2");
    assert_eq!(aws.show(), "aws:us-west-2");
    assert_eq!(azure.as_str(), "eastus2");
    assert_eq!(azure.show(), "azure:eastus2");
    assert_eq!(AwsRegion::UsWest2.qualified(), "aws:us-west-2");
    assert_eq!(AzureRegion::EastUs2.qualified(), "azure:eastus2");
}

#[test]
fn both_vendors_accepting_is_ambiguous() {
    let r = Location::from_parsed(Ok(AwsRegion::UsEast1), Ok(AzureRegion::EastUs));
    match r {
        Err(LocationError::Ambiguous(aws, azure)) => {
            assert_eq!(aws, AwsRegion::UsEast1);
            assert_eq!(azure, AzureRegion::EastUs);
        }
        _ => panic!("expected an ambiguity error"),
    }
    let e = Location::from_parsed(Ok(AwsRegion::UsEast1), Ok(AzureRegion::EastUs)).err().unwrap();
    assert_eq!(
        e.message(),
        "Ambiguous region, use either aws:us-east-1 or azure:eastus"
    );
}

#[test]
fn one_vendor_accepting_wins() {
    let bad = || statehub::location::InvalidRegion::new("Azure", "us-east-1");
    assert_eq!(
        Location::from_parsed(Ok(AwsRegion::UsEast1), Err(bad())).ok(),
        Some(Location::Aws(AwsRegion::UsEast1))
    );
    let bad = statehub::location::InvalidRegion::new("AWS", "eastus");
    assert_eq!(
        Location::from_parsed(Err(bad), Ok(AzureRegion::EastUs)).ok(),
        Some(Location::Azure(AzureRegion::EastUs))
    );
}

#[test]
fn unknown_region_reports_both_vendors() {
    match Location::from_str("mars-north-1") {
        Err(e) => {
            assert_eq!(
                e.message(),
                "Invalid AWS region \"mars-north-1\" or Invalid Azure region \"mars-north-1\""
            );
        }
        Ok(_) => panic!("expected an error"),
    }
}

#[test]
fn qualified_prefix_is_stripped_in_errors() {
    match AwsRegion::from_str("aws:nowhere") {
        Err(e) => assert_eq!(e.message(), "Invalid AWS region \"nowhere\""),
        Ok(_) => panic!("expected an error"),
    }
    match AzureRegion::from_str("azure:us-west-2") {
        Err(e) => assert_eq!(e.message(), "Invalid Azure region \"us-west-2\""),
        Ok(_) => panic!("expected an error"),
    }
}

#[test]
fn vendor_prefix_selects_the_vendor() {
    assert_eq!(
        Location::from_str("aws:eu-west-3").ok(),
        Some(Location::Aws(AwsRegion::EuWest3))
    );
    assert!(Location::from_str("azure:eu-west-3").is_err());
    assert!(Location::from_str("").is_err());
}

#[test]
fn gcp_regions() {
    assert_eq!(GcpRegion::Antarctica.as_str(), "antarctica");
    assert_eq!(GcpRegion::Antarctica.qualified(), "gcp:antarctica");
    assert!(GcpRegion::from_str("gcp:antarctica").is_ok());
    assert!(GcpRegion::from_str("antarctica").is_ok());
    match GcpRegion::from_str("arctic") {
        Err(e) => assert_eq!(e.message(), "Invalid GCP region \"arctic\""),
        Ok(_) => panic!("expected an error"),
    }
}

#[test]
fn locations_are_shown_qualified_and_joined() {
    let ls = vec![
        Location::Aws(AwsRegion::UsWest2),
        Location::Azure(AzureRegion::EastUs2),
    ];
    assert_eq!(show_locations(&ls), "aws:us-west-2 and azure:eastus2");
    assert_eq!(show_locations(&vec![]), "");
    assert_eq!(
        show_locations(&vec![Location::Aws(AwsRegion::SaEast1)]),
        "aws:sa-east-1"
    );
}
