//! Data model of the unversioned management API. It shares its regions,
//! locations, statuses and volumes with the `v0` model; states, storage
//! classes, volumes and errors have their own shape here.

use vstd::prelude::*;

use crate::location::Location;
use crate::v0::{ClusterName, VolumeBindingMode};

pub use crate::v0::{
    AwsRegion, AzureRegion, Condition, CreateStateLocationAwsDto, CreateStateLocationAzureDto,
    CreateStateLocationsDto, CreateVolumeDto, GcpRegion, Helm, InvalidVolumeFileSystem,
    LocationVolumeStatus, Permission, PrivateLinkServiceAws, PrivateLinkServiceAzure,
    ProvisioningStatus, StateLocationAws, StateLocationAzure, StateLocationStatus,
    StateLocationVolumeProgress, StateLocations, StateName, VolumeFileSystem, VolumeLocation,
    VolumeName, VolumeStatus,
};

verus! {

/// The API version that paths are under: none.
pub const VERSION: &'static str = "";

pub struct State {
    /// The record's UUID, as its 128-bit value.
    pub id: u128,
    pub name: StateName,
    /// Seconds since the Unix epoch.
    pub created: i64,
    /// Seconds since the Unix epoch.
    pub modified: i64,
    pub storage_class: Option<StorageClass>,
    pub locations: StateLocations,
    pub owner: Option<ClusterName>,
    pub provisioning_status: ProvisioningStatus,
    pub allowed_clusters: Option<Vec<ClusterName>>,
    pub condition: Condition,
}

pub struct StorageClass {
    pub mount_options: Option<String>,
    pub volume_binding_mode: VolumeBindingMode,
}

/// The body of a state creation.
pub struct CreateStateDto {
    pub name: StateName,
    pub storage_class: Option<StorageClass>,
    pub locations: CreateStateLocationsDto,
    pub owner: Option<ClusterName>,
    pub allowed_clusters: Option<Vec<ClusterName>>,
}

pub struct Volume {
    /// The record's UUID, as its 128-bit value.
    pub id: u128,
    pub name: String,
    pub size_gi: u64,
    pub fs_type: String,
    pub active_location: Option<String>,
    pub locations: Vec<VolumeLocation>,
    /// Seconds since the Unix epoch.
    pub created: i64,
    /// Seconds since the Unix epoch.
    pub modified: i64,
}

/// An error response of the management API.
pub struct Error {
    pub http_code: u16,
    pub http_status: String,
    pub error: StateHubError,
    pub msg: String,
}

/// What went wrong, as the `errorCode` of a response tells it.
pub enum StateHubError {
    InvalidToken,
    ClusterNotAuthorized { permission: Permission, resource_name: String, resource_type: String },
    ClusterNameConflict { cluster: String },
    ClusterNotFound { cluster: String },
}

impl State {
    /// Availability is membership, whatever the entry's status.
    pub open spec fn spec_available_in(&self, location: Location) -> bool {
        self.locations.spec_contains(location)
    }

    pub fn is_available_in(&self, location: &Location) -> (r: bool)
        ensures
            r == self.spec_available_in(*location),
    {
        self.locations.contains(location)
    }

    /// `🔒 <owner>`, or `🔓` for an unowned state.
    pub fn show_owner(&self) -> (r: String)
        ensures
            r@ == match self.owner {
                Some(cluster) => "🔒 "@ + cluster.0@,
                None => "🔓"@,
            },
    {
        match &self.owner {
            Some(cluster) => {
                let mut r = String::from_str("🔒 ");
                r.append(cluster.as_str());
                r
            },
            None => String::from_str("🔓"),
        }
    }
}

} // verus!
