//! Data model of the management API.

pub mod aws;
pub mod azure;
pub mod cluster;
pub mod error;
pub mod gcp;
pub mod helm;
pub mod login;
pub mod state;
pub mod volume;

pub use aws::{AwsRegion, PrivateLinkServiceAws};
pub use azure::{AzureRegion, PrivateLinkServiceAzure};
pub use cluster::{
    Cluster, ClusterLocationAws, ClusterLocationAzure, ClusterLocations, ClusterName, ClusterToken,
    CreateClusterDto, Provider,
};
pub use error::{Error, Permission, StatehubError};
pub use gcp::GcpRegion;
pub use helm::Helm;
pub use login::Login;
pub use state::{
    Condition, CreateStateDto, CreateStateLocationAwsDto, CreateStateLocationAzureDto,
    CreateStateLocationsDto, ProvisioningStatus, State, StateLocationAws, StateLocationAzure,
    StateLocationStatus, StateLocations, StateName, StorageClass,
};
pub use volume::{
    CreateVolumeDto, InvalidVolumeFileSystem, LocationVolumeStatus, StateLocationVolumeProgress,
    Volume, VolumeBindingMode, VolumeFileSystem, VolumeLocation, VolumeName, VolumeStatus,
};
