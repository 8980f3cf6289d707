//! Errors that the management API reports.

use vstd::prelude::*;

use crate::text::str_eq;
use crate::v0::{AwsRegion, AzureRegion, ClusterName, StateName, VolumeName};

verus! {

/// An error response of the management API.
pub struct Error {
    pub http_code: u16,
    pub http_status: String,
    pub error: StatehubError,
    pub msg: String,
}

/// What went wrong, as the `errorCode` of a response tells it.
#[allow(inconsistent_fields)]
pub enum StatehubError {
    InvalidToken,
    ClusterNotAuthorized { permission: Permission, resource_name: String, resource_type: String },
    ClusterNameConflict { cluster: ClusterName },
    ClusterNotFound { cluster: ClusterName },
    ClusterIsStateOwner { cluster: ClusterName, state: StateName },
    StateNameConflict { state: StateName },
    StateNotFound { state: StateName },
    AwsLocationExists { state: StateName, region: AwsRegion },
    AzureLocationExists { state: StateName, region: AzureRegion },
    VolumeNotFound { state: StateName, volume: VolumeName },
    UnknownError { message: String },
}

/// A permission that the management API grants or refuses.
#[derive(Clone, Copy, Debug, PartialEq, Eq, Hash, Structural)]
pub enum Permission {
    ReadClusters,
    CreateClusters,
    DeleteClusters,
    CreateClusterToken,
    ReadClusterToken,
    DeleteClusterToken,
    ReadClusterLocations,
    UpdateClusterLocations,
    ReadStates,
    CreateStates,
    DeleteStates,
    CreateStateOwner,
    DeleteStateOwner,
    CreateStateLocations,
    ReadStateLocations,
    DeleteStateLocations,
    ReadStateLocationPrincipals,
    CreateStateLocationPrincipals,
    UpdateStateLocationPle,
    ReadVolumes,
    CreateVolumes,
    DeleteVolumes,
    UpdateVolumeActiveLocation,
    DeleteVolumeActiveLocation,
    ReadOrganization,
    UpdateOrganization,
    ReadOrganizationRole,
    ReadPersonalTokens,
    CreatePersonalTokens,
    UpdatePersonalTokens,
    DeletePersonalTokens,
    ReadInvitations,
    CreateInvitations,
    UpdateInvitations,
    DeleteInvitations,
    ReadMembers,
    CreateMembers,
    UpdateMembers,
    DeleteMembers,
    ReadProfile,
    UpdateProfile,
}

impl Permission {
    pub open spec fn spec_as_str(self) -> Seq<char> {
        match self {
            Permission::ReadClusters => "read:clusters"@,
            Permission::CreateClusters => "create:clusters"@,
            Permission::DeleteClusters => "delete:clusters"@,
            Permission::CreateClusterToken => "create:cluster_token"@,
            Permission::ReadClusterToken => "read:cluster_token"@,
            Permission::DeleteClusterToken => "delete:cluster_token"@,
            Permission::ReadClusterLocations => "read:cluster_locations"@,
            Permission::UpdateClusterLocations => "update:cluster_locations"@,
            Permission::ReadStates => "read:states"@,
            Permission::CreateStates => "create:states"@,
            Permission::DeleteStates => "delete:states"@,
            Permission::CreateStateOwner => "create:state_owner"@,
            Permission::DeleteStateOwner => "delete:state_owner"@,
            Permission::CreateStateLocations => "create:state_locations"@,
            Permission::ReadStateLocations => "read:state_locations"@,
            Permission::DeleteStateLocations => "delete:state_locations"@,
            Permission::ReadStateLocationPrincipals => "read:state_location_principals"@,
            Permission::CreateStateLocationPrincipals => "create:state_location_principals"@,
            Permission::UpdateStateLocationPle => "update:state_location_ple"@,
            Permission::ReadVolumes => "read:volumes"@,
            Permission::CreateVolumes => "create:volumes"@,
            Permission::DeleteVolumes => "delete:volumes"@,
            Permission::UpdateVolumeActiveLocation => "update:volume_active_location"@,
            Permission::DeleteVolumeActiveLocation => "delete:volume_active_location"@,
            Permission::ReadOrganization => "read:organization"@,
            Permission::UpdateOrganization => "update:organization"@,
            Permission::ReadOrganizationRole => "read:organization_roles"@,
            Permission::ReadPersonalTokens => "read:personal_tokens"@,
            Permission::CreatePersonalTokens => "create:personal_tokens"@,
            Permission::UpdatePersonalTokens => "update:personal_tokens"@,
            Permission::DeletePersonalTokens => "delete:personal_tokens"@,
            Permission::ReadInvitations => "read:invitations"@,
            Permission::CreateInvitations => "create:invitations"@,
            Permission::UpdateInvitations => "update:invitations"@,
            Permission::DeleteInvitations => "delete:invitations"@,
            Permission::ReadMembers => "read:members"@,
            Permission::CreateMembers => "create:members"@,
            Permission::UpdateMembers => "update:members"@,
            Permission::DeleteMembers => "delete:members"@,
            Permission::ReadProfile => "read:profile"@,
            Permission::UpdateProfile => "update:profile"@,
        }
    }

    /// The permission that a scope string names.
    pub open spec fn spec_parse(s: Seq<char>) -> Option<Permission> {
        if s == "read:clusters"@ {
            Some(Permission::ReadClusters)
        } else if s == "create:clusters"@ {
            Some(Permission::CreateClusters)
        } else if s == "delete:clusters"@ {
            Some(Permission::DeleteClusters)
        } else if s == "create:cluster_token"@ {
            Some(Permission::CreateClusterToken)
        } else if s == "read:cluster_token"@ {
            Some(Permission::ReadClusterToken)
        } else if s == "delete:cluster_token"@ {
            Some(Permission::DeleteClusterToken)
        } else if s == "read:cluster_locations"@ {
            Some(Permission::ReadClusterLocations)
        } else if s == "update:cluster_locations"@ {
            Some(Permission::UpdateClusterLocations)
        } else if s == "read:states"@ {
            Some(Permission::ReadStates)
        } else if s == "create:states"@ {
            Some(Permission::CreateStates)
        } else if s == "delete:states"@ {
            Some(Permission::DeleteStates)
        } else if s == "create:state_owner"@ {
            Some(Permission::CreateStateOwner)
        } else if s == "delete:state_owner"@ {
            Some(Permission::DeleteStateOwner)
        } else if s == "create:state_locations"@ {
            Some(Permission::CreateStateLocations)
        } else if s == "read:state_locations"@ {
            Some(Permission::ReadStateLocations)
        } else if s == "delete:state_locations"@ {
            Some(Permission::DeleteStateLocations)
        } else if s == "read:state_location_principals"@ {
            Some(Permission::ReadStateLocationPrincipals)
        } else if s == "create:state_location_principals"@ {
            Some(Permission::CreateStateLocationPrincipals)
        } else if s == "update:state_location_ple"@ {
            Some(Permission::UpdateStateLocationPle)
        } else if s == "read:volumes"@ {
            Some(Permission::ReadVolumes)
        } else if s == "create:volumes"@ {
            Some(Permission::CreateVolumes)
        } else if s == "delete:volumes"@ {
            Some(Permission::DeleteVolumes)
        } else if s == "update:volume_active_location"@ {
            Some(Permission::UpdateVolumeActiveLocation)
        } else if s == "delete:volume_active_location"@ {
            Some(Permission::DeleteVolumeActiveLocation)
        } else if s == "read:organization"@ {
            Some(Permission::ReadOrganization)
        } else if s == "update:organization"@ {
            Some(Permission::UpdateOrganization)
        } else if s == "read:organization_roles"@ {
            Some(Permission::ReadOrganizationRole)
        } else if s == "read:personal_tokens"@ {
            Some(Permission::ReadPersonalTokens)
        } else if s == "create:personal_tokens"@ {
            Some(Permission::CreatePersonalTokens)
        } else if s == "update:personal_tokens"@ {
            Some(Permission::UpdatePersonalTokens)
        } else if s == "delete:personal_tokens"@ {
            Some(Permission::DeletePersonalTokens)
        } else if s == "read:invitations"@ {
            Some(Permission::ReadInvitations)
        } else if s == "create:invitations"@ {
            Some(Permission::CreateInvitations)
        } else if s == "update:invitations"@ {
            Some(Permission::UpdateInvitations)
        } else if s == "delete:invitations"@ {
            Some(Permission::DeleteInvitations)
        } else if s == "read:members"@ {
            Some(Permission::ReadMembers)
        } else if s == "create:members"@ {
            Some(Permission::CreateMembers)
        } else if s == "update:members"@ {
            Some(Permission::UpdateMembers)
        } else if s == "delete:members"@ {
            Some(Permission::DeleteMembers)
        } else if s == "read:profile"@ {
            Some(Permission::ReadProfile)
        } else if s == "update:profile"@ {
            Some(Permission::UpdateProfile)
        } else {
            None
        }
    }

    /// The scope string, such as `read:clusters`.
    pub fn as_str(&self) -> (r: &'static str)
        ensures
            r@ == self.spec_as_str(),
    {
        match self {
            Permission::ReadClusters => "read:clusters",
            Permission::CreateClusters => "create:clusters",
            Permission::DeleteClusters => "delete:clusters",
            Permission::CreateClusterToken => "create:cluster_token",
            Permission::ReadClusterToken => "read:cluster_token",
            Permission::DeleteClusterToken => "delete:cluster_token",
            Permission::ReadClusterLocations => "read:cluster_locations",
            Permission::UpdateClusterLocations => "update:cluster_locations",
            Permission::ReadStates => "read:states",
            Permission::CreateStates => "create:states",
            Permission::DeleteStates => "delete:states",
            Permission::CreateStateOwner => "create:state_owner",
            Permission::DeleteStateOwner => "delete:state_owner",
            Permission::CreateStateLocations => "create:state_locations",
            Permission::ReadStateLocations => "read:state_locations",
            Permission::DeleteStateLocations => "delete:state_locations",
            Permission::ReadStateLocationPrincipals => "read:state_location_principals",
            Permission::CreateStateLocationPrincipals => "create:state_location_principals",
            Permission::UpdateStateLocationPle => "update:state_location_ple",
            Permission::ReadVolumes => "read:volumes",
            Permission::CreateVolumes => "create:volumes",
            Permission::DeleteVolumes => "delete:volumes",
            Permission::UpdateVolumeActiveLocation => "update:volume_active_location",
            Permission::DeleteVolumeActiveLocation => "delete:volume_active_location",
            Permission::ReadOrganization => "read:organization",
            Permission::UpdateOrganization => "update:organization",
            Permission::ReadOrganizationRole => "read:organization_roles",
            Permission::ReadPersonalTokens => "read:personal_tokens",
            Permission::CreatePersonalTokens => "create:personal_tokens",
            Permission::UpdatePersonalTokens => "update:personal_tokens",
            Permission::DeletePersonalTokens => "delete:personal_tokens",
            Permission::ReadInvitations => "read:invitations",
            Permission::CreateInvitations => "create:invitations",
            Permission::UpdateInvitations => "update:invitations",
            Permission::DeleteInvitations => "delete:invitations",
            Permission::ReadMembers => "read:members",
            Permission::CreateMembers => "create:members",
            Permission::UpdateMembers => "update:members",
            Permission::DeleteMembers => "delete:members",
            Permission::ReadProfile => "read:profile",
            Permission::UpdateProfile => "update:profile",
        }
    }

    /// Parses a scope string; `None` when no permission has it.
    pub fn from_str(text: &str) -> (r: Option<Permission>)
        ensures
            r == Permission::spec_parse(text@),
    {
        if str_eq(text, "read:clusters") {
            return Some(Permission::ReadClusters);
        }
        if str_eq(text, "create:clusters") {
            return Some(Permission::CreateClusters);
        }
        if str_eq(text, "delete:clusters") {
            return Some(Permission::DeleteClusters);
        }
        if str_eq(text, "create:cluster_token") {
            return Some(Permission::CreateClusterToken);
        }
        if str_eq(text, "read:cluster_token") {
            return Some(Permission::ReadClusterToken);
        }
        if str_eq(text, "delete:cluster_token") {
            return Some(Permission::DeleteClusterToken);
        }
        if str_eq(text, "read:cluster_locations") {
            return Some(Permission::ReadClusterLocations);
        }
        if str_eq(text, "update:cluster_locations") {
            return Some(Permission::UpdateClusterLocations);
        }
        if str_eq(text, "read:states") {
            return Some(Permission::ReadStates);
        }
        if str_eq(text, "create:states") {
            return Some(Permission::CreateStates);
        }
        if str_eq(text, "delete:states") {
            return Some(Permission::DeleteStates);
        }
        if str_eq(text, "create:state_owner") {
            return Some(Permission::CreateStateOwner);
        }
        if str_eq(text, "delete:state_owner") {
            return Some(Permission::DeleteStateOwner);
        }
        if str_eq(text, "create:state_locations") {
            return Some(Permission::CreateStateLocations);
        }
        if str_eq(text, "read:state_locations") {
            return Some(Permission::ReadStateLocations);
        }
        if str_eq(text, "delete:state_locations") {
            return Some(Permission::DeleteStateLocations);
        }
        if str_eq(text, "read:state_location_principals") {
            return Some(Permission::ReadStateLocationPrincipals);
        }
        if str_eq(text, "create:state_location_principals") {
            return Some(Permission::CreateStateLocationPrincipals);
        }
        if str_eq(text, "update:state_location_ple") {
            return Some(Permission::UpdateStateLocationPle);
        }
        if str_eq(text, "read:volumes") {
            return Some(Permission::ReadVolumes);
        }
        if str_eq(text, "create:volumes") {
            return Some(Permission::CreateVolumes);
        }
        if str_eq(text, "delete:volumes") {
            return Some(Permission::DeleteVolumes);
        }
        if str_eq(text, "update:volume_active_location") {
            return Some(Permission::UpdateVolumeActiveLocation);
        }
        if str_eq(text, "delete:volume_active_location") {
            return Some(Permission::DeleteVolumeActiveLocation);
        }
        if str_eq(text, "read:organization") {
            return Some(Permission::ReadOrganization);
        }
        if str_eq(text, "update:organization") {
            return Some(Permission::UpdateOrganization);
        }
        if str_eq(text, "read:organization_roles") {
            return Some(Permission::ReadOrganizationRole);
        }
        if str_eq(text, "read:personal_tokens") {
            return Some(Permission::ReadPersonalTokens);
        }
        if str_eq(text, "create:personal_tokens") {
            return Some(Permission::CreatePersonalTokens);
        }
        if str_eq(text, "update:personal_tokens") {
            return Some(Permission::UpdatePersonalTokens);
        }
        if str_eq(text, "delete:personal_tokens") {
            return Some(Permission::DeletePersonalTokens);
        }
        if str_eq(text, "read:invitations") {
            return Some(Permission::ReadInvitations);
        }
        if str_eq(text, "create:invitations") {
            return Some(Permission::CreateInvitations);
        }
        if str_eq(text, "update:invitations") {
            return Some(Permission::UpdateInvitations);
        }
        if str_eq(text, "delete:invitations") {
            return Some(Permission::DeleteInvitations);
        }
        if str_eq(text, "read:members") {
            return Some(Permission::ReadMembers);
        }
        if str_eq(text, "create:members") {
            return Some(Permission::CreateMembers);
        }
        if str_eq(text, "update:members") {
            return Some(Permission::UpdateMembers);
        }
        if str_eq(text, "delete:members") {
            return Some(Permission::DeleteMembers);
        }
        if str_eq(text, "read:profile") {
            return Some(Permission::ReadProfile);
        }
        if str_eq(text, "update:profile") {
            return Some(Permission::UpdateProfile);
        }
        None
    }
}

} // verus!
