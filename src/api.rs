//! Addresses of the management API: its base URL and the paths of its
//! resources.

use vstd::prelude::*;

use crate::location::Location;
use crate::text::{starts_with, str_eq};
use crate::v0::{AwsRegion, AzureRegion, ClusterName, StateName, VolumeName};

verus! {

/// The API version that paths are under.
pub const VERSION: &'static str = "/v0";

/// `s` ends with `p`.
pub open spec fn is_suffix(p: Seq<char>, s: Seq<char>) -> bool {
    p.len() <= s.len() && s.subrange(s.len() - p.len(), s.len() as int) == p
}

/// The base URL for a management address: a URL is taken as it is; a
/// hosted `api.*.statehub.io` name is reached over HTTPS; any other name is
/// taken for a local server on port 3000.
pub open spec fn spec_base_url(management: Seq<char>) -> Seq<char> {
    if "http"@.is_prefix_of(management) {
        management + VERSION@
    } else if "api."@.is_prefix_of(management) && is_suffix(".statehub.io"@, management) {
        "https://"@ + management + VERSION@
    } else {
        "http://"@ + management + ":3000"@ + VERSION@
    }
}

fn ends_with(s: &str, p: &str) -> (r: bool)
    ensures
        r == is_suffix(p@, s@),
{
    let n = s.unicode_len();
    let m = p.unicode_len();
    if m > n {
        return false;
    }
    let tail = s.substring_char(n - m, n);
    str_eq(tail, p)
}

pub fn base_url(management: &str) -> (r: String)
    ensures
        r@ == spec_base_url(management@),
{
    if starts_with(management, "http") {
        let mut r = String::from_str(management);
        r.append(VERSION);
        r
    } else if starts_with(management, "api.") && ends_with(management, ".statehub.io") {
        let mut r = String::from_str("https://");
        r.append(management);
        r.append(VERSION);
        r
    } else {
        let mut r = String::from_str("http://");
        r.append(management);
        r.append(":3000");
        r.append(VERSION);
        r
    }
}

/// The full URL of a path.
pub fn url(base: &str, path: &str) -> (r: String)
    ensures
        r@ == base@ + path@,
{
    let mut r = String::from_str(base);
    r.append(path);
    r
}

/// A response status that means the token was refused.
pub fn is_unauthorized(status: Option<u16>) -> (r: bool)
    ensures
        r == (status == Some(401u16)),
{
    match status {
        Some(code) => code == 401,
        None => false,
    }
}

/// `/states`.
pub fn states_path() -> (r: String)
    ensures
        r@ == "/states"@,
{
    String::from_str("/states")
}

/// `/clusters`.
pub fn clusters_path() -> (r: String)
    ensures
        r@ == "/clusters"@,
{
    String::from_str("/clusters")
}

/// `/states/<state>`.
pub fn state_path(state: &StateName) -> (r: String)
    ensures
        r@ == "/states/"@ + state.0@,
{
    let mut r = String::from_str("/states/");
    r.append(state.as_str());
    r
}

/// `/clusters/<cluster>`.
pub fn cluster_path(cluster: &ClusterName) -> (r: String)
    ensures
        r@ == "/clusters/"@ + cluster.0@,
{
    let mut r = String::from_str("/clusters/");
    r.append(cluster.as_str());
    r
}

/// `/clusters/<cluster>/token`.
pub fn cluster_token_path(cluster: &ClusterName) -> (r: String)
    ensures
        r@ == "/clusters/"@ + cluster.0@ + "/token"@,
{
    let mut r = cluster_path(cluster);
    r.append("/token");
    r
}

/// `/states/<state>/volumes`.
pub fn volumes_path(state: &StateName) -> (r: String)
    ensures
        r@ == "/states/"@ + state.0@ + "/volumes"@,
{
    let mut r = state_path(state);
    r.append("/volumes");
    r
}

/// `/states/<state>/volumes/<volume>`.
pub fn volume_path(state: &StateName, volume: &VolumeName) -> (r: String)
    ensures
        r@ == "/states/"@ + state.0@ + "/volumes/"@ + volume.0@,
{
    let mut r = state_path(state);
    r.append("/volumes/");
    r.append(volume.as_str());
    r
}

/// `/states/<state>/volumes/<volume>/activeLocation/<qualified location>`.
pub fn volume_primary_path(state: &StateName, volume: &VolumeName, primary: &Location) -> (r: String)
    ensures
        r@ == "/states/"@ + state.0@ + "/volumes/"@ + volume.0@ + "/activeLocation/"@
            + primary.spec_qualified(),
{
    let mut r = volume_path(state, volume);
    r.append("/activeLocation/");
    r.append(primary.show().as_str());
    r
}

/// `/states/<state>/owner`.
pub fn owner_path(state: &StateName) -> (r: String)
    ensures
        r@ == "/states/"@ + state.0@ + "/owner"@,
{
    let mut r = state_path(state);
    r.append("/owner");
    r
}

/// `/states/<state>/owner/<cluster>`.
pub fn set_owner_path(state: &StateName, cluster: &ClusterName) -> (r: String)
    ensures
        r@ == "/states/"@ + state.0@ + "/owner/"@ + cluster.0@,
{
    let mut r = state_path(state);
    r.append("/owner/");
    r.append(cluster.as_str());
    r
}

/// `/states/<state>/locations/aws`, where AWS locations are added.
pub fn aws_locations_path(state: &StateName) -> (r: String)
    ensures
        r@ == "/states/"@ + state.0@ + "/locations/aws"@,
{
    let mut r = state_path(state);
    r.append("/locations/aws");
    r
}

/// `/states/<state>/locations/aws/<region>`.
pub fn aws_location_path(state: &StateName, region: AwsRegion) -> (r: String)
    ensures
        r@ == "/states/"@ + state.0@ + "/locations/aws/"@ + region.spec_as_str(),
{
    let mut r = state_path(state);
    r.append("/locations/aws/");
    r.append(region.as_str());
    r
}

/// `/states/<state>/locations/azure`, where Azure locations are added.
pub fn azure_locations_path(state: &StateName) -> (r: String)
    ensures
        r@ == "/states/"@ + state.0@ + "/locations/azure"@,
{
    let mut r = state_path(state);
    r.append("/locations/azure");
    r
}

/// `/states/<state>/locations/azure/<region>`.
pub fn azure_location_path(state: &StateName, region: AzureRegion) -> (r: String)
    ensures
        r@ == "/states/"@ + state.0@ + "/locations/azure/"@ + region.spec_as_str(),
{
    let mut r = state_path(state);
    r.append("/locations/azure/");
    r.append(region.as_str());
    r
}

/// The path of one location of a state, for its vendor.
pub fn location_path(state: &StateName, location: &Location) -> (r: String)
    ensures
        r@ == match *location {
            Location::Aws(region) => "/states/"@ + state.0@ + "/locations/aws/"@ + region.spec_as_str(),
            Location::Azure(region) => "/states/"@ + state.0@ + "/locations/azure/"@
                + region.spec_as_str(),
        },
{
    match location {
        Location::Aws(region) => aws_location_path(state, *region),
        Location::Azure(region) => azure_location_path(state, *region),
    }
}

} // verus!
