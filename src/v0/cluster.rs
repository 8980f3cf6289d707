//! Clusters, as the management API records them.

use vstd::prelude::*;

use crate::location::Location;
use crate::text::{align_right, join, joined, pad_right_align, pick, views};
use crate::v0::{AwsRegion, AzureRegion, Helm};

verus! {

/// A registered Kubernetes cluster.
pub struct Cluster {
    /// The record's UUID, as its 128-bit value.
    pub id: u128,
    pub name: ClusterName,
    /// Seconds since the Unix epoch.
    pub created: i64,
    /// Seconds since the Unix epoch.
    pub modified: i64,
    pub locations: ClusterLocations,
    /// The charts to install on the cluster.
    pub helm: Vec<Helm>,
}

#[derive(Clone, Copy, Debug, PartialEq, Eq, Hash, Structural)]
pub enum Provider {
    Eks,
    Aks,
    Kops,
    Generic,
}

/// The body of a cluster registration.
pub struct CreateClusterDto {
    pub name: ClusterName,
    pub provider: Provider,
    pub locations: ClusterLocations,
}

/// A token that authenticates a cluster to the management API.
pub struct ClusterToken {
    pub token: String,
}

/// The unique name of a cluster.
pub struct ClusterName(pub String);

impl ClusterName {
    pub fn from(text: &str) -> (r: ClusterName)
        ensures
            r.0@ == text@,
    {
        ClusterName(String::from_str(text))
    }

    pub fn as_str(&self) -> (r: &str)
        ensures
            r@ == self.0@,
    {
        self.0.as_str()
    }
}

impl Clone for ClusterName {
    fn clone(&self) -> (r: ClusterName)
        ensures
            r == *self,
    {
        ClusterName(self.0.clone())
    }
}

impl PartialEq for ClusterName {
    fn eq(&self, other: &ClusterName) -> (r: bool)
        ensures
            r == (self.0@ == other.0@),
    {
        self.0 == other.0
    }
}

impl vstd::std_specs::cmp::PartialEqSpecImpl for ClusterName {
    open spec fn obeys_eq_spec() -> bool {
        true
    }

    open spec fn eq_spec(&self, other: &ClusterName) -> bool {
        self.0@ == other.0@
    }
}

/// The cloud locations a cluster runs in, per vendor.
pub struct ClusterLocations {
    pub aws: Vec<ClusterLocationAws>,
    pub azure: Vec<ClusterLocationAzure>,
}

pub struct ClusterLocationAws {
    pub region: AwsRegion,
    pub account_principal: Option<String>,
}

pub struct ClusterLocationAzure {
    pub region: AzureRegion,
}

/// The locations of the AWS entries, in order.
pub open spec fn aws_cluster_locations(v: Seq<ClusterLocationAws>) -> Seq<Location> {
    v.map_values(|c: ClusterLocationAws| Location::Aws(c.region))
}

/// The locations of the Azure entries, in order.
pub open spec fn azure_cluster_locations(v: Seq<ClusterLocationAzure>) -> Seq<Location> {
    v.map_values(|c: ClusterLocationAzure| Location::Azure(c.region))
}

/// The AWS locations of a list, in order.
pub open spec fn aws_part(ls: Seq<Location>) -> Seq<Location>
    decreases ls.len(),
{
    if ls.len() == 0 {
        Seq::empty()
    } else if ls.last() is Aws {
        aws_part(ls.drop_last()).push(ls.last())
    } else {
        aws_part(ls.drop_last())
    }
}

/// The Azure locations of a list, in order.
pub open spec fn azure_part(ls: Seq<Location>) -> Seq<Location>
    decreases ls.len(),
{
    if ls.len() == 0 {
        Seq::empty()
    } else if ls.last() is Azure {
        azure_part(ls.drop_last()).push(ls.last())
    } else {
        azure_part(ls.drop_last())
    }
}

impl ClusterLocations {
    /// Every location, the AWS ones first.
    pub open spec fn spec_all(&self) -> Seq<Location> {
        aws_cluster_locations(self.aws@) + azure_cluster_locations(self.azure@)
    }

    /// Splits a list of locations by vendor, keeping their order.
    pub fn from(locations: &Vec<Location>) -> (r: ClusterLocations)
        ensures
            aws_cluster_locations(r.aws@) == aws_part(locations@),
            azure_cluster_locations(r.azure@) == azure_part(locations@),
            forall|i: int| 0 <= i < r.aws@.len() ==> (#[trigger] r.aws@[i]).account_principal is None,
    {
        let mut aws: Vec<ClusterLocationAws> = Vec::new();
        let mut azure: Vec<ClusterLocationAzure> = Vec::new();
        let mut i: usize = 0;
        while i < locations.len()
            invariant
                i <= locations@.len(),
                aws_cluster_locations(aws@) == aws_part(locations@.take(i as int)),
                azure_cluster_locations(azure@) == azure_part(locations@.take(i as int)),
                forall|k: int| 0 <= k < aws@.len() ==> (#[trigger] aws@[k]).account_principal is None,
            decreases locations@.len() - i,
        {
            let ghost prefix = locations@.take(i as int);
            assert(locations@.take(i + 1) =~= prefix.push(locations@[i as int]));
            assert(locations@.take(i + 1).drop_last() =~= prefix);
            match locations[i] {
                Location::Aws(region) => {
                    let ghost before = aws@;
                    aws.push(ClusterLocationAws { region, account_principal: None });
                    assert(aws_cluster_locations(aws@) =~= aws_cluster_locations(before).push(
                        Location::Aws(region),
                    ));
                },
                Location::Azure(region) => {
                    let ghost before = azure@;
                    azure.push(ClusterLocationAzure { region });
                    assert(azure_cluster_locations(azure@) =~= azure_cluster_locations(before).push(
                        Location::Azure(region),
                    ));
                },
            }
            i = i + 1;
        }
        assert(locations@.take(locations@.len() as int) =~= locations@);
        ClusterLocations { aws, azure }
    }
}

impl ClusterLocations {
    /// The qualified regions, AWS first.
    pub open spec fn spec_entries(&self) -> Seq<Seq<char>> {
        self.aws@.map_values(|l: ClusterLocationAws| l.region.spec_qualified()) + self.azure@.map_values(
            |l: ClusterLocationAzure| l.region.spec_qualified(),
        )
    }

    pub open spec fn spec_show(&self) -> Seq<char> {
        joined(self.spec_entries(), ", "@)
    }

    /// The qualified regions, AWS first, comma-separated.
    pub fn show(&self) -> (r: String)
        ensures
            r@ == self.spec_show(),
    {
        let mut parts: Vec<String> = Vec::new();
        let mut i: usize = 0;
        while i < self.aws.len()
            invariant
                i <= self.aws@.len(),
                views(parts@) == self.aws@.take(i as int).map_values(
                    |l: ClusterLocationAws| l.region.spec_qualified(),
                ),
            decreases self.aws@.len() - i,
        {
            let entry = self.aws[i].region.qualified();
            let ghost before = parts@;
            parts.push(entry);
            assert(views(parts@) =~= views(before).push(entry@));
            i = i + 1;
            assert(views(parts@) =~= self.aws@.take(i as int).map_values(
                |l: ClusterLocationAws| l.region.spec_qualified(),
            ));
        }
        assert(self.aws@.take(self.aws@.len() as int) =~= self.aws@);
        let mut j: usize = 0;
        while j < self.azure.len()
            invariant
                j <= self.azure@.len(),
                views(parts@) == self.aws@.map_values(|l: ClusterLocationAws| l.region.spec_qualified())
                    + self.azure@.take(j as int).map_values(
                    |l: ClusterLocationAzure| l.region.spec_qualified(),
                ),
            decreases self.azure@.len() - j,
        {
            let entry = self.azure[j].region.qualified();
            let ghost before = parts@;
            parts.push(entry);
            assert(views(parts@) =~= views(before).push(entry@));
            j = j + 1;
            assert(views(parts@) =~= self.aws@.map_values(
                |l: ClusterLocationAws| l.region.spec_qualified(),
            ) + self.azure@.take(j as int).map_values(
                |l: ClusterLocationAzure| l.region.spec_qualified(),
            ));
        }
        assert(self.azure@.take(self.azure@.len() as int) =~= self.azure@);
        join(&parts, ", ")
    }
}

impl Cluster {
    /// One line of a cluster listing.
    pub open spec fn spec_show(&self, emoji: bool) -> Seq<char> {
        pick(emoji, "☸"@, "*"@) + " "@ + align_right(self.name.0@, 24) + " ["@
            + self.locations.spec_show() + "]"@
    }

    /// One line of a cluster listing: its symbol, name and locations.
    pub fn show(&self, emoji: bool) -> (r: String)
        ensures
            r@ == self.spec_show(emoji),
    {
        let mut r = String::from_str(if emoji { "☸" } else { "*" });
        r.append(" ");
        r.append(pad_right_align(self.name.as_str(), 24).as_str());
        r.append(" [");
        r.append(self.locations.show().as_str());
        r.append("]");
        r
    }

    /// Every location the cluster runs in, the AWS ones first.
    pub fn all_locations(&self) -> (r: Vec<Location>)
        ensures
            r@ == self.locations.spec_all(),
    {
        let mut r: Vec<Location> = Vec::new();
        let mut i: usize = 0;
        while i < self.locations.aws.len()
            invariant
                i <= self.locations.aws@.len(),
                r@ == aws_cluster_locations(self.locations.aws@.take(i as int)),
            decreases self.locations.aws@.len() - i,
        {
            r.push(Location::Aws(self.locations.aws[i].region));
            i = i + 1;
            assert(r@ =~= aws_cluster_locations(self.locations.aws@.take(i as int)));
        }
        let mut j: usize = 0;
        while j < self.locations.azure.len()
            invariant
                j <= self.locations.azure@.len(),
                r@ == aws_cluster_locations(self.locations.aws@) + azure_cluster_locations(
                    self.locations.azure@.take(j as int),
                ),
            decreases self.locations.azure@.len() - j,
        {
            r.push(Location::Azure(self.locations.azure[j].region));
            j = j + 1;
            assert(r@ =~= aws_cluster_locations(self.locations.aws@) + azure_cluster_locations(
                self.locations.azure@.take(j as int),
            ));
        }
        assert(self.locations.aws@.take(self.locations.aws@.len() as int) =~= self.locations.aws@);
        assert(self.locations.azure@.take(self.locations.azure@.len() as int)
            =~= self.locations.azure@);
        r
    }
}

/// One line per cluster.
pub fn show_clusters(clusters: &Vec<Cluster>, emoji: bool) -> (r: String)
    ensures
        r@ == joined(clusters@.map_values(|c: Cluster| c.spec_show(emoji)), "\n"@),
{
    let mut lines: Vec<String> = Vec::new();
    let mut i: usize = 0;
    while i < clusters.len()
        invariant
            i <= clusters@.len(),
            views(lines@) == clusters@.take(i as int).map_values(|c: Cluster| c.spec_show(emoji)),
        decreases clusters@.len() - i,
    {
        let line = clusters[i].show(emoji);
        let ghost before = lines@;
        lines.push(line);
        assert(views(lines@) =~= views(before).push(line@));
        i = i + 1;
        assert(views(lines@) =~= clusters@.take(i as int).map_values(|c: Cluster| c.spec_show(emoji)));
    }
    assert(clusters@.take(clusters@.len() as int) =~= clusters@);
    join(&lines, "\n")
}

impl Provider {
    pub open spec fn spec_as_str(self) -> Seq<char> {
        match self {
            Provider::Eks => "eks"@,
            Provider::Aks => "aks"@,
            Provider::Kops => "kops"@,
            Provider::Generic => "generic"@,
        }
    }

    /// The provider a name stands for.
    pub open spec fn spec_parse(s: Seq<char>) -> Option<Provider> {
        if s == "eks"@ {
            Some(Provider::Eks)
        } else if s == "aks"@ {
            Some(Provider::Aks)
        } else if s == "kops"@ {
            Some(Provider::Kops)
        } else if s == "generic"@ {
            Some(Provider::Generic)
        } else {
            None
        }
    }

    pub fn as_str(&self) -> (r: &'static str)
        ensures
            r@ == self.spec_as_str(),
    {
        match self {
            Provider::Eks => "eks",
            Provider::Aks => "aks",
            Provider::Kops => "kops",
            Provider::Generic => "generic",
        }
    }

    pub open spec fn spec_upper(self) -> Seq<char> {
        match self {
            Provider::Eks => "EKS"@,
            Provider::Aks => "AKS"@,
            Provider::Kops => "KOPS"@,
            Provider::Generic => "GENERIC"@,
        }
    }

    /// The name in capitals, as messages show it.
    pub fn as_upper_str(&self) -> (r: &'static str)
        ensures
            r@ == self.spec_upper(),
    {
        match self {
            Provider::Eks => "EKS",
            Provider::Aks => "AKS",
            Provider::Kops => "KOPS",
            Provider::Generic => "GENERIC",
        }
    }

    /// Parses a provider's name; `None` when no provider has it.
    pub fn from_str(s: &str) -> (r: Option<Provider>)
        ensures
            r == Provider::spec_parse(s@),
    {
        if crate::text::str_eq(s, "eks") {
            Some(Provider::Eks)
        } else if crate::text::str_eq(s, "aks") {
            Some(Provider::Aks)
        } else if crate::text::str_eq(s, "kops") {
            Some(Provider::Kops)
        } else if crate::text::str_eq(s, "generic") {
            Some(Provider::Generic)
        } else {
            None
        }
    }
}

} // verus!
