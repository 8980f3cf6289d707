//! States: replicated storage made available in a set of cloud locations.

use vstd::prelude::*;

use crate::location::Location;
use crate::text::{
    align_left, align_right, decimal, join, joined, pad_left_align, pad_right_align, pick,
    to_decimal, views,
};
use crate::v0::cluster::{aws_part, azure_part, ClusterName};
use crate::v0::{AwsRegion, AzureRegion, PrivateLinkServiceAws, PrivateLinkServiceAzure};
use crate::v0::volume::{VolumeBindingMode, VolumeLocation};

verus! {

pub struct State {
    /// The record's UUID, as its 128-bit value.
    pub id: u128,
    pub name: StateName,
    /// Seconds since the Unix epoch.
    pub created: i64,
    /// Seconds since the Unix epoch.
    pub modified: i64,
    pub storage_class: Option<StorageClass>,
    pub locations: StateLocations,
    pub owner: Option<ClusterName>,
    pub provisioning_status: ProvisioningStatus,
    pub allowed_clusters: Option<Vec<ClusterName>>,
    pub condition: Condition,
}

/// The unique, case-sensitive name of a state.
pub struct StateName(pub String);

impl StateName {
    pub fn from(text: &str) -> (r: StateName)
        ensures
            r.0@ == text@,
    {
        StateName(String::from_str(text))
    }

    pub fn as_str(&self) -> (r: &str)
        ensures
            r@ == self.0@,
    {
        self.0.as_str()
    }
}

impl Clone for StateName {
    fn clone(&self) -> (r: StateName)
        ensures
            r == *self,
    {
        StateName(self.0.clone())
    }
}

impl PartialEq for StateName {
    fn eq(&self, other: &StateName) -> (r: bool)
        ensures
            r == (self.0@ == other.0@),
    {
        self.0 == other.0
    }
}

impl vstd::std_specs::cmp::PartialEqSpecImpl for StateName {
    open spec fn obeys_eq_spec() -> bool {
        true
    }

    open spec fn eq_spec(&self, other: &StateName) -> bool {
        self.0@ == other.0@
    }
}

/// The body of a state creation.
pub struct CreateStateDto {
    pub name: StateName,
    pub storage_class: Option<StorageClass>,
    pub locations: CreateStateLocationsDto,
    pub owner: Option<ClusterName>,
    pub allowed_clusters: Option<Vec<ClusterName>>,
}

#[derive(Clone, Copy, Debug, PartialEq, Eq, Hash, Structural)]
pub enum ProvisioningStatus {
    Ready,
    Provisioning,
    Error,
}

/// The health of a state.
#[derive(Clone, Copy, Debug, PartialEq, Eq, Hash, Structural)]
pub enum Condition {
    Green,
    Yellow,
    Red,
}

/// The locations a state is available in, per vendor.
pub struct StateLocations {
    pub aws: Vec<StateLocationAws>,
    pub azure: Vec<StateLocationAzure>,
}

pub struct StateLocationAzure {
    pub region: AzureRegion,
    pub status: StateLocationStatus,
    pub volumes: Vec<VolumeLocation>,
    pub private_link_service: Option<PrivateLinkServiceAzure>,
}

pub struct StateLocationAws {
    pub region: AwsRegion,
    pub status: StateLocationStatus,
    pub volumes: Vec<VolumeLocation>,
    pub private_link_service: Option<PrivateLinkServiceAws>,
}

pub struct StorageClass {
    pub name: String,
    pub volume_binding_mode: VolumeBindingMode,
    pub fs_type: String,
    pub mount_options: Option<String>,
}

/// Where a location of a state is in its lifecycle.
#[derive(Clone, Copy, Debug, PartialEq, Eq, Hash, Structural)]
pub enum StateLocationStatus {
    Ready,
    Provisioning,
    Recovering,
    Deleting,
    Error,
}

/// The locations of a state creation, per vendor.
pub struct CreateStateLocationsDto {
    pub aws: Vec<CreateStateLocationAwsDto>,
    pub azure: Vec<CreateStateLocationAzureDto>,
}

pub struct CreateStateLocationAwsDto {
    pub region: AwsRegion,
}

pub struct CreateStateLocationAzureDto {
    pub region: AzureRegion,
}

impl StateLocations {
    /// An entry of that vendor and region exists, whatever its status.
    pub open spec fn spec_contains(&self, location: Location) -> bool {
        match location {
            Location::Aws(r) => exists|i: int|
                0 <= i < self.aws@.len() && (#[trigger] self.aws@[i]).region == r,
            Location::Azure(r) => exists|i: int|
                0 <= i < self.azure@.len() && (#[trigger] self.azure@[i]).region == r,
        }
    }

    /// Every location, the AWS ones first.
    pub open spec fn spec_all(&self) -> Seq<Location> {
        self.aws@.map_values(|s: StateLocationAws| Location::Aws(s.region)) + self.azure@.map_values(
            |s: StateLocationAzure| Location::Azure(s.region),
        )
    }

    /// Each location, qualified and followed by its status symbol.
    pub open spec fn spec_entries(&self, emoji: bool) -> Seq<Seq<char>> {
        self.aws@.map_values(
            |l: StateLocationAws| l.region.spec_qualified() + " "@ + l.status.spec_show(emoji),
        ) + self.azure@.map_values(
            |l: StateLocationAzure| l.region.spec_qualified() + " "@ + l.status.spec_show(emoji),
        )
    }

    pub open spec fn spec_show(&self, emoji: bool) -> Seq<char> {
        joined(self.spec_entries(emoji), ", "@)
    }

    /// The locations with their status symbols, AWS first, comma-separated.
    pub fn show(&self, emoji: bool) -> (r: String)
        ensures
            r@ == self.spec_show(emoji),
    {
        let mut parts: Vec<String> = Vec::new();
        let mut i: usize = 0;
        while i < self.aws.len()
            invariant
                i <= self.aws@.len(),
                views(parts@) == self.aws@.take(i as int).map_values(
                    |l: StateLocationAws| l.region.spec_qualified() + " "@ + l.status.spec_show(emoji),
                ),
            decreases self.aws@.len() - i,
        {
            let mut entry = self.aws[i].region.qualified();
            entry.append(" ");
            entry.append(self.aws[i].status.show(emoji).as_str());
            let ghost before = parts@;
            parts.push(entry);
            assert(views(parts@) =~= views(before).push(entry@));
            i = i + 1;
            assert(views(parts@) =~= self.aws@.take(i as int).map_values(
                |l: StateLocationAws| l.region.spec_qualified() + " "@ + l.status.spec_show(emoji),
            ));
        }
        assert(self.aws@.take(self.aws@.len() as int) =~= self.aws@);
        let mut j: usize = 0;
        while j < self.azure.len()
            invariant
                j <= self.azure@.len(),
                views(parts@) == self.aws@.map_values(
                    |l: StateLocationAws| l.region.spec_qualified() + " "@ + l.status.spec_show(emoji),
                ) + self.azure@.take(j as int).map_values(
                    |l: StateLocationAzure| l.region.spec_qualified() + " "@ + l.status.spec_show(emoji),
                ),
            decreases self.azure@.len() - j,
        {
            let mut entry = self.azure[j].region.qualified();
            entry.append(" ");
            entry.append(self.azure[j].status.show(emoji).as_str());
            let ghost before = parts@;
            parts.push(entry);
            assert(views(parts@) =~= views(before).push(entry@));
            j = j + 1;
            assert(views(parts@) =~= self.aws@.map_values(
                |l: StateLocationAws| l.region.spec_qualified() + " "@ + l.status.spec_show(emoji),
            ) + self.azure@.take(j as int).map_values(
                |l: StateLocationAzure| l.region.spec_qualified() + " "@ + l.status.spec_show(emoji),
            ));
        }
        assert(self.azure@.take(self.azure@.len() as int) =~= self.azure@);
        join(&parts, ", ")
    }

    /// One location in detail: qualified, then its status and private link
    /// service on indented lines.
    pub open spec fn spec_detail(
        region: Seq<char>,
        status: StateLocationStatus,
        pls: Option<Seq<char>>,
        emoji: bool,
    ) -> Seq<char> {
        " "@ + region + ":\n  "@ + "Status: "@ + status.spec_show(emoji) + "\n  "@ + "PLS   : "@
            + match pls {
            Some(p) => p,
            None => "None"@,
        }
    }

    pub open spec fn spec_details(&self, emoji: bool) -> Seq<Seq<char>> {
        self.aws@.map_values(
            |l: StateLocationAws|
                StateLocations::spec_detail(
                    l.region.spec_qualified(),
                    l.status,
                    match l.private_link_service {
                        Some(p) => Some(p.id@ + " / "@ + p.name@),
                        None => None,
                    },
                    emoji,
                ),
        ) + self.azure@.map_values(
            |l: StateLocationAzure|
                StateLocations::spec_detail(
                    l.region.spec_qualified(),
                    l.status,
                    match l.private_link_service {
                        Some(p) => Some(p.id@),
                        None => None,
                    },
                    emoji,
                ),
        )
    }

    fn detail(region: String, status: StateLocationStatus, pls: Option<String>, emoji: bool) -> (r: String)
        ensures
            r@ == StateLocations::spec_detail(
                region@,
                status,
                match pls {
                    Some(p) => Some(p@),
                    None => None,
                },
                emoji,
            ),
    {
        let mut r = String::from_str(" ");
        r.append(region.as_str());
        r.append(":\n  ");
        r.append("Status: ");
        r.append(status.show(emoji).as_str());
        r.append("\n  ");
        r.append("PLS   : ");
        match pls {
            Some(p) => r.append(p.as_str()),
            None => r.append("None"),
        }
        r
    }

    /// Every location in detail, AWS first, one block per location.
    pub fn detailed_show(&self, emoji: bool) -> (r: String)
        ensures
            r@ == joined(self.spec_details(emoji), "\n"@),
    {
        let mut parts: Vec<String> = Vec::new();
        let mut i: usize = 0;
        while i < self.aws.len()
            invariant
                i <= self.aws@.len(),
                views(parts@) == self.spec_details(emoji).take(i as int),
            decreases self.aws@.len() - i,
        {
            let l = &self.aws[i];
            let pls = match &l.private_link_service {
                Some(p) => Some(p.show()),
                None => None,
            };
            let part = StateLocations::detail(l.region.qualified(), l.status, pls, emoji);
            let ghost before = parts@;
            parts.push(part);
            assert(views(parts@) =~= views(before).push(part@));
            i = i + 1;
            assert(views(parts@) =~= self.spec_details(emoji).take(i as int));
        }
        let n = self.aws.len();
        let mut j: usize = 0;
        while j < self.azure.len()
            invariant
                n == self.aws@.len(),
                j <= self.azure@.len(),
                views(parts@) == self.spec_details(emoji).take(n + j),
            decreases self.azure@.len() - j,
        {
            let l = &self.azure[j];
            let pls = match &l.private_link_service {
                Some(p) => Some(p.show()),
                None => None,
            };
            let part = StateLocations::detail(l.region.qualified(), l.status, pls, emoji);
            let ghost before = parts@;
            parts.push(part);
            assert(views(parts@) =~= views(before).push(part@));
            j = j + 1;
            assert(views(parts@) =~= self.spec_details(emoji).take(n + j));
        }
        assert(self.spec_details(emoji).take(n + j) =~= self.spec_details(emoji));
        join(&parts, "\n")
    }

    pub fn contains(&self, location: &Location) -> (r: bool)
        ensures
            r == self.spec_contains(*location),
    {
        match location {
            Location::Aws(region) => {
                let mut i: usize = 0;
                while i < self.aws.len()
                    invariant
                        i <= self.aws@.len(),
                        *location == Location::Aws(*region),
                        forall|k: int| 0 <= k < i ==> (#[trigger] self.aws@[k]).region != *region,
                    decreases self.aws@.len() - i,
                {
                    if self.aws[i].region == *region {
                        assert(self.aws@[i as int].region == *region);
                        return true;
                    }
                    i = i + 1;
                }
                false
            },
            Location::Azure(region) => {
                let mut i: usize = 0;
                while i < self.azure.len()
                    invariant
                        i <= self.azure@.len(),
                        *location == Location::Azure(*region),
                        forall|k: int| 0 <= k < i ==> (#[trigger] self.azure@[k]).region != *region,
                    decreases self.azure@.len() - i,
                {
                    if self.azure[i].region == *region {
                        assert(self.azure@[i as int].region == *region);
                        return true;
                    }
                    i = i + 1;
                }
                false
            },
        }
    }
}

/// The most volumes any AWS location holds.
pub open spec fn most_volumes_aws(v: Seq<StateLocationAws>) -> nat
    decreases v.len(),
{
    if v.len() == 0 {
        0
    } else {
        let rest = most_volumes_aws(v.drop_last());
        if v.last().volumes@.len() > rest { v.last().volumes@.len() } else { rest }
    }
}

/// The most volumes any Azure location holds.
pub open spec fn most_volumes_azure(v: Seq<StateLocationAzure>) -> nat
    decreases v.len(),
{
    if v.len() == 0 {
        0
    } else {
        let rest = most_volumes_azure(v.drop_last());
        if v.last().volumes@.len() > rest { v.last().volumes@.len() } else { rest }
    }
}

/// One volume of a state, as one location holds it: the volume's name, the
/// location, and the volume's status there.
pub type VolumeEntry = (Seq<char>, Location, StateLocationStatus);

/// The volume entries of the AWS locations, location by location.
pub open spec fn aws_volume_entries(ls: Seq<StateLocationAws>) -> Seq<VolumeEntry>
    decreases ls.len(),
{
    if ls.len() == 0 {
        Seq::empty()
    } else {
        let l = ls.last();
        aws_volume_entries(ls.drop_last()) + l.volumes@.map_values(
            |v: VolumeLocation| (v.name@, Location::Aws(l.region), v.status.value),
        )
    }
}

/// The volume entries of the Azure locations, location by location.
pub open spec fn azure_volume_entries(ls: Seq<StateLocationAzure>) -> Seq<VolumeEntry>
    decreases ls.len(),
{
    if ls.len() == 0 {
        Seq::empty()
    } else {
        let l = ls.last();
        azure_volume_entries(ls.drop_last()) + l.volumes@.map_values(
            |v: VolumeLocation| (v.name@, Location::Azure(l.region), v.status.value),
        )
    }
}

/// A volume with the locations that hold it and its status in each.
pub struct VolumeGroup {
    pub name: String,
    pub locations: Vec<(Location, StateLocationStatus)>,
}

/// The name and the locations of a group.
pub open spec fn group_view(g: VolumeGroup) -> (Seq<char>, Seq<(Location, StateLocationStatus)>) {
    (g.name@, g.locations@)
}

/// The index of the first group named `name` at or after `k`, or -1.
pub open spec fn find_group(
    groups: Seq<(Seq<char>, Seq<(Location, StateLocationStatus)>)>,
    name: Seq<char>,
    k: int,
) -> int
    decreases groups.len() - k,
{
    if k < 0 || k >= groups.len() {
        -1
    } else if groups[k].0 == name {
        k
    } else {
        find_group(groups, name, k + 1)
    }
}

/// Files an entry: into the group of its volume, or into a new last group.
pub open spec fn file_entry(
    groups: Seq<(Seq<char>, Seq<(Location, StateLocationStatus)>)>,
    e: VolumeEntry,
) -> Seq<(Seq<char>, Seq<(Location, StateLocationStatus)>)> {
    let k = find_group(groups, e.0, 0);
    if k >= 0 {
        groups.update(k, (e.0, groups[k].1.push((e.1, e.2))))
    } else {
        groups.push((e.0, seq![(e.1, e.2)]))
    }
}

/// The entries grouped by volume name, groups in the order their volume
/// first appears, entries in order within a group.
pub open spec fn group_entries(es: Seq<VolumeEntry>) -> Seq<(Seq<char>, Seq<(Location, StateLocationStatus)>)>
    decreases es.len(),
{
    if es.len() == 0 {
        Seq::empty()
    } else {
        file_entry(group_entries(es.drop_last()), es.last())
    }
}

proof fn lemma_find_group(
    groups: Seq<(Seq<char>, Seq<(Location, StateLocationStatus)>)>,
    name: Seq<char>,
    k: int,
)
    requires
        0 <= k <= groups.len(),
    ensures
        find_group(groups, name, k) == -1 || (k <= find_group(groups, name, k) < groups.len()
            && groups[find_group(groups, name, k)].0 == name),
        find_group(groups, name, k) == -1 ==> forall|j: int|
            k <= j < groups.len() ==> (#[trigger] groups[j]).0 != name,
    decreases groups.len() - k,
{
    if k < groups.len() && groups[k].0 != name {
        lemma_find_group(groups, name, k + 1);
    }
}

fn file_volume(
    groups: &mut Vec<VolumeGroup>,
    name: &String,
    location: Location,
    status: StateLocationStatus,
)
    ensures
        final(groups)@.map_values(|g: VolumeGroup| group_view(g)) == file_entry(
            old(groups)@.map_values(|g: VolumeGroup| group_view(g)),
            (name@, location, status),
        ),
{
    let ghost view = groups@.map_values(|g: VolumeGroup| group_view(g));
    let mut k: usize = 0;
    while k < groups.len()
        invariant
            k <= groups@.len(),
            *groups == *old(groups),
            view == groups@.map_values(|g: VolumeGroup| group_view(g)),
            find_group(view, name@, 0) == find_group(view, name@, k as int),
        decreases groups@.len() - k,
    {
        if crate::text::str_eq(groups[k].name.as_str(), name.as_str()) {
            assert(view[k as int].0 == name@);
            let mut members: Vec<(Location, StateLocationStatus)> = Vec::new();
            let mut j: usize = 0;
            while j < groups[k].locations.len()
                invariant
                    k < groups@.len(),
                    j <= groups@[k as int].locations@.len(),
                    members@ == groups@[k as int].locations@.take(j as int),
                decreases groups@[k as int].locations@.len() - j,
            {
                members.push(groups[k].locations[j]);
                j = j + 1;
                assert(members@ =~= groups@[k as int].locations@.take(j as int));
            }
            assert(members@ =~= groups@[k as int].locations@);
            members.push((location, status));
            let group = VolumeGroup { name: groups[k].name.clone(), locations: members };
            groups.set(k, group);
            assert(groups@.map_values(|g: VolumeGroup| group_view(g)) =~= view.update(
                k as int,
                (name@, view[k as int].1.push((location, status))),
            ));
            return;
        }
        k = k + 1;
    }
    proof {
        lemma_find_group(view, name@, 0);
    }
    let mut locations: Vec<(Location, StateLocationStatus)> = Vec::new();
    locations.push((location, status));
    assert(locations@ =~= seq![(location, status)]);
    groups.push(VolumeGroup { name: name.clone(), locations });
    assert(groups@.map_values(|g: VolumeGroup| group_view(g)) =~= view.push(
        (name@, seq![(location, status)]),
    ));
}

/// One line per state.
pub fn show_states(states: &Vec<State>, emoji: bool) -> (r: String)
    ensures
        r@ == joined(states@.map_values(|s: State| s.spec_show(emoji)), "\n"@),
{
    let mut lines: Vec<String> = Vec::new();
    let mut i: usize = 0;
    while i < states.len()
        invariant
            i <= states@.len(),
            views(lines@) == states@.take(i as int).map_values(|s: State| s.spec_show(emoji)),
        decreases states@.len() - i,
    {
        let line = states[i].show(emoji);
        let ghost before = lines@;
        lines.push(line);
        assert(views(lines@) =~= views(before).push(line@));
        i = i + 1;
        assert(views(lines@) =~= states@.take(i as int).map_values(|s: State| s.spec_show(emoji)));
    }
    assert(states@.take(states@.len() as int) =~= states@);
    join(&lines, "\n")
}

/// One location of a volume, with the volume's status symbol there.
pub open spec fn member_text(m: (Location, StateLocationStatus), emoji: bool) -> Seq<char> {
    m.0.spec_qualified() + ": "@ + m.1.spec_show(emoji)
}

/// A volume's name, and on the next line its locations.
pub open spec fn group_text(
    g: (Seq<char>, Seq<(Location, StateLocationStatus)>),
    emoji: bool,
) -> Seq<char> {
    "  "@ + g.0 + ":\n    "@ + joined(
        g.1.map_values(|m: (Location, StateLocationStatus)| member_text(m, emoji)),
        ", "@,
    )
}

fn show_group(g: &VolumeGroup, emoji: bool) -> (r: String)
    ensures
        r@ == group_text(group_view(*g), emoji),
{
    let mut parts: Vec<String> = Vec::new();
    let mut i: usize = 0;
    while i < g.locations.len()
        invariant
            i <= g.locations@.len(),
            views(parts@) == g.locations@.take(i as int).map_values(
                |m: (Location, StateLocationStatus)| member_text(m, emoji),
            ),
        decreases g.locations@.len() - i,
    {
        let (location, status) = g.locations[i];
        let mut part = location.show();
        part.append(": ");
        part.append(status.show(emoji).as_str());
        let ghost before = parts@;
        parts.push(part);
        assert(views(parts@) =~= views(before).push(part@));
        i = i + 1;
        assert(views(parts@) =~= g.locations@.take(i as int).map_values(
            |m: (Location, StateLocationStatus)| member_text(m, emoji),
        ));
    }
    assert(g.locations@.take(g.locations@.len() as int) =~= g.locations@);
    let mut r = String::from_str("  ");
    r.append(g.name.as_str());
    r.append(":\n    ");
    r.append(join(&parts, ", ").as_str());
    r
}

impl State {
    /// The state's volumes, one per group of lines.
    pub open spec fn spec_show_volumes(&self, emoji: bool) -> Seq<char> {
        joined(
            group_entries(self.spec_volume_entries()).map_values(
                |g: (Seq<char>, Seq<(Location, StateLocationStatus)>)| group_text(g, emoji),
            ),
            "\n"@,
        )
    }

    /// Each volume with the status symbol of each location that holds it.
    pub fn show_volumes(&self, emoji: bool) -> (r: String)
        ensures
            r@ == self.spec_show_volumes(emoji),
    {
        let groups = self.collect_volumes();
        let ghost gv = groups@.map_values(|g: VolumeGroup| group_view(g));
        let mut lines: Vec<String> = Vec::new();
        let mut i: usize = 0;
        while i < groups.len()
            invariant
                i <= groups@.len(),
                gv == groups@.map_values(|g: VolumeGroup| group_view(g)),
                views(lines@) == gv.take(i as int).map_values(
                    |g: (Seq<char>, Seq<(Location, StateLocationStatus)>)| group_text(g, emoji),
                ),
            decreases groups@.len() - i,
        {
            let line = show_group(&groups[i], emoji);
            let ghost before = lines@;
            lines.push(line);
            assert(views(lines@) =~= views(before).push(line@));
            i = i + 1;
            assert(views(lines@) =~= gv.take(i as int).map_values(
                |g: (Seq<char>, Seq<(Location, StateLocationStatus)>)| group_text(g, emoji),
            ));
        }
        assert(gv.take(gv.len() as int) =~= gv);
        join(&lines, "\n")
    }

    /// The volume entries of every location, the AWS locations first.
    pub open spec fn spec_volume_entries(&self) -> Seq<VolumeEntry> {
        aws_volume_entries(self.locations.aws@) + azure_volume_entries(self.locations.azure@)
    }

    /// The state's volumes, each with the locations that hold it.
    pub fn collect_volumes(&self) -> (r: Vec<VolumeGroup>)
        ensures
            r@.map_values(|g: VolumeGroup| group_view(g)) == group_entries(self.spec_volume_entries()),
    {
        let mut groups: Vec<VolumeGroup> = Vec::new();
        let aws = &self.locations.aws;
        let azure = &self.locations.azure;
        let mut i: usize = 0;
        while i < aws.len()
            invariant
                i <= aws@.len(),
                groups@.map_values(|g: VolumeGroup| group_view(g)) == group_entries(
                    aws_volume_entries(aws@.take(i as int)),
                ),
            decreases aws@.len() - i,
        {
            let location = Location::Aws(aws[i].region);
            let volumes = &aws[i].volumes;
            let ghost done = aws_volume_entries(aws@.take(i as int));
            let mut j: usize = 0;
            while j < volumes.len()
                invariant
                    j <= volumes@.len(),
                    *volumes == aws@[i as int].volumes,
                    location == Location::Aws(aws@[i as int].region),
                    groups@.map_values(|g: VolumeGroup| group_view(g)) == group_entries(
                        done + volumes@.take(j as int).map_values(
                            |v: VolumeLocation| (v.name@, location, v.status.value),
                        ),
                    ),
                decreases volumes@.len() - j,
            {
                let ghost es = done + volumes@.take(j as int).map_values(
                    |v: VolumeLocation| (v.name@, location, v.status.value),
                );
                let ghost e = (volumes@[j as int].name@, location, volumes@[j as int].status.value);
                file_volume(&mut groups, &volumes[j].name, location, volumes[j].status.value);
                let ghost next = done + volumes@.take(j + 1).map_values(
                    |v: VolumeLocation| (v.name@, location, v.status.value),
                );
                assert(next =~= es.push(e));
                assert(next.drop_last() =~= es);
                j = j + 1;
            }
            assert(volumes@.take(volumes@.len() as int) =~= volumes@);
            assert(aws@.take(i + 1).drop_last() =~= aws@.take(i as int));
            i = i + 1;
        }
        assert(aws@.take(aws@.len() as int) =~= aws@);
        let ghost aws_done = aws_volume_entries(aws@);
        let mut i: usize = 0;
        while i < azure.len()
            invariant
                i <= azure@.len(),
                groups@.map_values(|g: VolumeGroup| group_view(g)) == group_entries(
                    aws_done + azure_volume_entries(azure@.take(i as int)),
                ),
            decreases azure@.len() - i,
        {
            let location = Location::Azure(azure[i].region);
            let volumes = &azure[i].volumes;
            let ghost done = aws_done + azure_volume_entries(azure@.take(i as int));
            let mut j: usize = 0;
            while j < volumes.len()
                invariant
                    j <= volumes@.len(),
                    *volumes == azure@[i as int].volumes,
                    location == Location::Azure(azure@[i as int].region),
                    groups@.map_values(|g: VolumeGroup| group_view(g)) == group_entries(
                        done + volumes@.take(j as int).map_values(
                            |v: VolumeLocation| (v.name@, location, v.status.value),
                        ),
                    ),
                decreases volumes@.len() - j,
            {
                let ghost es = done + volumes@.take(j as int).map_values(
                    |v: VolumeLocation| (v.name@, location, v.status.value),
                );
                let ghost e = (volumes@[j as int].name@, location, volumes@[j as int].status.value);
                file_volume(&mut groups, &volumes[j].name, location, volumes[j].status.value);
                let ghost next = done + volumes@.take(j + 1).map_values(
                    |v: VolumeLocation| (v.name@, location, v.status.value),
                );
                assert(next =~= es.push(e));
                assert(next.drop_last() =~= es);
                j = j + 1;
            }
            assert(volumes@.take(volumes@.len() as int) =~= volumes@);
            assert(azure@.take(i + 1).drop_last() =~= azure@.take(i as int));
            assert(aws_done + azure_volume_entries(azure@.take(i + 1)) =~= done + volumes@.map_values(
                |v: VolumeLocation| (v.name@, location, v.status.value),
            ));
            i = i + 1;
        }
        assert(azure@.take(azure@.len() as int) =~= azure@);
        groups
    }

    /// The number of volumes of the state: the most that any of its
    /// locations holds.
    pub open spec fn spec_volume_count(&self) -> nat {
        let aws = most_volumes_aws(self.locations.aws@);
        let azure = most_volumes_azure(self.locations.azure@);
        if aws > azure { aws } else { azure }
    }

    /// `(1 volume)`, or `(<n> volumes)` for any other count.
    pub fn count_volumes(&self) -> (r: String)
        ensures
            r@ == self.spec_count_text(),
    {
        let aws = &self.locations.aws;
        let azure = &self.locations.azure;
        let mut most_aws: usize = 0;
        let mut i: usize = 0;
        while i < aws.len()
            invariant
                i <= aws@.len(),
                most_aws == most_volumes_aws(aws@.take(i as int)),
            decreases aws@.len() - i,
        {
            assert(aws@.take(i + 1).drop_last() =~= aws@.take(i as int));
            assert(aws@.take(i + 1).last() == aws@[i as int]);
            if aws[i].volumes.len() > most_aws {
                most_aws = aws[i].volumes.len();
            }
            i = i + 1;
        }
        assert(aws@.take(aws@.len() as int) =~= aws@);
        let mut most_azure: usize = 0;
        let mut j: usize = 0;
        while j < azure.len()
            invariant
                j <= azure@.len(),
                most_azure == most_volumes_azure(azure@.take(j as int)),
            decreases azure@.len() - j,
        {
            assert(azure@.take(j + 1).drop_last() =~= azure@.take(j as int));
            assert(azure@.take(j + 1).last() == azure@[j as int]);
            if azure[j].volumes.len() > most_azure {
                most_azure = azure[j].volumes.len();
            }
            j = j + 1;
        }
        assert(azure@.take(azure@.len() as int) =~= azure@);
        let count = if most_aws > most_azure { most_aws } else { most_azure };
        if count == 1 {
            String::from_str("(1 volume)")
        } else {
            let mut r = String::from_str("(");
            r.append(to_decimal(count as u64).as_str());
            r.append(" volumes)");
            r
        }
    }

    /// Availability is membership: the state is available in a location as
    /// soon as it has an entry there, whatever that entry's status.
    pub open spec fn spec_available_in(&self, location: Location) -> bool {
        self.locations.spec_contains(location)
    }

    pub open spec fn spec_show_owner(&self, emoji: bool) -> Seq<char> {
        match self.owner {
            Some(cluster) => pick(emoji, "🔒 "@, ""@) + cluster.0@,
            None => pick(emoji, "🔓"@, "-"@),
        }
    }

    /// The volume count as a listing shows it.
    pub open spec fn spec_count_text(&self) -> Seq<char> {
        if self.spec_volume_count() == 1 {
            "(1 volume)"@
        } else {
            "("@ + decimal(self.spec_volume_count()) + " volumes)"@
        }
    }

    /// One line of a state listing.
    pub open spec fn spec_show(&self, emoji: bool) -> Seq<char> {
        pick(emoji, "☘"@, "o"@) + " "@ + align_right(self.name.0@, 24) + " "@
            + self.condition.spec_show(emoji) + " "@ + align_left(self.spec_count_text(), 12)
            + " ["@ + self.locations.spec_show(emoji) + "] ("@ + self.spec_show_owner(emoji) + ")"@
    }

    /// A state of that name with no locations, no owner and a green condition.
    pub fn new(name: &str) -> (r: State)
        ensures
            r.name.0@ == name@,
            r.locations.aws@.len() == 0,
            r.locations.azure@.len() == 0,
            r.owner is None,
            r.condition == Condition::Green,
            r.provisioning_status == ProvisioningStatus::Ready,
    {
        State {
            id: 0,
            name: StateName::from(name),
            created: 0,
            modified: 0,
            storage_class: None,
            locations: StateLocations { aws: Vec::new(), azure: Vec::new() },
            owner: None,
            provisioning_status: ProvisioningStatus::default(),
            allowed_clusters: None,
            condition: Condition::Green,
        }
    }

    pub fn is_available_in(&self, location: &Location) -> (r: bool)
        ensures
            r == self.spec_available_in(*location),
    {
        self.locations.contains(location)
    }

    /// Every location of the state, the AWS ones first.
    pub fn all_locations(&self) -> (r: Vec<Location>)
        ensures
            r@ == self.locations.spec_all(),
    {
        let aws = &self.locations.aws;
        let azure = &self.locations.azure;
        let mut r: Vec<Location> = Vec::new();
        let mut i: usize = 0;
        while i < aws.len()
            invariant
                i <= aws@.len(),
                r@ == aws@.take(i as int).map_values(|s: StateLocationAws| Location::Aws(s.region)),
            decreases aws@.len() - i,
        {
            r.push(Location::Aws(aws[i].region));
            i = i + 1;
            assert(r@ =~= aws@.take(i as int).map_values(
                |s: StateLocationAws| Location::Aws(s.region),
            ));
        }
        assert(aws@.take(aws@.len() as int) =~= aws@);
        let mut j: usize = 0;
        while j < azure.len()
            invariant
                j <= azure@.len(),
                r@ == aws@.map_values(|s: StateLocationAws| Location::Aws(s.region))
                    + azure@.take(j as int).map_values(
                    |s: StateLocationAzure| Location::Azure(s.region),
                ),
            decreases azure@.len() - j,
        {
            r.push(Location::Azure(azure[j].region));
            j = j + 1;
            assert(r@ =~= aws@.map_values(|s: StateLocationAws| Location::Aws(s.region))
                + azure@.take(j as int).map_values(
                |s: StateLocationAzure| Location::Azure(s.region),
            ));
        }
        assert(azure@.take(azure@.len() as int) =~= azure@);
        r
    }

    /// The owner behind a lock, or an open lock for an unowned state.
    pub fn show_owner(&self, emoji: bool) -> (r: String)
        ensures
            r@ == self.spec_show_owner(emoji),
    {
        match &self.owner {
            Some(cluster) => {
                let mut r = String::from_str(if emoji { "🔒 " } else { "" });
                r.append(cluster.as_str());
                r
            },
            None => String::from_str(if emoji { "🔓" } else { "-" }),
        }
    }

    /// One line of a state listing: its symbol, name, condition, volume
    /// count, locations and owner.
    pub fn show(&self, emoji: bool) -> (r: String)
        ensures
            r@ == self.spec_show(emoji),
    {
        let mut r = String::from_str(if emoji { "☘" } else { "o" });
        r.append(" ");
        r.append(pad_right_align(self.name.as_str(), 24).as_str());
        r.append(" ");
        r.append(self.condition.show(emoji).as_str());
        r.append(" ");
        r.append(pad_left_align(self.count_volumes().as_str(), 12).as_str());
        r.append(" [");
        r.append(self.locations.show(emoji).as_str());
        r.append("] (");
        r.append(self.show_owner(emoji).as_str());
        r.append(")");
        r
    }
}

impl StateLocationStatus {
    pub open spec fn spec_as_str(self) -> Seq<char> {
        match self {
            StateLocationStatus::Ready => "ok"@,
            StateLocationStatus::Provisioning => "provisioning"@,
            StateLocationStatus::Recovering => "recovering"@,
            StateLocationStatus::Deleting => "deleting"@,
            StateLocationStatus::Error => "error"@,
        }
    }

    /// Settled: `Ok` or `Error`. Waiting for a location stops at either, so
    /// a caller that cares about success reads the status itself.
    pub open spec fn spec_is_final(self) -> bool {
        self is Ready || self is Error
    }

    pub open spec fn spec_show(self, emoji: bool) -> Seq<char> {
        match self {
            StateLocationStatus::Ready => pick(emoji, "🆗"@, "[v]"@),
            StateLocationStatus::Provisioning => pick(emoji, "⤴"@, "[+]"@),
            StateLocationStatus::Recovering => pick(emoji, "🔄"@, "[~]"@),
            StateLocationStatus::Deleting => pick(emoji, "⤵"@, "[-]"@),
            StateLocationStatus::Error => pick(emoji, "❌"@, "[x]"@),
        }
    }

    /// The status as a symbol.
    pub fn show(&self, emoji: bool) -> (r: String)
        ensures
            r@ == self.spec_show(emoji),
    {
        String::from_str(
            match self {
                StateLocationStatus::Ready => if emoji { "🆗" } else { "[v]" },
                StateLocationStatus::Provisioning => if emoji { "⤴" } else { "[+]" },
                StateLocationStatus::Recovering => if emoji { "🔄" } else { "[~]" },
                StateLocationStatus::Deleting => if emoji { "⤵" } else { "[-]" },
                StateLocationStatus::Error => if emoji { "❌" } else { "[x]" },
            },
        )
    }

    pub fn as_str(&self) -> (r: &'static str)
        ensures
            r@ == self.spec_as_str(),
    {
        match self {
            StateLocationStatus::Ready => "ok",
            StateLocationStatus::Provisioning => "provisioning",
            StateLocationStatus::Recovering => "recovering",
            StateLocationStatus::Deleting => "deleting",
            StateLocationStatus::Error => "error",
        }
    }

    pub fn is_deleting(&self) -> (r: bool)
        ensures
            r == (*self is Deleting),
    {
        *self == StateLocationStatus::Deleting
    }

    pub fn is_final(&self) -> (r: bool)
        ensures
            r == self.spec_is_final(),
    {
        match self {
            StateLocationStatus::Ready => true,
            StateLocationStatus::Provisioning => false,
            StateLocationStatus::Recovering => false,
            StateLocationStatus::Deleting => false,
            StateLocationStatus::Error => true,
        }
    }
}

impl Condition {
    pub open spec fn spec_show(self, emoji: bool) -> Seq<char> {
        match self {
            Condition::Green => pick(emoji, "🟢"@, "[GREEN] "@),
            Condition::Yellow => pick(emoji, "🟡"@, "[YELLOW]"@),
            Condition::Red => pick(emoji, "🔴"@, "[RED]   "@),
        }
    }

    /// The condition as a symbol.
    pub fn show(&self, emoji: bool) -> (r: String)
        ensures
            r@ == self.spec_show(emoji),
    {
        String::from_str(
            match self {
                Condition::Green => if emoji { "🟢" } else { "[GREEN] " },
                Condition::Yellow => if emoji { "🟡" } else { "[YELLOW]" },
                Condition::Red => if emoji { "🔴" } else { "[RED]   " },
            },
        )
    }
}

impl Default for Condition {
    fn default() -> (r: Condition)
        ensures
            r == Condition::Green,
    {
        Condition::Green
    }
}

impl Default for ProvisioningStatus {
    fn default() -> (r: ProvisioningStatus)
        ensures
            r == ProvisioningStatus::Ready,
    {
        ProvisioningStatus::Ready
    }
}

impl CreateStateLocationAwsDto {
    pub fn from(region: AwsRegion) -> (r: CreateStateLocationAwsDto)
        ensures
            r.region == region,
    {
        CreateStateLocationAwsDto { region }
    }
}

impl CreateStateLocationAzureDto {
    pub fn from(region: AzureRegion) -> (r: CreateStateLocationAzureDto)
        ensures
            r.region == region,
    {
        CreateStateLocationAzureDto { region }
    }
}

impl CreateStateLocationsDto {
    /// The locations a state is created in, split by vendor in order.
    pub open spec fn spec_all(&self) -> Seq<Location> {
        self.aws@.map_values(|d: CreateStateLocationAwsDto| Location::Aws(d.region))
            + self.azure@.map_values(|d: CreateStateLocationAzureDto| Location::Azure(d.region))
    }

    pub fn from(locations: &Vec<Location>) -> (r: CreateStateLocationsDto)
        ensures
            r.aws@.map_values(|d: CreateStateLocationAwsDto| Location::Aws(d.region)) == aws_part(
                locations@,
            ),
            r.azure@.map_values(|d: CreateStateLocationAzureDto| Location::Azure(d.region))
                == azure_part(locations@),
    {
        let mut aws: Vec<CreateStateLocationAwsDto> = Vec::new();
        let mut azure: Vec<CreateStateLocationAzureDto> = Vec::new();
        let mut i: usize = 0;
        while i < locations.len()
            invariant
                i <= locations@.len(),
                aws@.map_values(|d: CreateStateLocationAwsDto| Location::Aws(d.region)) == aws_part(
                    locations@.take(i as int),
                ),
                azure@.map_values(|d: CreateStateLocationAzureDto| Location::Azure(d.region))
                    == azure_part(locations@.take(i as int)),
            decreases locations@.len() - i,
        {
            let ghost prefix = locations@.take(i as int);
            assert(locations@.take(i + 1) =~= prefix.push(locations@[i as int]));
            assert(locations@.take(i + 1).drop_last() =~= prefix);
            match locations[i] {
                Location::Aws(region) => {
                    let ghost before = aws@;
                    aws.push(CreateStateLocationAwsDto::from(region));
                    assert(aws@.map_values(|d: CreateStateLocationAwsDto| Location::Aws(d.region))
                        =~= before.map_values(
                        |d: CreateStateLocationAwsDto| Location::Aws(d.region),
                    ).push(Location::Aws(region)));
                },
                Location::Azure(region) => {
                    let ghost before = azure@;
                    azure.push(CreateStateLocationAzureDto::from(region));
                    assert(azure@.map_values(
                        |d: CreateStateLocationAzureDto| Location::Azure(d.region),
                    ) =~= before.map_values(
                        |d: CreateStateLocationAzureDto| Location::Azure(d.region),
                    ).push(Location::Azure(region)));
                },
            }
            i = i + 1;
        }
        assert(locations@.take(locations@.len() as int) =~= locations@);
        CreateStateLocationsDto { aws, azure }
    }
}

} // verus!
