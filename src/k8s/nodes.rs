//! The cloud locations and the provider of a cluster, read off its nodes.

use vstd::prelude::*;

use crate::location::{Location, LocationError};
use crate::text::starts_with;
use crate::v0::Provider;

verus! {

/// The node label that holds the node's region.
pub const K8S_TOPOLOGY_REGION: &'static str = "topology.kubernetes.io/region";

/// The node label that AKS sets to the cluster's resource group.
pub const AKS_CLUSTER: &'static str = "kubernetes.azure.com/cluster";

/// A node's name and its region label, if it has one.
pub struct NodeRegion {
    pub name: String,
    pub region: Option<String>,
}

/// Why the nodes give no location list.
pub enum NodeLocationError {
    /// The cluster has no nodes.
    NoNodes,
    /// These nodes have no region label.
    Unlabeled(Vec<String>),
    /// A region label names no single location.
    Invalid(LocationError),
}

/// The names of the nodes without a region label, in order.
pub open spec fn spec_unlabeled(nodes: Seq<NodeRegion>) -> Seq<Seq<char>>
    decreases nodes.len(),
{
    if nodes.len() == 0 {
        Seq::empty()
    } else if nodes.last().region is None {
        spec_unlabeled(nodes.drop_last()).push(nodes.last().name@)
    } else {
        spec_unlabeled(nodes.drop_last())
    }
}

/// `ls` without repetitions, each location where it first occurs.
pub open spec fn dedup(ls: Seq<Location>) -> Seq<Location>
    decreases ls.len(),
{
    if ls.len() == 0 {
        Seq::empty()
    } else if dedup(ls.drop_last()).contains(ls.last()) {
        dedup(ls.drop_last())
    } else {
        dedup(ls.drop_last()).push(ls.last())
    }
}

/// The location each node's label names, in node order; `None` as soon as a
/// node has no label or a label that names no single location.
pub open spec fn spec_labelled_locations(nodes: Seq<NodeRegion>) -> Option<Seq<Location>>
    decreases nodes.len(),
{
    if nodes.len() == 0 {
        Some(Seq::empty())
    } else {
        match (spec_labelled_locations(nodes.drop_last()), nodes.last().region) {
            (Some(ls), Some(label)) => match Location::spec_parse(label@) {
                Some(l) => Some(ls.push(l)),
                None => None,
            },
            _ => None,
        }
    }
}

/// The distinct locations the nodes run in, in the order they first appear.
/// A node without a region label is an error, not skipped; so is a label
/// that names no single location, and a cluster without nodes.
pub fn collect_node_locations(nodes: &Vec<NodeRegion>) -> (r: Result<Vec<Location>, NodeLocationError>)
    ensures
        match r {
            Ok(ls) => nodes@.len() > 0 && spec_unlabeled(nodes@).len() == 0 && (
            spec_labelled_locations(nodes@) matches Some(all) && ls@ == dedup(all)),
            Err(NodeLocationError::NoNodes) => nodes@.len() == 0,
            Err(NodeLocationError::Unlabeled(names)) => nodes@.len() > 0 && spec_unlabeled(nodes@).len() > 0
                && names@.map_values(|n: String| n@) == spec_unlabeled(nodes@),
            Err(NodeLocationError::Invalid(_)) => nodes@.len() > 0 && spec_unlabeled(nodes@).len() == 0
                && spec_labelled_locations(nodes@) is None,
        },
{
    if nodes.len() == 0 {
        return Err(NodeLocationError::NoNodes);
    }
    let mut unlabeled: Vec<String> = Vec::new();
    let mut i: usize = 0;
    while i < nodes.len()
        invariant
            i <= nodes@.len(),
            unlabeled@.map_values(|n: String| n@) == spec_unlabeled(nodes@.take(i as int)),
        decreases nodes@.len() - i,
    {
        assert(nodes@.take(i + 1).drop_last() =~= nodes@.take(i as int));
        assert(nodes@.take(i + 1).last() == nodes@[i as int]);
        let ghost before = unlabeled@;
        if nodes[i].region.is_none() {
            unlabeled.push(nodes[i].name.clone());
            assert(unlabeled@.map_values(|n: String| n@) =~= before.map_values(|n: String| n@).push(
                nodes@[i as int].name@,
            ));
        }
        i = i + 1;
    }
    assert(nodes@.take(nodes@.len() as int) =~= nodes@);
    if unlabeled.len() > 0 {
        return Err(NodeLocationError::Unlabeled(unlabeled));
    }
    let mut all: Vec<Location> = Vec::new();
    let mut distinct: Vec<Location> = Vec::new();
    let mut j: usize = 0;
    while j < nodes.len()
        invariant
            j <= nodes@.len(),
            nodes@.len() > 0,
            spec_unlabeled(nodes@).len() == 0,
            spec_labelled_locations(nodes@.take(j as int)) == Some(all@),
            distinct@ == dedup(all@),
        decreases nodes@.len() - j,
    {
        assert(nodes@.take(j + 1).drop_last() =~= nodes@.take(j as int));
        assert(nodes@.take(j + 1).last() == nodes@[j as int]);
        match &nodes[j].region {
            Some(label) => {
                match Location::from_str(label.as_str()) {
                    Ok(l) => {
                        let ghost before = all@;
                        all.push(l);
                        assert(all@.drop_last() =~= before);
                        if !contains(&distinct, &l) {
                            distinct.push(l);
                        }
                    },
                    Err(e) => {
                        assert(Location::spec_parse(label@) is None);
                        assert(spec_labelled_locations(nodes@.take(j + 1)) is None);
                        proof {
                            lemma_labelled_none_extends(nodes@, j as int + 1);
                        }
                        return Err(NodeLocationError::Invalid(e));
                    },
                }
            },
            None => {
                proof {
                    lemma_unlabeled_member(nodes@, j as int);
                }
                assert(false);
            },
        }
        j = j + 1;
    }
    assert(nodes@.take(nodes@.len() as int) =~= nodes@);
    Ok(distinct)
}

proof fn lemma_unlabeled_member(nodes: Seq<NodeRegion>, j: int)
    requires
        0 <= j < nodes.len(),
        nodes[j].region is None,
    ensures
        spec_unlabeled(nodes).len() > 0,
    decreases nodes.len(),
{
    if j < nodes.len() - 1 {
        assert(nodes.drop_last()[j] == nodes[j]);
        lemma_unlabeled_member(nodes.drop_last(), j);
    }
}

proof fn lemma_labelled_none_extends(nodes: Seq<NodeRegion>, k: int)
    requires
        0 <= k <= nodes.len(),
        spec_labelled_locations(nodes.take(k)) is None,
    ensures
        spec_labelled_locations(nodes) is None,
    decreases nodes.len() - k,
{
    if k < nodes.len() {
        assert(nodes.take(k + 1).drop_last() =~= nodes.take(k));
        lemma_labelled_none_extends(nodes, k + 1);
    } else {
        assert(nodes.take(k) =~= nodes);
    }
}

fn contains(ls: &Vec<Location>, l: &Location) -> (r: bool)
    ensures
        r == ls@.contains(*l),
{
    let mut i: usize = 0;
    while i < ls.len()
        invariant
            i <= ls@.len(),
            forall|k: int| 0 <= k < i ==> ls@[k] != *l,
        decreases ls@.len() - i,
    {
        if ls[i] == *l {
            assert(ls@[i as int] == *l);
            return true;
        }
        i = i + 1;
    }
    false
}

/// The label is that of a managed AKS resource group.
pub open spec fn is_managed_group(label: Option<String>) -> bool {
    match label {
        Some(l) => "MC_"@.is_prefix_of(l@),
        None => false,
    }
}

/// Some node carries an AKS cluster label of a managed resource group
/// (one whose name starts with `MC_`).
pub open spec fn spec_is_aks(labels: Seq<Option<String>>) -> bool {
    exists|i: int| 0 <= i < labels.len() && is_managed_group(#[trigger] labels[i])
}

/// Given each node's AKS cluster label, whether the cluster is AKS.
pub fn is_aks(labels: &Vec<Option<String>>) -> (r: bool)
    ensures
        r == spec_is_aks(labels@),
{
    let mut i: usize = 0;
    while i < labels.len()
        invariant
            i <= labels@.len(),
            forall|k: int| 0 <= k < i ==> !is_managed_group(#[trigger] labels@[k]),
        decreases labels@.len() - i,
    {
        match &labels[i] {
            Some(l) => {
                if starts_with(l.as_str(), "MC_") {
                    return true;
                }
            },
            None => {},
        }
        i = i + 1;
    }
    false
}

/// A cluster that is not AKS is taken for EKS.
pub fn is_eks() -> (r: bool)
    ensures
        r,
{
    true
}

/// AKS when the labels say so, EKS otherwise.
pub fn detect_provider(labels: &Vec<Option<String>>) -> (r: Provider)
    ensures
        r == (if spec_is_aks(labels@) { Provider::Aks } else { Provider::Eks }),
{
    if is_aks(labels) {
        Provider::Aks
    } else if is_eks() {
        Provider::Eks
    } else {
        Provider::Generic
    }
}

} // verus!
