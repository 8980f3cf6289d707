//! The parts of a kubeconfig that name the current cluster.

use vstd::prelude::*;

use crate::text::{after_last, last_delimiter, str_eq};
use crate::v0::ClusterName;

verus! {

/// Separates a cluster's name from the path in front of it (as in an EKS
/// context `arn:aws:eks:<region>:<account>:cluster/<name>`).
pub const CLUSTER_DELIMITER: char = '/';

/// The names a kubeconfig holds: its current context, and the names of its
/// contexts and clusters in file order.
pub struct Kubeconfig {
    pub current_context: Option<String>,
    pub contexts: Vec<String>,
    pub clusters: Vec<String>,
}

impl Kubeconfig {
    /// The current context, else the first context, else the first cluster.
    pub open spec fn spec_default_context(&self) -> Option<Seq<char>> {
        match self.current_context {
            Some(c) => Some(c@),
            None => if self.contexts@.len() > 0 {
                Some(self.contexts@[0]@)
            } else if self.clusters@.len() > 0 {
                Some(self.clusters@[0]@)
            } else {
                None
            },
        }
    }

    pub fn default_context(&self) -> (r: Option<&str>)
        ensures
            match r {
                Some(s) => self.spec_default_context() == Some(s@),
                None => self.spec_default_context() is None,
            },
    {
        match &self.current_context {
            Some(c) => Some(c.as_str()),
            None => if self.contexts.len() > 0 {
                Some(self.contexts[0].as_str())
            } else if self.clusters.len() > 0 {
                Some(self.clusters[0].as_str())
            } else {
                None
            },
        }
    }

    /// Some context or cluster has that name.
    pub fn contains(&self, name: &str) -> (r: bool)
        ensures
            r == ((exists|i: int| 0 <= i < self.contexts@.len() && (#[trigger] self.contexts@[i])@ == name@)
                || (exists|i: int| 0 <= i < self.clusters@.len() && (#[trigger] self.clusters@[i])@ == name@)),
    {
        let mut i: usize = 0;
        while i < self.contexts.len()
            invariant
                i <= self.contexts@.len(),
                forall|k: int| 0 <= k < i ==> (#[trigger] self.contexts@[k])@ != name@,
            decreases self.contexts@.len() - i,
        {
            if str_eq(self.contexts[i].as_str(), name) {
                return true;
            }
            i = i + 1;
        }
        let mut j: usize = 0;
        while j < self.clusters.len()
            invariant
                j <= self.clusters@.len(),
                forall|k: int| 0 <= k < self.contexts@.len() ==> (#[trigger] self.contexts@[k])@ != name@,
                forall|k: int| 0 <= k < j ==> (#[trigger] self.clusters@[k])@ != name@,
            decreases self.clusters@.len() - j,
        {
            if str_eq(self.clusters[j].as_str(), name) {
                return true;
            }
            j = j + 1;
        }
        false
    }

    pub fn current_context(&self) -> (r: Option<&str>)
        ensures
            match r {
                Some(s) => self.current_context matches Some(c) && c@ == s@,
                None => self.current_context is None,
            },
    {
        match &self.current_context {
            Some(c) => Some(c.as_str()),
            None => None,
        }
    }

    /// The names of all contexts, in file order.
    pub fn all_contexts(&self) -> (r: Vec<&str>)
        ensures
            r@.len() == self.contexts@.len(),
            forall|i: int| 0 <= i < r@.len() ==> (#[trigger] r@[i])@ == self.contexts@[i]@,
    {
        let mut r: Vec<&str> = Vec::new();
        let mut i: usize = 0;
        while i < self.contexts.len()
            invariant
                i <= self.contexts@.len(),
                r@.len() == i,
                forall|k: int| 0 <= k < i ==> (#[trigger] r@[k])@ == self.contexts@[k]@,
            decreases self.contexts@.len() - i,
        {
            r.push(self.contexts[i].as_str());
            i = i + 1;
        }
        r
    }

    /// The cluster name of the default context, without its path.
    pub fn cluster_name(&self) -> (r: Option<ClusterName>)
        ensures
            match r {
                Some(n) => self.spec_default_context() matches Some(c) && n.0@ == after_last(
                    c,
                    CLUSTER_DELIMITER,
                ),
                None => self.spec_default_context() is None,
            },
    {
        match self.default_context() {
            Some(c) => Some(normalize_name(c)),
            None => None,
        }
    }
}

/// A context's name without the path in front of its last `/`.
pub fn normalize_name(name: &str) -> (r: ClusterName)
    ensures
        r.0@ == after_last(name@, CLUSTER_DELIMITER),
{
    ClusterName::from(last_delimiter(name, CLUSTER_DELIMITER))
}

} // verus!
