//! Helm charts that the management API asks a cluster to install.

use vstd::prelude::*;

verus! {

/// One chart to install, with its `--set` parameters in the order the
/// server listed them.
pub struct Helm {
    pub repo: String,
    pub chart: String,
    pub version: String,
    pub parameters: Vec<(String, String)>,
}

} // verus!
