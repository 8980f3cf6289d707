//! What the library decides about the Kubernetes cluster it runs against.

pub mod helm;
pub mod kubeconfig;
pub mod nodes;

pub use helm::{Helm, HelmCommand, HelmOutcome};
pub use kubeconfig::{normalize_name, Kubeconfig};
pub use nodes::{
    collect_node_locations, detect_provider, is_aks, is_eks, NodeLocationError, NodeRegion,
};
