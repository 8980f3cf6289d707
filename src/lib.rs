//! Client-side core of a multi-cloud storage control plane: the location
//! model, the reconciliation of a state's locations, and the decisions that
//! drive cluster registration and unregistration.

pub mod api;
pub mod config;
pub mod k8s;
pub mod location;
pub mod ownership;
pub mod reconcile;
pub mod register;
pub mod text;
pub mod v0;
pub mod v1;
