//! The Kubernetes objects that the operator owns for each tunnel.

pub mod meta;
pub mod secret;
pub mod configmap;
pub mod deployment;
pub mod gateway;
