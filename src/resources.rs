//! The child resources of an instance, built as plain values from the
//! challenge, the instance class and the instance.

pub mod configmap;
pub mod deployment;
pub mod gateway;
pub mod namespace;
pub mod network_policy;
pub mod pdb;
pub mod plan;
pub mod service;
