//! Amazon Web Services: the decisions behind catalog queries, pricing and
//! the cluster resource lifecycle.

pub mod pricing;
pub mod instances;
pub mod context;
pub mod launch;
pub mod network;
pub mod efs;
pub mod lifecycle;
pub mod catalog;
pub mod spot;
pub mod ssm;
pub mod interface;
pub mod iam;
pub mod setup;
pub mod waits;
