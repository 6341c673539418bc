//! Decision core of the HPC@Cloud toolkit: resource naming, request planning,
//! state classification and retry logic for cluster provisioning, with the
//! cloud calls themselves left to the surrounding application.

pub mod text;
pub mod json;
pub mod aws;
pub mod cluster;
pub mod ssh;
pub mod vultr;
pub mod formatting;
pub mod provider;
pub mod ids;
