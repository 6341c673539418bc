//! The cloud providers the toolkit can drive.

use vstd::prelude::*;
use crate::aws::interface::AwsInterface;
use crate::cluster::ConfigVar;
use crate::vultr::VultrInterface;

verus! {

/// A Google Cloud account, by its configuration settings. No operation is
/// offered for it yet.
pub struct GcpInterface {
    pub config_vars: Vec<ConfigVar>,
}

/// A configured cloud provider.
pub enum CloudProvider {
    Aws(AwsInterface),
    Vultr(VultrInterface),
    Gcp(GcpInterface),
}

} // verus!
