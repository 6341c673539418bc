//! The cluster, node and provider-configuration records that the
//! provisioning logic works from.

use vstd::prelude::*;

verus! {

/// Lifecycle state of a cluster.
#[derive(Debug, Clone, Copy, PartialEq, Eq, Structural)]
pub enum ClusterState {
    /// Defined, with no cloud resources.
    Pending,
    /// Resources are being created for the first time.
    Spawning,
    /// Up and usable.
    Running,
    /// Resources are being recreated for a cluster that was running.
    Restoring,
    /// Resources are being destroyed.
    Terminating,
}

/// A cluster definition.
pub struct Cluster {
    pub id: String,
    pub display_name: String,
    pub provider_id: String,
    pub region: String,
    pub availability_zone: String,
    pub use_node_affinity: bool,
    pub use_elastic_fabric_adapters: bool,
    pub use_elastic_file_system: bool,
    pub efs_performance_mode: String,
    pub efs_throughput_mode: String,
    pub public_ssh_key_path: String,
    pub private_ssh_key_path: String,
    pub state: ClusterState,
}

/// A node of a cluster.
pub struct Node {
    pub id: String,
    pub instance_type: String,
    pub image_id: String,
    pub allocation_mode: String,
    pub root_volume_gb: i64,
    pub root_volume_type: String,
    pub root_volume_iops: Option<i64>,
    pub burstable_mode: Option<String>,
    pub was_efs_configured: bool,
    pub private_ip: Option<String>,
    pub public_ip: Option<String>,
}

/// A key-value setting of a provider configuration.
pub struct ConfigVar {
    pub key: String,
    pub value: String,
}

/// The value of the first setting named `key`.
pub open spec fn config_value(vars: Seq<ConfigVar>, key: Seq<char>) -> Option<Seq<char>>
    decreases vars.len(),
{
    if vars.len() == 0 {
        None
    } else if vars[0].key@ == key {
        Some(vars[0].value@)
    } else {
        config_value(vars.drop_first(), key)
    }
}

/// Looks a setting up by name.
pub fn get_value<'a>(vars: &'a Vec<ConfigVar>, key: &str) -> (r: Option<&'a String>)
    ensures
        match r {
            Some(v) => config_value(vars@, key@) == Some(v@),
            None => config_value(vars@, key@) is None,
        },
{
    let k = String::from_str(key);
    let mut i: usize = 0;
    assert(vars@.skip(0) =~= vars@);
    while i < vars.len()
        invariant
            i <= vars.len(),
            k@ == key@,
            config_value(vars@, key@) == config_value(vars@.skip(i as int), key@),
        decreases vars.len() - i,
    {
        let ghost rest = vars@.skip(i as int);
        assert(rest.drop_first() =~= vars@.skip(i + 1));
        assert(rest[0] == vars@[i as int]);
        if vars[i].key == k {
            return Some(&vars[i].value);
        }
        i = i + 1;
    }
    None
}

/// Whether any node is allocated on the spot market.
pub fn has_spot_nodes(nodes: &Vec<Node>) -> (b: bool)
    ensures
        b == exists|i: int| 0 <= i < nodes@.len() && #[trigger] nodes@[i].allocation_mode@ == "spot"@,
{
    let spot = String::from_str("spot");
    let mut i: usize = 0;
    while i < nodes.len()
        invariant
            i <= nodes.len(),
            spot@ == "spot"@,
            forall|j: int| 0 <= j < i ==> #[trigger] nodes@[j].allocation_mode@ != "spot"@,
        decreases nodes.len() - i,
    {
        if nodes[i].allocation_mode == spot {
            return true;
        }
        i = i + 1;
    }
    false
}

} // verus!
