//! The per-cluster context of AWS operations: standard resource names, the
//! cluster tag and filter, and the resource identifiers found or created so
//! far.

use vstd::prelude::*;
use std::collections::HashMap;
use crate::cluster::Cluster;
use crate::text::{decimal, u64_to_decimal};

verus! {

/// A tag put on every cluster resource.
pub struct ResourceTag {
    pub key: String,
    pub value: String,
}

/// A DescribeXxx filter.
pub struct ResourceFilter {
    pub name: String,
    pub values: Vec<String>,
}

/// The addresses recorded for a node during a spawn.
pub struct NodeAddresses {
    pub private_ip: String,
    pub public_ip: String,
}

/// Names, settings and resource identifiers of one cluster's AWS resources.
pub struct AwsClusterContext {
    pub cluster_id: String,
    pub cluster_id_tag: ResourceTag,
    pub cluster_id_filter: ResourceFilter,
    pub vpc_name: String,
    pub subnet_name: String,
    pub gateway_name: String,
    pub route_table_name: String,
    pub security_group_name: String,
    pub placement_group_name: String,
    pub ssh_key_name: String,
    pub efs_device_name: String,
    pub vpc_id: Option<String>,
    pub subnet_id: Option<String>,
    pub gateway_id: Option<String>,
    pub route_table_id: Option<String>,
    pub security_group_ids: Vec<String>,
    pub placement_group_name_actual: Option<String>,
    pub ssh_key_id: Option<String>,
    pub elastic_network_interface_ids: HashMap<usize, String>,
    pub elastic_ip_ids: HashMap<usize, String>,
    pub elastic_ips: HashMap<usize, String>,
    pub ec2_instance_ids: HashMap<usize, String>,
    pub efs_device_id: Option<String>,
    pub efs_mount_target_id: Option<String>,
    pub availability_zone: String,
    pub use_node_affinity: bool,
    pub use_elastic_fabric_adapters: bool,
    pub efs_performance_mode: String,
    pub efs_throughput_mode: String,
    pub public_ssh_key_path: String,
    pub vpc_cidr_block: String,
    pub subnet_cidr_block: String,
}

/// The name of a cluster-level resource: the cluster id and a suffix.
pub open spec fn resource_name(cluster_id: Seq<char>, suffix: Seq<char>) -> Seq<char> {
    cluster_id + suffix
}

/// The name of a node-level resource: cluster id, kind and node index.
pub open spec fn node_resource_name(cluster_id: Seq<char>, kind: Seq<char>, node_index: nat) -> Seq<
    char,
> {
    cluster_id + kind + decimal(node_index)
}

/// The private address given to a node's network interface.
pub open spec fn node_private_ip(node_index: nat) -> Seq<char> {
    "10.0.0."@ + decimal(node_index + 10)
}

fn named(cluster_id: &String, suffix: &str) -> (r: String)
    ensures
        r@ == resource_name(cluster_id@, suffix@),
{
    let mut r = cluster_id.clone();
    r.append(suffix);
    r
}

impl AwsClusterContext {

    /// The tags a cluster resource is created with: its `Name`, then the
    /// cluster tag.
    pub fn creation_tags(&self, name: &str) -> (r: Vec<ResourceTag>)
        ensures
            r@.len() == 2,
            r@[0].key@ == "Name"@,
            r@[0].value@ == name@,
            r@[1].key@ == self.cluster_id_tag.key@,
            r@[1].value@ == self.cluster_id_tag.value@,
    {
        let mut r: Vec<ResourceTag> = Vec::new();
        r.push(ResourceTag { key: String::from_str("Name"), value: String::from_str(name) });
        r.push(
            ResourceTag {
                key: self.cluster_id_tag.key.clone(),
                value: self.cluster_id_tag.value.clone(),
            },
        );
        r
    }

    /// The filter that finds a resource by its `Name` tag.
    pub fn name_filter(name: &str) -> (f: ResourceFilter)
        ensures
            f.name@ == "tag:Name"@,
            f.values@.len() == 1,
            f.values@[0]@ == name@,
    {
        let mut values: Vec<String> = Vec::new();
        values.push(String::from_str(name));
        ResourceFilter { name: String::from_str("tag:Name"), values }
    }
    /// The context of a cluster, before any of its resources is known.
    pub fn new(cluster: &Cluster) -> (c: Self)
        ensures
            c.cluster_id@ == cluster.id@,
            c.cluster_id_tag.key@ == "ClusterId"@,
            c.cluster_id_tag.value@ == cluster.id@,
            c.cluster_id_filter.name@ == "tag:ClusterId"@,
            c.cluster_id_filter.values@.len() == 1,
            c.cluster_id_filter.values@[0]@ == cluster.id@,
            c.vpc_name@ == resource_name(cluster.id@, "-VPC"@),
            c.subnet_name@ == resource_name(cluster.id@, "-SUBNET"@),
            c.gateway_name@ == resource_name(cluster.id@, "-IGW"@),
            c.route_table_name@ == resource_name(cluster.id@, "-RT"@),
            c.security_group_name@ == resource_name(cluster.id@, "-SG"@),
            c.placement_group_name@ == resource_name(cluster.id@, "-PG"@),
            c.ssh_key_name@ == resource_name(cluster.id@, "-KEY"@),
            c.efs_device_name@ == resource_name(cluster.id@, "-EFS"@),
            c.vpc_id is None,
            c.subnet_id is None,
            c.gateway_id is None,
            c.route_table_id is None,
            c.security_group_ids@.len() == 0,
            c.placement_group_name_actual is None,
            c.ssh_key_id is None,
            c.elastic_network_interface_ids@ == Map::<usize, String>::empty(),
            c.elastic_ip_ids@ == Map::<usize, String>::empty(),
            c.elastic_ips@ == Map::<usize, String>::empty(),
            c.ec2_instance_ids@ == Map::<usize, String>::empty(),
            c.efs_device_id is None,
            c.efs_mount_target_id is None,
            c.availability_zone@ == cluster.availability_zone@,
            c.use_node_affinity == cluster.use_node_affinity,
            c.use_elastic_fabric_adapters == cluster.use_elastic_fabric_adapters,
            c.efs_performance_mode@ == cluster.efs_performance_mode@,
            c.efs_throughput_mode@ == cluster.efs_throughput_mode@,
            c.public_ssh_key_path@ == cluster.public_ssh_key_path@,
            c.vpc_cidr_block@ == "10.0.0.0/16"@,
            c.subnet_cidr_block@ == "10.0.0.0/24"@,
    {
        let id = cluster.id.clone();
        let mut values: Vec<String> = Vec::new();
        values.push(id.clone());
        AwsClusterContext {
            cluster_id: id.clone(),
            cluster_id_tag: ResourceTag { key: String::from_str("ClusterId"), value: id.clone() },
            cluster_id_filter: ResourceFilter { name: String::from_str("tag:ClusterId"), values },
            vpc_name: named(&id, "-VPC"),
            subnet_name: named(&id, "-SUBNET"),
            gateway_name: named(&id, "-IGW"),
            route_table_name: named(&id, "-RT"),
            security_group_name: named(&id, "-SG"),
            placement_group_name: named(&id, "-PG"),
            ssh_key_name: named(&id, "-KEY"),
            efs_device_name: named(&id, "-EFS"),
            vpc_id: None,
            subnet_id: None,
            gateway_id: None,
            route_table_id: None,
            security_group_ids: Vec::new(),
            placement_group_name_actual: None,
            ssh_key_id: None,
            elastic_network_interface_ids: HashMap::new(),
            elastic_ip_ids: HashMap::new(),
            elastic_ips: HashMap::new(),
            ec2_instance_ids: HashMap::new(),
            efs_device_id: None,
            efs_mount_target_id: None,
            availability_zone: cluster.availability_zone.clone(),
            use_node_affinity: cluster.use_node_affinity,
            use_elastic_fabric_adapters: cluster.use_elastic_fabric_adapters,
            efs_performance_mode: cluster.efs_performance_mode.clone(),
            efs_throughput_mode: cluster.efs_throughput_mode.clone(),
            public_ssh_key_path: cluster.public_ssh_key_path.clone(),
            vpc_cidr_block: String::from_str("10.0.0.0/16"),
            subnet_cidr_block: String::from_str("10.0.0.0/24"),
        }
    }

    fn node_named(&self, kind: &str, node_index: usize) -> (r: String)
        ensures
            r@ == node_resource_name(self.cluster_id@, kind@, node_index as nat),
    {
        let mut r = self.cluster_id.clone();
        r.append(kind);
        let digits = u64_to_decimal(node_index as u64);
        r.append(digits.as_str());
        r
    }

    /// The token under which the cluster's EFS device is created and looked
    /// up: the cluster id, so that a second run finds the device the first
    /// one made.
    pub open spec fn efs_token(&self) -> Seq<char> {
        self.cluster_id@
    }

    /// The EFS creation token, for the lookup of the device and for its
    /// creation alike.
    pub fn efs_creation_token(&self) -> (r: String)
        ensures
            r@ == self.efs_token(),
            r@ == self.cluster_id@,
    {
        self.cluster_id.clone()
    }

    /// The name of a node's EC2 instance.
    pub fn ec2_instance_name(&self, node_index: usize) -> (r: String)
        ensures
            r@ == node_resource_name(self.cluster_id@, "-EC2-INSTANCE-"@, node_index as nat),
    {
        self.node_named("-EC2-INSTANCE-", node_index)
    }

    /// The name of a node's network interface.
    pub fn network_interface_name(&self, node_index: usize) -> (r: String)
        ensures
            r@ == node_resource_name(self.cluster_id@, "-ENI-"@, node_index as nat),
    {
        self.node_named("-ENI-", node_index)
    }

    /// The name of a node's Elastic IP.
    pub fn elastic_ip_name(&self, node_index: usize) -> (r: String)
        ensures
            r@ == node_resource_name(self.cluster_id@, "-EIP-"@, node_index as nat),
    {
        self.node_named("-EIP-", node_index)
    }

    /// The private address of a node's network interface: `10.0.0.` and the
    /// node index plus ten.
    pub fn network_interface_private_ip(&self, node_index: usize) -> (r: String)
        requires
            node_index + 10 <= usize::MAX,
        ensures
            r@ == node_private_ip(node_index as nat),
    {
        let mut r = String::from_str("10.0.0.");
        let digits = u64_to_decimal((node_index + 10) as u64);
        r.append(digits.as_str());
        r
    }

    /// The network interface recorded for a node.
    pub fn network_interface_for(&self, node_index: usize) -> (r: Option<String>)
        ensures
            match r {
                Some(id) => self.elastic_network_interface_ids@.contains_key(node_index) && id@
                    == self.elastic_network_interface_ids@[node_index]@,
                None => !self.elastic_network_interface_ids@.contains_key(node_index),
            },
    {
        broadcast use vstd::std_specs::hash::group_hash_axioms;

        match self.elastic_network_interface_ids.get(&node_index) {
            Some(id) => Some(id.clone()),
            None => None,
        }
    }

    /// The addresses recorded for node `node_index` once its network is set
    /// up: its private address `10.0.0.<index + 10>`, and for the head node
    /// (node 0) the public address of its Elastic IP; workers, reached
    /// through the head node, record an empty public address.
    pub fn recorded_addresses(&self, node_index: usize) -> (a: NodeAddresses)
        requires
            node_index + 10 <= usize::MAX,
        ensures
            a.private_ip@ == node_private_ip(node_index as nat),
            node_index == 0 ==> a.public_ip@ == (if self.elastic_ips@.contains_key(0) {
                self.elastic_ips@[0]@
            } else {
                Seq::<char>::empty()
            }),
            node_index > 0 ==> a.public_ip@ == Seq::<char>::empty(),
    {
        let private_ip = self.network_interface_private_ip(node_index);
        let public_ip = if node_index == 0 {
            self.head_public_ip()
        } else {
            String::new()
        };
        NodeAddresses { private_ip, public_ip }
    }

    /// The public address of the head node (node 0): its Elastic IP, or
    /// the empty text while none is recorded.
    pub fn head_public_ip(&self) -> (r: String)
        ensures
            self.elastic_ips@.contains_key(0) ==> r@ == self.elastic_ips@[0]@,
            !self.elastic_ips@.contains_key(0) ==> r@ == Seq::<char>::empty(),
    {
        broadcast use vstd::std_specs::hash::group_hash_axioms;

        match self.elastic_ips.get(&0) {
            Some(ip) => ip.clone(),
            None => String::new(),
        }
    }
}

proof fn lemma_prefix_cancel(p: Seq<char>, a: Seq<char>, b: Seq<char>)
    requires
        p + a == p + b,
    ensures
        a == b,
{
    assert(a =~= (p + a).skip(p.len() as int));
    assert(b =~= (p + b).skip(p.len() as int));
}

/// Different nodes get different instance, interface and address names,
/// and different private addresses, so lookups by name never confuse two
/// nodes of a cluster.
pub proof fn lemma_node_names_distinct(cluster_id: Seq<char>, i: nat, j: nat)
    requires
        i != j,
    ensures
        node_resource_name(cluster_id, "-EC2-INSTANCE-"@, i) != node_resource_name(
            cluster_id,
            "-EC2-INSTANCE-"@,
            j,
        ),
        node_resource_name(cluster_id, "-ENI-"@, i) != node_resource_name(cluster_id, "-ENI-"@, j),
        node_resource_name(cluster_id, "-EIP-"@, i) != node_resource_name(cluster_id, "-EIP-"@, j),
        node_private_ip(i) != node_private_ip(j),
{
    let kinds = seq!["-EC2-INSTANCE-"@, "-ENI-"@, "-EIP-"@];
    assert forall|k: int| 0 <= k < 3 implies node_resource_name(cluster_id, #[trigger] kinds[k], i)
        != node_resource_name(cluster_id, kinds[k], j) by {
        if node_resource_name(cluster_id, kinds[k], i) == node_resource_name(
            cluster_id,
            kinds[k],
            j,
        ) {
            assert(cluster_id + kinds[k] + decimal(i) == cluster_id + kinds[k] + decimal(j));
            lemma_prefix_cancel(cluster_id + kinds[k], decimal(i), decimal(j));
            crate::text::lemma_decimal_injective(i, j);
        }
    }
    assert(node_resource_name(cluster_id, kinds[0], i) != node_resource_name(
        cluster_id,
        kinds[0],
        j,
    ));
    assert(node_resource_name(cluster_id, kinds[1], i) != node_resource_name(
        cluster_id,
        kinds[1],
        j,
    ));
    assert(node_resource_name(cluster_id, kinds[2], i) != node_resource_name(
        cluster_id,
        kinds[2],
        j,
    ));
    if node_private_ip(i) == node_private_ip(j) {
        lemma_prefix_cancel("10.0.0."@, decimal(i + 10), decimal(j + 10));
        crate::text::lemma_decimal_injective(i + 10, j + 10);
    }
}

/// The cluster-level resources of one cluster all have different names.
pub proof fn lemma_resource_names_distinct(cluster_id: Seq<char>)
    ensures
        ({
            let suffixes = seq![
                "-VPC"@,
                "-SUBNET"@,
                "-IGW"@,
                "-RT"@,
                "-SG"@,
                "-PG"@,
                "-KEY"@,
                "-EFS"@,
            ];
            forall|a: int, b: int|
                0 <= a < 8 && 0 <= b < 8 && a != b ==> resource_name(
                    cluster_id,
                    #[trigger] suffixes[a],
                ) != resource_name(cluster_id, #[trigger] suffixes[b])
        }),
{
    reveal_strlit("-VPC");
    reveal_strlit("-SUBNET");
    reveal_strlit("-IGW");
    reveal_strlit("-RT");
    reveal_strlit("-SG");
    reveal_strlit("-PG");
    reveal_strlit("-KEY");
    reveal_strlit("-EFS");
    let suffixes = seq!["-VPC"@, "-SUBNET"@, "-IGW"@, "-RT"@, "-SG"@, "-PG"@, "-KEY"@, "-EFS"@];
    assert forall|a: int, b: int|
        0 <= a < 8 && 0 <= b < 8 && a != b implies resource_name(
        cluster_id,
        #[trigger] suffixes[a],
    ) != resource_name(cluster_id, #[trigger] suffixes[b]) by {
        if resource_name(cluster_id, suffixes[a]) == resource_name(cluster_id, suffixes[b]) {
            lemma_prefix_cancel(cluster_id, suffixes[a], suffixes[b]);
            assert(suffixes[a][1] == suffixes[b][1]);
            assert(suffixes[a].len() == suffixes[b].len());
        }
    }
}

} // verus!
