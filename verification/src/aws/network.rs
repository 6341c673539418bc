//! Reuse-or-create and cleanup decisions for the network resources of a
//! cluster: VPC, subnet, internet gateway, route table, security groups,
//! network interfaces, Elastic IPs, key pair and placement group.

use vstd::prelude::*;
use crate::aws::context::{node_private_ip, node_resource_name, AwsClusterContext};
use crate::text::views;

verus! {

/// The id of the first resource of a Describe answer, if it has one: the
/// resource found under the cluster's tag or name. Only the first resource
/// is considered.
pub open spec fn first_id(ids: Seq<Option<String>>) -> Option<Seq<char>> {
    if ids.len() > 0 && ids[0] is Some {
        Some(ids[0].unwrap()@)
    } else {
        None
    }
}

/// An optional string, seen through its view.
pub open spec fn opt_view(o: Option<String>) -> Option<Seq<char>> {
    match o {
        Some(s) => Some(s@),
        None => None,
    }
}

/// The id of the existing resource to reuse (or to delete), taken from the
/// first resource that a Describe call returned.
pub fn first_resource_id(ids: &Vec<Option<String>>) -> (r: Option<String>)
    ensures
        opt_view(r) == first_id(ids@),
{
    if ids.len() > 0 {
        match &ids[0] {
            Some(id) => Some(id.clone()),
            None => None,
        }
    } else {
        None
    }
}

/// What the cluster logic reads of an internet gateway.
pub struct GatewayRecord {
    pub gateway_id: Option<String>,
    /// The VPC of each attachment, in order.
    pub attachment_vpc_ids: Vec<Option<String>>,
}

/// What to do to have an internet gateway attached to the cluster VPC.
pub enum GatewayDecision {
    /// The gateway is attached to the cluster VPC already.
    Reuse { gateway_id: String },
    /// The gateway exists but is not attached: attach it.
    AttachExisting { gateway_id: String },
    /// No gateway: create one, then attach it.
    Create,
    /// The gateway is attached to another VPC: a failure.
    AttachedElsewhere { gateway_id: String, vpc_id: String },
}

/// What `gateway_decision` answers on `gateways` for the VPC `vpc_id`.
pub open spec fn gateway_outcome(
    gateways: Seq<GatewayRecord>,
    vpc_id: Seq<char>,
    r: GatewayDecision,
) -> bool {
    match r {
        GatewayDecision::Create => gateways.len() == 0 || gateways[0].gateway_id is None,
        GatewayDecision::Reuse { gateway_id } => gateways.len() > 0
            && gateways[0].gateway_id is Some && gateway_id@
            == gateways[0].gateway_id.unwrap()@ && gateways[0].attachment_vpc_ids@.len() > 0
            && gateways[0].attachment_vpc_ids@[0] is Some
            && gateways[0].attachment_vpc_ids@[0].unwrap()@ == vpc_id,
        GatewayDecision::AttachedElsewhere { gateway_id, vpc_id: other } => gateways.len()
            > 0 && gateways[0].gateway_id is Some && gateway_id@
            == gateways[0].gateway_id.unwrap()@ && gateways[0].attachment_vpc_ids@.len() > 0
            && gateways[0].attachment_vpc_ids@[0] is Some && other@
            == gateways[0].attachment_vpc_ids@[0].unwrap()@ && other@ != vpc_id,
        GatewayDecision::AttachExisting { gateway_id } => gateways.len() > 0
            && gateways[0].gateway_id is Some && gateway_id@
            == gateways[0].gateway_id.unwrap()@ && (gateways[0].attachment_vpc_ids@.len()
            == 0 || gateways[0].attachment_vpc_ids@[0] is None),
    }
}

/// Decides about the internet gateway from the gateways found under the
/// cluster tag: only the first gateway, and its first attachment, count.
pub fn gateway_decision(gateways: &Vec<GatewayRecord>, vpc_id: &String) -> (r: GatewayDecision)
    ensures
        gateway_outcome(gateways@, vpc_id@, r),
{
    if gateways.len() == 0 {
        return GatewayDecision::Create;
    }
    let g = &gateways[0];
    match &g.gateway_id {
        None => GatewayDecision::Create,
        Some(id) => {
            if g.attachment_vpc_ids.len() > 0 {
                match &g.attachment_vpc_ids[0] {
                    Some(attached) => {
                        if *attached == *vpc_id {
                            return GatewayDecision::Reuse { gateway_id: id.clone() };
                        } else {
                            return GatewayDecision::AttachedElsewhere {
                                gateway_id: id.clone(),
                                vpc_id: attached.clone(),
                            };
                        }
                    },
                    None => {},
                }
            }
            GatewayDecision::AttachExisting { gateway_id: id.clone() }
        },
    }
}

/// How to remove the cluster's internet gateway.
pub struct GatewayCleanup {
    pub gateway_id: String,
    /// The VPC to detach it from first, if it is attached.
    pub detach_from: Option<String>,
}

/// Plans the removal of the internet gateway: the first gateway found,
/// detached from the VPC of its first attachment if it has one, then
/// deleted. Nothing is done when no gateway is found.
pub fn gateway_cleanup(gateways: &Vec<GatewayRecord>) -> (r: Option<GatewayCleanup>)
    ensures
        match r {
            None => gateways@.len() == 0 || gateways@[0].gateway_id is None,
            Some(c) => gateways@.len() > 0 && gateways@[0].gateway_id is Some && c.gateway_id@
                == gateways@[0].gateway_id.unwrap()@ && opt_view(c.detach_from) == (if gateways@[
                0].attachment_vpc_ids@.len() > 0 {
                opt_view(gateways@[0].attachment_vpc_ids@[0])
            } else {
                None
            }),
        },
{
    if gateways.len() == 0 {
        return None;
    }
    let g = &gateways[0];
    match &g.gateway_id {
        None => None,
        Some(id) => {
            let detach_from = if g.attachment_vpc_ids.len() > 0 {
                match &g.attachment_vpc_ids[0] {
                    Some(v) => Some(v.clone()),
                    None => None,
                }
            } else {
                None
            };
            Some(GatewayCleanup { gateway_id: id.clone(), detach_from })
        },
    }
}

/// A route of a route table.
pub struct RouteRecord {
    pub destination_cidr_block: Option<String>,
    pub gateway_id: Option<String>,
}

/// A subnet association of a route table.
pub struct RouteTableAssociationRecord {
    pub association_id: Option<String>,
    pub subnet_id: Option<String>,
    pub main: Option<bool>,
}

/// What the cluster logic reads of a route table.
pub struct RouteTableRecord {
    pub route_table_id: Option<String>,
    pub vpc_id: Option<String>,
    pub associations: Vec<RouteTableAssociationRecord>,
    pub routes: Vec<RouteRecord>,
}

/// What to do to have a route table that routes the cluster subnet to the
/// internet gateway.
pub enum RouteTableDecision {
    /// Keep the existing table; associate it with the subnet and add the
    /// default route where these are missing.
    Reuse { route_table_id: String, associate_subnet: bool, add_default_route: bool },
    /// The table found belongs to another VPC: a failure.
    WrongVpc { route_table_id: String, vpc_id: String },
    /// Create a table, associate it with the subnet and add the default
    /// route through the gateway.
    Create,
}

/// The table is associated with the subnet.
pub open spec fn associates_subnet(t: RouteTableRecord, subnet_id: Seq<char>) -> bool {
    exists|k: int|
        0 <= k < t.associations@.len() && (#[trigger] t.associations@[k]).subnet_id is Some
            && t.associations@[k].subnet_id.unwrap()@ == subnet_id
}

/// The table routes 0.0.0.0/0 through the gateway.
pub open spec fn has_default_route(t: RouteTableRecord, gateway_id: Seq<char>) -> bool {
    exists|k: int|
        0 <= k < t.routes@.len() && (#[trigger] t.routes@[k]).destination_cidr_block is Some
            && t.routes@[k].destination_cidr_block.unwrap()@ == "0.0.0.0/0"@
            && t.routes@[k].gateway_id is Some && t.routes@[k].gateway_id.unwrap()@ == gateway_id
}

fn table_associates_subnet(t: &RouteTableRecord, subnet_id: &String) -> (b: bool)
    ensures
        b == associates_subnet(*t, subnet_id@),
{
    let mut i: usize = 0;
    while i < t.associations.len()
        invariant
            i <= t.associations.len(),
            forall|k: int|
                0 <= k < i ==> !((#[trigger] t.associations@[k]).subnet_id is Some
                    && t.associations@[k].subnet_id.unwrap()@ == subnet_id@),
        decreases t.associations.len() - i,
    {
        match &t.associations[i].subnet_id {
            Some(s) => {
                if *s == *subnet_id {
                    return true;
                }
            },
            None => {},
        }
        i = i + 1;
    }
    false
}

fn table_has_default_route(t: &RouteTableRecord, gateway_id: &String) -> (b: bool)
    ensures
        b == has_default_route(*t, gateway_id@),
{
    let any = String::from_str("0.0.0.0/0");
    let mut i: usize = 0;
    while i < t.routes.len()
        invariant
            i <= t.routes.len(),
            any@ == "0.0.0.0/0"@,
            forall|k: int|
                0 <= k < i ==> !((#[trigger] t.routes@[k]).destination_cidr_block is Some
                    && t.routes@[k].destination_cidr_block.unwrap()@ == "0.0.0.0/0"@
                    && t.routes@[k].gateway_id is Some && t.routes@[k].gateway_id.unwrap()@
                    == gateway_id@),
        decreases t.routes.len() - i,
    {
        let r = &t.routes[i];
        match (&r.destination_cidr_block, &r.gateway_id) {
            (Some(d), Some(g)) => {
                if *d == any && *g == *gateway_id {
                    return true;
                }
            },
            _ => {},
        }
        i = i + 1;
    }
    false
}

/// What `route_table_decision` answers on `tables` for the cluster VPC, subnet
/// and gateway.
pub open spec fn route_table_outcome(
    tables: Seq<RouteTableRecord>,
    vpc_id: Seq<char>,
    subnet_id: Seq<char>,
    gateway_id: Seq<char>,
    r: RouteTableDecision,
) -> bool {
    match r {
        RouteTableDecision::Create => tables.len() == 0 || tables[0].route_table_id is None
            || tables[0].vpc_id is None,
        RouteTableDecision::Reuse { route_table_id, associate_subnet, add_default_route } => {
            &&& tables.len() > 0
            &&& tables[0].route_table_id is Some
            &&& route_table_id@ == tables[0].route_table_id.unwrap()@
            &&& tables[0].vpc_id is Some
            &&& tables[0].vpc_id.unwrap()@ == vpc_id
            &&& associate_subnet == !associates_subnet(tables[0], subnet_id)
            &&& add_default_route == !has_default_route(tables[0], gateway_id)
        },
        RouteTableDecision::WrongVpc { route_table_id, vpc_id: other } => {
            &&& tables.len() > 0
            &&& tables[0].route_table_id is Some
            &&& route_table_id@ == tables[0].route_table_id.unwrap()@
            &&& tables[0].vpc_id is Some
            &&& other@ == tables[0].vpc_id.unwrap()@
            &&& other@ != vpc_id
        },
    }
}

/// Decides about the cluster route table from the tables found under the
/// cluster tag: the first table is kept if it lies in the cluster VPC, is
/// an error if it lies in another VPC, and a table without a VPC or no table
/// at all leads to creating one.
pub fn route_table_decision(
    tables: &Vec<RouteTableRecord>,
    vpc_id: &String,
    subnet_id: &String,
    gateway_id: &String,
) -> (r: RouteTableDecision)
    ensures
        route_table_outcome(tables@, vpc_id@, subnet_id@, gateway_id@, r),
{
    if tables.len() == 0 {
        return RouteTableDecision::Create;
    }
    let t = &tables[0];
    match (&t.route_table_id, &t.vpc_id) {
        (Some(id), Some(v)) => {
            if *v == *vpc_id {
                RouteTableDecision::Reuse {
                    route_table_id: id.clone(),
                    associate_subnet: !table_associates_subnet(t, subnet_id),
                    add_default_route: !table_has_default_route(t, gateway_id),
                }
            } else {
                RouteTableDecision::WrongVpc { route_table_id: id.clone(), vpc_id: v.clone() }
            }
        },
        _ => RouteTableDecision::Create,
    }
}

/// How to remove the cluster route table.
pub struct RouteTableCleanup {
    pub route_table_id: String,
    /// The associations to remove first.
    pub disassociate: Vec<String>,
}

/// The association ids of the non-main associations, in order.
pub open spec fn removable_associations(a: Seq<RouteTableAssociationRecord>) -> Seq<Seq<char>>
    decreases a.len(),
{
    if a.len() == 0 {
        Seq::empty()
    } else {
        let before = removable_associations(a.drop_last());
        let x = a.last();
        if x.main != Some(true) && x.association_id is Some {
            before.push(x.association_id.unwrap()@)
        } else {
            before
        }
    }
}

/// Plans the removal of the route table: the first table found, after
/// removing its associations (main associations cannot be removed and are
/// skipped). Nothing is done when no table is found.
pub fn route_table_cleanup(tables: &Vec<RouteTableRecord>) -> (r: Option<RouteTableCleanup>)
    ensures
        match r {
            None => tables@.len() == 0 || tables@[0].route_table_id is None,
            Some(c) => tables@.len() > 0 && tables@[0].route_table_id is Some && c.route_table_id@
                == tables@[0].route_table_id.unwrap()@ && views(c.disassociate@)
                == removable_associations(tables@[0].associations@),
        },
{
    if tables.len() == 0 {
        return None;
    }
    let t = &tables[0];
    match &t.route_table_id {
        None => None,
        Some(id) => {
            let mut out: Vec<String> = Vec::new();
            let mut i: usize = 0;
            while i < t.associations.len()
                invariant
                    i <= t.associations.len(),
                    views(out@) == removable_associations(t.associations@.take(i as int)),
                decreases t.associations.len() - i,
            {
                assert(t.associations@.take(i + 1).drop_last() =~= t.associations@.take(i as int));
                let a = &t.associations[i];
                let is_main = match a.main {
                    Some(m) => m,
                    None => false,
                };
                if !is_main {
                    match &a.association_id {
                        Some(x) => {
                            out.push(x.clone());
                            assert(views(out@) =~= views(out@.drop_last()).push(x@));
                        },
                        None => {},
                    }
                }
                i = i + 1;
            }
            assert(t.associations@.take(t.associations.len() as int) =~= t.associations@);
            Some(RouteTableCleanup { route_table_id: id.clone(), disassociate: out })
        },
    }
}

/// What the cluster logic reads of a security group.
pub struct SecurityGroupRecord {
    pub group_id: Option<String>,
    pub vpc_id: Option<String>,
}

/// The ids of the groups that lie in the VPC, in order.
pub open spec fn groups_in_vpc(g: Seq<SecurityGroupRecord>, vpc_id: Seq<char>) -> Seq<Seq<char>>
    decreases g.len(),
{
    if g.len() == 0 {
        Seq::empty()
    } else {
        let before = groups_in_vpc(g.drop_last(), vpc_id);
        let x = g.last();
        if x.group_id is Some && x.vpc_id is Some && x.vpc_id.unwrap()@ == vpc_id {
            before.push(x.group_id.unwrap()@)
        } else {
            before
        }
    }
}

/// The existing security groups of the cluster that lie in its VPC; when
/// there are none, a group is created.
pub fn security_groups_in_vpc(groups: &Vec<SecurityGroupRecord>, vpc_id: &String) -> (r: Vec<String>)
    ensures
        views(r@) == groups_in_vpc(groups@, vpc_id@),
{
    let mut out: Vec<String> = Vec::new();
    let mut i: usize = 0;
    while i < groups.len()
        invariant
            i <= groups.len(),
            views(out@) == groups_in_vpc(groups@.take(i as int), vpc_id@),
        decreases groups.len() - i,
    {
        assert(groups@.take(i + 1).drop_last() =~= groups@.take(i as int));
        let g = &groups[i];
        match (&g.group_id, &g.vpc_id) {
            (Some(id), Some(v)) => {
                if *v == *vpc_id {
                    out.push(id.clone());
                    assert(views(out@) =~= views(out@.drop_last()).push(id@));
                }
            },
            _ => {},
        }
        i = i + 1;
    }
    assert(groups@.take(groups.len() as int) =~= groups@);
    out
}

/// The ids present in a list of optional ids, in order.
pub open spec fn present_ids(ids: Seq<Option<String>>) -> Seq<Seq<char>>
    decreases ids.len(),
{
    if ids.len() == 0 {
        Seq::empty()
    } else {
        let before = present_ids(ids.drop_last());
        match ids.last() {
            Some(id) => before.push(id@),
            None => before,
        }
    }
}

/// The ids among the resources found (for instance, every security group
/// of the cluster to delete).
pub fn present_resource_ids(ids: &Vec<Option<String>>) -> (r: Vec<String>)
    ensures
        views(r@) == present_ids(ids@),
{
    let mut out: Vec<String> = Vec::new();
    let mut i: usize = 0;
    while i < ids.len()
        invariant
            i <= ids.len(),
            views(out@) == present_ids(ids@.take(i as int)),
        decreases ids.len() - i,
    {
        assert(ids@.take(i + 1).drop_last() =~= ids@.take(i as int));
        match &ids[i] {
            Some(id) => {
                out.push(id.clone());
                assert(views(out@) =~= views(out@.drop_last()).push(id@));
            },
            None => {},
        }
        i = i + 1;
    }
    assert(ids@.take(ids.len() as int) =~= ids@);
    out
}

/// Where the traffic allowed by an ingress rule may come from.
#[derive(Debug, Clone, Copy, PartialEq, Eq, Structural)]
pub enum IngressSource {
    /// Members of the same security group.
    SameGroup,
    /// Any IPv4 address.
    Anywhere,
}

/// An ingress rule of the cluster security group.
pub struct IngressRule {
    pub protocol: String,
    pub from_port: i32,
    pub to_port: i32,
    pub source: IngressSource,
}

/// The rules added to a newly created cluster security group: all traffic
/// between members of the group, and SSH (TCP port 22) from anywhere.
pub fn cluster_ingress_rules() -> (r: Vec<IngressRule>)
    ensures
        r@.len() == 2,
        r@[0].protocol@ == "-1"@ && r@[0].from_port == 0 && r@[0].to_port == 0 && r@[0].source
            == IngressSource::SameGroup,
        r@[1].protocol@ == "tcp"@ && r@[1].from_port == 22 && r@[1].to_port == 22 && r@[1].source
            == IngressSource::Anywhere,
{
    let mut r: Vec<IngressRule> = Vec::new();
    r.push(
        IngressRule {
            protocol: String::from_str("-1"),
            from_port: 0,
            to_port: 0,
            source: IngressSource::SameGroup,
        },
    );
    r.push(
        IngressRule {
            protocol: String::from_str("tcp"),
            from_port: 22,
            to_port: 22,
            source: IngressSource::Anywhere,
        },
    );
    r
}

/// An attachment of a network interface to an instance.
pub struct AttachmentRecord {
    pub attachment_id: Option<String>,
    pub instance_id: Option<String>,
}

/// What the cluster logic reads of a network interface.
pub struct NetworkInterfaceRecord {
    pub network_interface_id: Option<String>,
    pub subnet_id: Option<String>,
    pub status: Option<String>,
    pub attachment: Option<AttachmentRecord>,
}

/// The request that creates a node's network interface.
pub struct NetworkInterfacePlan {
    pub name: String,
    pub subnet_id: String,
    pub security_group_ids: Vec<String>,
    pub private_ip: String,
    /// Created as an Elastic Fabric Adapter.
    pub efa: bool,
}

/// Plans the network interface of node `node_index`: named after the node,
/// in the cluster subnet and security groups, at the node's private
/// address, as an EFA device when the cluster uses fabric adapters.
pub fn plan_network_interface(context: &AwsClusterContext, node_index: usize) -> (p:
    NetworkInterfacePlan)
    requires
        context.subnet_id is Some,
        node_index + 10 <= usize::MAX,
    ensures
        p.name@ == node_resource_name(context.cluster_id@, "-ENI-"@, node_index as nat),
        p.subnet_id@ == context.subnet_id.unwrap()@,
        views(p.security_group_ids@) == views(context.security_group_ids@),
        p.private_ip@ == node_private_ip(node_index as nat),
        p.efa == context.use_elastic_fabric_adapters,
{
    let groups = context.security_group_ids.clone();
    assert(views(groups@) =~= views(context.security_group_ids@)) by {
        assert forall|i: int| 0 <= i < groups@.len() implies groups@[i]@
            == context.security_group_ids@[i]@ by {
            assert(cloned::<String>(context.security_group_ids@[i], groups@[i]));
        }
    }
    let subnet = match &context.subnet_id {
        Some(s) => s.clone(),
        None => String::new(),
    };
    NetworkInterfacePlan {
        name: context.network_interface_name(node_index),
        subnet_id: subnet,
        security_group_ids: groups,
        private_ip: context.network_interface_private_ip(node_index),
        efa: context.use_elastic_fabric_adapters,
    }
}

/// What to do about a network interface found under a node's name, where
/// the interface must lie in the cluster subnet.
pub enum NetworkInterfaceDecision {
    /// Keep it.
    Reuse { network_interface_id: String },
    /// Create one.
    Create,
    /// It lies in another subnet: a failure.
    WrongSubnet { network_interface_id: String, subnet_id: String },
    /// The cluster has no security group yet: a failure.
    NoSecurityGroups,
}

/// What `network_interface_decision` answers on `interfaces` for the cluster
/// subnet and number of security groups.
pub open spec fn network_interface_outcome(
    interfaces: Seq<NetworkInterfaceRecord>,
    subnet_id: Seq<char>,
    security_group_count: nat,
    r: NetworkInterfaceDecision,
) -> bool {
    match r {
        NetworkInterfaceDecision::NoSecurityGroups => security_group_count == 0,
        NetworkInterfaceDecision::Create => security_group_count > 0 && (interfaces.len()
            == 0 || interfaces[0].network_interface_id is None
            || interfaces[0].subnet_id is None),
        NetworkInterfaceDecision::Reuse { network_interface_id } => security_group_count > 0
            && interfaces.len() > 0 && interfaces[0].network_interface_id is Some
            && network_interface_id@ == interfaces[0].network_interface_id.unwrap()@
            && interfaces[0].subnet_id is Some && interfaces[0].subnet_id.unwrap()@
            == subnet_id,
        NetworkInterfaceDecision::WrongSubnet { network_interface_id, subnet_id: other } =>
            security_group_count > 0 && interfaces.len() > 0
            && interfaces[0].network_interface_id is Some && network_interface_id@
            == interfaces[0].network_interface_id.unwrap()@ && interfaces[0].subnet_id is Some
            && other@ == interfaces[0].subnet_id.unwrap()@ && other@ != subnet_id,
    }
}

/// Decides about a node's network interface in the variant that checks the
/// subnet: the cluster must have security groups; the first interface found
/// is kept if it lies in the cluster subnet and is an error if it lies in
/// another; otherwise one is created.
pub fn network_interface_decision(
    interfaces: &Vec<NetworkInterfaceRecord>,
    subnet_id: &String,
    security_group_count: usize,
) -> (r: NetworkInterfaceDecision)
    ensures
        network_interface_outcome(interfaces@, subnet_id@, security_group_count as nat, r),
{
    if security_group_count == 0 {
        return NetworkInterfaceDecision::NoSecurityGroups;
    }
    if interfaces.len() == 0 {
        return NetworkInterfaceDecision::Create;
    }
    match (&interfaces[0].network_interface_id, &interfaces[0].subnet_id) {
        (Some(id), Some(s)) => {
            if *s == *subnet_id {
                NetworkInterfaceDecision::Reuse { network_interface_id: id.clone() }
            } else {
                NetworkInterfaceDecision::WrongSubnet {
                    network_interface_id: id.clone(),
                    subnet_id: s.clone(),
                }
            }
        },
        _ => NetworkInterfaceDecision::Create,
    }
}

/// How to remove a node's network interface.
pub struct NetworkInterfaceCleanup {
    pub network_interface_id: String,
    /// The attachment to force-detach first, when the interface is attached
    /// to an instance.
    pub detach: Option<String>,
}

/// Plans the removal of a node's network interface: the first interface
/// found; if it is attached to an instance (and the attachment has an id) it
/// is detached first.
pub fn network_interface_cleanup(interfaces: &Vec<NetworkInterfaceRecord>) -> (r: Option<
    NetworkInterfaceCleanup,
>)
    ensures
        match r {
            None => interfaces@.len() == 0 || interfaces@[0].network_interface_id is None,
            Some(c) => {
                &&& interfaces@.len() > 0
                &&& interfaces@[0].network_interface_id is Some
                &&& c.network_interface_id@ == interfaces@[0].network_interface_id.unwrap()@
                &&& opt_view(c.detach) == match interfaces@[0].attachment {
                    Some(a) => if a.instance_id is Some {
                        opt_view(a.attachment_id)
                    } else {
                        None
                    },
                    None => None,
                }
            },
        },
{
    if interfaces.len() == 0 {
        return None;
    }
    let e = &interfaces[0];
    match &e.network_interface_id {
        None => None,
        Some(id) => {
            let detach = match &e.attachment {
                Some(a) => match (&a.instance_id, &a.attachment_id) {
                    (Some(_), Some(att)) => Some(att.clone()),
                    _ => None,
                },
                None => None,
            };
            Some(NetworkInterfaceCleanup { network_interface_id: id.clone(), detach })
        },
    }
}

/// Some interface among those found is not (known to be) available, that
/// is, is still held by an instance.
pub open spec fn any_held(interfaces: Seq<NetworkInterfaceRecord>) -> bool {
    exists|k: int|
        0 <= k < interfaces.len() && !((#[trigger] interfaces[k]).status is Some
            && interfaces[k].status.unwrap()@ == "available"@)
}

/// Whether a private address is still held: some interface with that
/// address is not in the "available" state.
pub fn address_still_held(interfaces: &Vec<NetworkInterfaceRecord>) -> (b: bool)
    ensures
        b == any_held(interfaces@),
{
    let available = String::from_str("available");
    let mut i: usize = 0;
    while i < interfaces.len()
        invariant
            i <= interfaces.len(),
            available@ == "available"@,
            forall|k: int|
                0 <= k < i ==> (#[trigger] interfaces@[k]).status is Some
                    && interfaces@[k].status.unwrap()@ == "available"@,
        decreases interfaces.len() - i,
    {
        match &interfaces[i].status {
            Some(s) => {
                if *s != available {
                    return true;
                }
            },
            None => {
                return true;
            },
        }
        i = i + 1;
    }
    false
}

/// The next step of a wait for a network interface to reach a status.
pub enum InterfaceStatusStep {
    /// The interface reached the status.
    Reached,
    /// Not yet: wait and poll again.
    Retry,
    /// The interface has disappeared: a failure.
    NotFound,
    /// The attempts ran out: a failure.
    TimedOut,
}

/// Attempts made by the wait for a network interface status.
pub const INTERFACE_STATUS_ATTEMPTS: u32 = 10;

/// Seconds between two attempts of the wait for a network interface status.
pub const INTERFACE_STATUS_POLL_SECS: u64 = 6;

/// Decides after attempt `attempt` (counting from 1) of the wait for a
/// network interface to reach `desired`.
pub fn interface_status_step(
    interfaces: &Vec<NetworkInterfaceRecord>,
    desired: &String,
    attempt: u32,
) -> (r: InterfaceStatusStep)
    ensures
        interfaces@.len() == 0 ==> r is NotFound,
        interfaces@.len() > 0 && interfaces@[0].status is Some && interfaces@[0].status.unwrap()@
            == desired@ ==> r is Reached,
        interfaces@.len() > 0 && !(interfaces@[0].status is Some
            && interfaces@[0].status.unwrap()@ == desired@) ==> (if attempt
            < INTERFACE_STATUS_ATTEMPTS {
            r is Retry
        } else {
            r is TimedOut
        }),
{
    if interfaces.len() == 0 {
        return InterfaceStatusStep::NotFound;
    }
    match &interfaces[0].status {
        Some(s) => {
            if *s == *desired {
                return InterfaceStatusStep::Reached;
            }
        },
        None => {},
    }
    if attempt < INTERFACE_STATUS_ATTEMPTS {
        InterfaceStatusStep::Retry
    } else {
        InterfaceStatusStep::TimedOut
    }
}

/// What the cluster logic reads of an Elastic IP address.
pub struct AddressRecord {
    pub allocation_id: Option<String>,
    pub association_id: Option<String>,
    pub public_ip: Option<String>,
    pub network_interface_id: Option<String>,
}

/// The first allocation id among the addresses.
pub open spec fn first_allocation(a: Seq<AddressRecord>) -> Option<Seq<char>>
    decreases a.len(),
{
    if a.len() == 0 {
        None
    } else if a[0].allocation_id is Some {
        Some(a[0].allocation_id.unwrap()@)
    } else {
        first_allocation(a.drop_first())
    }
}

/// The allocation of the Elastic IP found under a node's name: the first
/// address that has an allocation id. The same address is reused when the
/// IP is ensured and released when it is cleaned up.
pub fn address_allocation(addresses: &Vec<AddressRecord>) -> (r: Option<String>)
    ensures
        opt_view(r) == first_allocation(addresses@),
{
    let mut i: usize = 0;
    assert(addresses@.skip(0) =~= addresses@);
    while i < addresses.len()
        invariant
            i <= addresses.len(),
            first_allocation(addresses@) == first_allocation(addresses@.skip(i as int)),
        decreases addresses.len() - i,
    {
        let ghost rest = addresses@.skip(i as int);
        assert(rest.drop_first() =~= addresses@.skip(i + 1));
        assert(rest[0] == addresses@[i as int]);
        match &addresses[i].allocation_id {
            Some(id) => {
                return Some(id.clone());
            },
            None => {},
        }
        i = i + 1;
    }
    None
}

/// The association ids of the addresses, in order: each is disassociated
/// before the address is released.
pub fn address_associations(addresses: &Vec<AddressRecord>) -> (r: Vec<String>)
    ensures
        views(r@) == present_ids(addresses@.map_values(|a: AddressRecord| a.association_id)),
{
    let ghost assoc = addresses@.map_values(|a: AddressRecord| a.association_id);
    let mut out: Vec<String> = Vec::new();
    let mut i: usize = 0;
    while i < addresses.len()
        invariant
            i <= addresses.len(),
            assoc == addresses@.map_values(|a: AddressRecord| a.association_id),
            views(out@) == present_ids(assoc.take(i as int)),
        decreases addresses.len() - i,
    {
        assert(assoc.take(i + 1).drop_last() =~= assoc.take(i as int));
        assert(assoc.take(i + 1).last() == addresses@[i as int].association_id);
        match &addresses[i].association_id {
            Some(id) => {
                out.push(id.clone());
                assert(views(out@) =~= views(out@.drop_last()).push(id@));
            },
            None => {},
        }
        i = i + 1;
    }
    assert(assoc.take(addresses.len() as int) =~= assoc);
    out
}

/// The outcome of scanning the description of an Elastic IP for an
/// association with a network interface: whether one was found, and the
/// last public address seen up to that point.
pub open spec fn association_scan(
    a: Seq<AddressRecord>,
    eni: Seq<char>,
    public_ip: Option<Seq<char>>,
) -> (bool, Option<Seq<char>>)
    decreases a.len(),
{
    if a.len() == 0 {
        (false, public_ip)
    } else {
        let ip = if a[0].public_ip is Some {
            Some(a[0].public_ip.unwrap()@)
        } else {
            public_ip
        };
        if a[0].network_interface_id is Some && a[0].network_interface_id.unwrap()@ == eni {
            (true, ip)
        } else {
            association_scan(a.drop_first(), eni, ip)
        }
    }
}

/// What to do to associate an Elastic IP with a network interface.
pub enum AssociationDecision {
    /// Already associated; this is the public address.
    AlreadyAssociated { public_ip: String },
    /// Associate it; this is the public address it will give.
    Associate { public_ip: String },
    /// The description carries no public address: a failure.
    MissingPublicIp,
}

/// What `association_decision` answers on the description `addresses` for
/// the network interface `eni`.
pub open spec fn association_outcome(
    addresses: Seq<AddressRecord>,
    eni: Seq<char>,
    r: AssociationDecision,
) -> bool {
    let (found, ip) = association_scan(addresses, eni, None);
    match r {
        AssociationDecision::AlreadyAssociated { public_ip } => found && ip == Some(public_ip@),
        AssociationDecision::Associate { public_ip } => !found && ip == Some(public_ip@),
        AssociationDecision::MissingPublicIp => !found && ip is None,
    }
}

/// Decides, from the description of an Elastic IP, whether it is already
/// associated with the network interface `eni` and which public address it
/// gives (the last one seen in the description).
pub fn association_decision(addresses: &Vec<AddressRecord>, eni: &String) -> (r:
    AssociationDecision)
    requires
        !(association_scan(addresses@, eni@, None).0 && association_scan(
            addresses@,
            eni@,
            None,
        ).1 is None),
    ensures
        association_outcome(addresses@, eni@, r),
{
    let mut public_ip: Option<String> = None;
    let mut i: usize = 0;
    assert(addresses@.skip(0) =~= addresses@);
    while i < addresses.len()
        invariant
            i <= addresses.len(),
            !(association_scan(addresses@, eni@, None).0 && association_scan(
                addresses@,
                eni@,
                None,
            ).1 is None),
            association_scan(addresses@, eni@, None) == association_scan(
                addresses@.skip(i as int),
                eni@,
                opt_view(public_ip),
            ),
        decreases addresses.len() - i,
    {
        let ghost rest = addresses@.skip(i as int);
        assert(rest.drop_first() =~= addresses@.skip(i + 1));
        assert(rest[0] == addresses@[i as int]);
        let a = &addresses[i];
        match &a.public_ip {
            Some(ip) => {
                public_ip = Some(ip.clone());
            },
            None => {},
        }
        match &a.network_interface_id {
            Some(x) => {
                if *x == *eni {
                    match public_ip {
                        Some(ip) => {
                            return AssociationDecision::AlreadyAssociated { public_ip: ip };
                        },
                        None => {
                            return AssociationDecision::MissingPublicIp;
                        },
                    }
                }
            },
            None => {},
        }
        i = i + 1;
    }
    match public_ip {
        Some(ip) => AssociationDecision::Associate { public_ip: ip },
        None => AssociationDecision::MissingPublicIp,
    }
}

/// Whether the description of an Elastic IP can be decided on: it is not
/// associated with `eni` before any public address shows up in it (a
/// description that is would leave the association without an address).
pub fn association_defined(addresses: &Vec<AddressRecord>, eni: &String) -> (b: bool)
    ensures
        b == !(association_scan(addresses@, eni@, None).0 && association_scan(
            addresses@,
            eni@,
            None,
        ).1 is None),
{
    let mut seen_ip = false;
    let mut i: usize = 0;
    assert(addresses@.skip(0) =~= addresses@);
    while i < addresses.len()
        invariant
            i <= addresses.len(),
            association_scan(addresses@, eni@, None) == association_scan(
                addresses@.skip(i as int),
                eni@,
                if seen_ip { association_scan_ip(addresses@, i as int) } else { None },
            ),
            seen_ip ==> association_scan_ip(addresses@, i as int) is Some,
        decreases addresses.len() - i,
    {
        let ghost rest = addresses@.skip(i as int);
        assert(rest.drop_first() =~= addresses@.skip(i + 1));
        assert(rest[0] == addresses@[i as int]);
        if addresses[i].public_ip.is_some() {
            seen_ip = true;
        }
        match &addresses[i].network_interface_id {
            Some(x) => {
                if *x == *eni {
                    return seen_ip;
                }
            },
            None => {},
        }
        i = i + 1;
    }
    true
}

/// The last public address among the first `n` records, if any.
pub open spec fn association_scan_ip(a: Seq<AddressRecord>, n: int) -> Option<Seq<char>>
    decreases n,
{
    if n <= 0 {
        None
    } else if a[n - 1].public_ip is Some {
        Some(a[n - 1].public_ip.unwrap()@)
    } else {
        association_scan_ip(a, n - 1)
    }
}

/// The route table is the one an earlier run left in place: it has an id,
/// lies in the cluster VPC, is associated with the cluster subnet and routes
/// 0.0.0.0/0 through the cluster gateway.
pub open spec fn route_table_set_up(
    t: RouteTableRecord,
    vpc_id: Seq<char>,
    subnet_id: Seq<char>,
    gateway_id: Seq<char>,
) -> bool {
    &&& t.route_table_id is Some
    &&& t.vpc_id is Some
    &&& t.vpc_id.unwrap()@ == vpc_id
    &&& associates_subnet(t, subnet_id)
    &&& has_default_route(t, gateway_id)
}

/// Running the route-table step again, when the first table found under the
/// cluster tag is the one an earlier run set up, keeps that table and asks
/// for no association and no route: nothing is created or changed.
pub proof fn lemma_route_table_rerun_reuses(
    tables: Seq<RouteTableRecord>,
    vpc_id: Seq<char>,
    subnet_id: Seq<char>,
    gateway_id: Seq<char>,
    r: RouteTableDecision,
)
    requires
        tables.len() > 0,
        route_table_set_up(tables[0], vpc_id, subnet_id, gateway_id),
        route_table_outcome(tables, vpc_id, subnet_id, gateway_id, r),
    ensures
        r matches RouteTableDecision::Reuse { route_table_id, associate_subnet, add_default_route }
            && route_table_id@ == tables[0].route_table_id.unwrap()@ && !associate_subnet
            && !add_default_route,
{
}

/// Running the gateway step again, when the first gateway found under the
/// cluster tag has an id and its first attachment is to the cluster VPC,
/// keeps that gateway: nothing is created or attached.
pub proof fn lemma_gateway_rerun_reuses(
    gateways: Seq<GatewayRecord>,
    vpc_id: Seq<char>,
    r: GatewayDecision,
)
    requires
        gateways.len() > 0,
        gateways[0].gateway_id is Some,
        gateways[0].attachment_vpc_ids@.len() > 0,
        gateways[0].attachment_vpc_ids@[0] is Some,
        gateways[0].attachment_vpc_ids@[0].unwrap()@ == vpc_id,
        gateway_outcome(gateways, vpc_id, r),
    ensures
        r matches GatewayDecision::Reuse { gateway_id } && gateway_id@
            == gateways[0].gateway_id.unwrap()@,
{
}

/// Running a node's network-interface step again, when the cluster has
/// security groups and the first interface found under the node's name has
/// an id and lies in the cluster subnet, keeps that interface.
pub proof fn lemma_network_interface_rerun_reuses(
    interfaces: Seq<NetworkInterfaceRecord>,
    subnet_id: Seq<char>,
    security_group_count: nat,
    r: NetworkInterfaceDecision,
)
    requires
        security_group_count > 0,
        interfaces.len() > 0,
        interfaces[0].network_interface_id is Some,
        interfaces[0].subnet_id is Some,
        interfaces[0].subnet_id.unwrap()@ == subnet_id,
        network_interface_outcome(interfaces, subnet_id, security_group_count, r),
    ensures
        r matches NetworkInterfaceDecision::Reuse { network_interface_id } && network_interface_id@
            == interfaces[0].network_interface_id.unwrap()@,
{
}

/// Running the association step again, when the description of the Elastic
/// IP shows it associated with the interface, associates nothing and gives
/// back the public address of that association.
pub proof fn lemma_association_rerun_keeps(
    addresses: Seq<AddressRecord>,
    eni: Seq<char>,
    r: AssociationDecision,
)
    requires
        association_scan(addresses, eni, None).0,
        association_outcome(addresses, eni, r),
    ensures
        r matches AssociationDecision::AlreadyAssociated { public_ip } && association_scan(
            addresses,
            eni,
            None,
        ).1 == Some(public_ip@),
{
}

} // verus!
