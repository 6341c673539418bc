use hpcac::aws::context::AwsClusterContext;
use hpcac::aws::efs::{
    efs_device_decision, efs_dns_name, efs_performance_mode, efs_throughput_mode, efs_wait_step,
    mount_target_in_subnet, mount_targets_deleted, plan_efs_device, plan_mount_target,
    EfsDeviceDecision, EfsLifeCycle, EfsPerformanceMode, EfsThroughputMode, EfsWaitStep,
    FileSystemRecord, MountTargetRecord,
};
use hpcac::aws::instances::{
    availability_progress, existing_instance, failed_instance_ips, first_instances,
    flatten_reservations, instances_not_yet_terminated, instances_to_terminate, live_instance_id,
    termination_progress, AvailabilityProgress, ExistingInstance, InstanceRecord, InstanceState,
    InstanceStatusRecord, TerminationProgress,
};
use hpcac::aws::network::{
    address_allocation, address_associations, address_still_held, association_decision, association_defined,
    cluster_ingress_rules, first_resource_id, gateway_cleanup, gateway_decision,
    interface_status_step, network_interface_cleanup, network_interface_decision,
    plan_network_interface, present_resource_ids, route_table_cleanup, route_table_decision,
    security_groups_in_vpc, AddressRecord, AssociationDecision, AttachmentRecord, GatewayDecision,
    GatewayRecord, IngressSource, InterfaceStatusStep, NetworkInterfaceDecision,
    NetworkInterfaceRecord, RouteRecord, RouteTableAssociationRecord, RouteTableDecision,
    RouteTableRecord, SecurityGroupRecord,
};
use hpcac::cluster::{Cluster, ClusterState};

fn s(x: &str) -> String {
    x.to_string()
}

fn cluster(id: &str) -> Cluster {
    Cluster {
        id: s(id),
        display_name: s("demo"),
        provider_id: s("aws"),
        region: s("us-east-1"),
        availability_zone: s("us-east-1a"),
        use_node_affinity: true,
        use_elastic_fabric_adapters: false,
        use_elastic_file_system: true,
        efs_performance_mode: s("max_io"),
        efs_throughput_mode: s("elastic"),
        public_ssh_key_path: s("~/.ssh/id_rsa.pub"),
        private_ssh_key_path: s("~/.ssh/id_rsa"),
        state: ClusterState::Pending,
    }
}

fn inst(id: Option<&str>, state: Option<InstanceState>, ip: Option<&str>, ty: Option<&str>) -> InstanceRecord {
    InstanceRecord { instance_id: id.map(s), state, private_ip: ip.map(s), instance_type: ty.map(s) }
}

#[test]
fn context_names_and_tag() {
    let c = AwsClusterContext::new(&cluster("abc123"));
    assert_eq!(c.vpc_name, "abc123-VPC");
    assert_eq!(c.subnet_name, "abc123-SUBNET");
    assert_eq!(c.gateway_name, "abc123-IGW");
    assert_eq!(c.route_table_name, "abc123-RT");
    assert_eq!(c.security_group_name, "abc123-SG");
    assert_eq!(c.placement_group_name, "abc123-PG");
    assert_eq!(c.ssh_key_name, "abc123-KEY");
    assert_eq!(c.efs_device_name, "abc123-EFS");
    assert_eq!(c.cluster_id_tag.key, "ClusterId");
    assert_eq!(c.cluster_id_tag.value, "abc123");
    assert_eq!(c.cluster_id_filter.name, "tag:ClusterId");
    assert_eq!(c.cluster_id_filter.values, vec![s("abc123")]);
    assert_eq!(c.vpc_cidr_block, "10.0.0.0/16");
    assert_eq!(c.subnet_cidr_block, "10.0.0.0/24");
    assert!(c.vpc_id.is_none());
    assert!(c.ec2_instance_ids.is_empty());
}

#[test]
fn node_resource_names_are_distinct() {
    let c = AwsClusterContext::new(&cluster("abc"));
    assert_eq!(c.ec2_instance_name(0), "abc-EC2-INSTANCE-0");
    assert_eq!(c.ec2_instance_name(12), "abc-EC2-INSTANCE-12");
    assert_eq!(c.network_interface_name(3), "abc-ENI-3");
    assert_eq!(c.elastic_ip_name(1), "abc-EIP-1");
    assert_eq!(c.network_interface_private_ip(0), "10.0.0.10");
    assert_eq!(c.network_interface_private_ip(5), "10.0.0.15");
    assert_ne!(c.ec2_instance_name(1), c.ec2_instance_name(11));
    assert_ne!(c.network_interface_private_ip(1), c.network_interface_private_ip(11));
}

#[test]
fn creation_tags_and_name_filter() {
    let c = AwsClusterContext::new(&cluster("abc"));
    let tags = c.creation_tags("abc-VPC");
    assert_eq!(tags.len(), 2);
    assert_eq!((tags[0].key.as_str(), tags[0].value.as_str()), ("Name", "abc-VPC"));
    assert_eq!((tags[1].key.as_str(), tags[1].value.as_str()), ("ClusterId", "abc"));
    let f = AwsClusterContext::name_filter("abc-ENI-0");
    assert_eq!(f.name, "tag:Name");
    assert_eq!(f.values, vec![s("abc-ENI-0")]);
}

#[test]
fn head_public_ip_from_recorded_addresses() {
    let mut c = AwsClusterContext::new(&cluster("abc"));
    assert_eq!(c.head_public_ip(), "");
    c.elastic_ips.insert(0, s("3.3.3.3"));
    c.elastic_ips.insert(1, s("4.4.4.4"));
    assert_eq!(c.head_public_ip(), "3.3.3.3");
}

#[test]
fn recorded_node_addresses() {
    let mut c = AwsClusterContext::new(&cluster("abc"));
    let head = c.recorded_addresses(0);
    assert_eq!((head.private_ip.as_str(), head.public_ip.as_str()), ("10.0.0.10", ""));
    c.elastic_ips.insert(0, s("3.3.3.3"));
    let head = c.recorded_addresses(0);
    assert_eq!((head.private_ip.as_str(), head.public_ip.as_str()), ("10.0.0.10", "3.3.3.3"));
    let worker = c.recorded_addresses(4);
    assert_eq!((worker.private_ip.as_str(), worker.public_ip.as_str()), ("10.0.0.14", ""));
}

#[test]
fn reservations_flatten_and_firsts() {
    let a = inst(Some("i-1"), Some(InstanceState::Running), None, None);
    let b = inst(Some("i-2"), Some(InstanceState::Pending), None, None);
    let c = inst(Some("i-3"), Some(InstanceState::Stopped), None, None);
    let all = flatten_reservations(vec![vec![a.clone_rec(), b.clone_rec()], vec![], vec![c.clone_rec()]]);
    let ids: Vec<String> = all.iter().map(|r| r.instance_id.clone().unwrap()).collect();
    assert_eq!(ids, vec![s("i-1"), s("i-2"), s("i-3")]);
    let firsts = first_instances(vec![vec![a.clone_rec(), b.clone_rec()], vec![], vec![c.clone_rec()]]);
    let ids: Vec<String> = firsts.iter().map(|r| r.instance_id.clone().unwrap()).collect();
    assert_eq!(ids, vec![s("i-1"), s("i-3")]);
}

trait CloneRec {
    fn clone_rec(&self) -> InstanceRecord;
}

impl CloneRec for InstanceRecord {
    fn clone_rec(&self) -> InstanceRecord {
        InstanceRecord {
            instance_id: self.instance_id.clone(),
            state: self.state,
            private_ip: self.private_ip.clone(),
            instance_type: self.instance_type.clone(),
        }
    }
}

#[test]
fn termination_targets() {
    let v = vec![
        inst(Some("i-1"), Some(InstanceState::Running), None, None),
        inst(Some("i-2"), Some(InstanceState::Terminated), None, None),
        inst(Some("i-3"), Some(InstanceState::Stopping), None, None),
        inst(Some("i-4"), Some(InstanceState::ShuttingDown), None, None),
        inst(None, Some(InstanceState::Running), None, None),
    ];
    assert_eq!(instances_to_terminate(&v), vec![s("i-1"), s("i-3")]);
    assert_eq!(instances_not_yet_terminated(&v), vec![s("i-1"), s("i-3"), s("i-4")]);
}

#[test]
fn existing_instance_is_reused_or_conflicts() {
    let preferred = s("c5.large");
    let v = vec![
        inst(Some("i-0"), Some(InstanceState::Terminated), None, Some("m5.large")),
        inst(Some("i-1"), Some(InstanceState::Running), None, None),
    ];
    match existing_instance(&v, &preferred) {
        ExistingInstance::Reuse { instance_id, instance_type } => {
            assert_eq!(instance_id, "i-1");
            assert_eq!(instance_type, "c5.large");
        }
        _ => panic!("expected reuse"),
    }
    let v = vec![inst(Some("i-9"), Some(InstanceState::Stopped), None, Some("m5.large"))];
    match existing_instance(&v, &preferred) {
        ExistingInstance::Conflict { instance_id, state } => {
            assert_eq!(instance_id, "i-9");
            assert_eq!(state, InstanceState::Stopped);
        }
        _ => panic!("expected conflict"),
    }
    let v = vec![inst(Some("i-0"), Some(InstanceState::ShuttingDown), None, None)];
    assert!(matches!(existing_instance(&v, &preferred), ExistingInstance::Create));
}

#[test]
fn termination_wait_progress() {
    assert!(matches!(termination_progress(&vec![]), TerminationProgress::NoInstances));
    let done = vec![
        inst(Some("i-1"), Some(InstanceState::Terminated), None, None),
    ];
    assert!(matches!(termination_progress(&done), TerminationProgress::NoInstances));
    let unknown = vec![inst(Some("i-1"), None, None, None)];
    assert!(matches!(termination_progress(&unknown), TerminationProgress::AllTerminated { count: 1 }));
    let waiting = vec![
        inst(Some("i-1"), Some(InstanceState::ShuttingDown), None, None),
        inst(Some("i-2"), Some(InstanceState::Terminated), None, None),
    ];
    match termination_progress(&waiting) {
        TerminationProgress::Waiting { pending } => assert_eq!(pending, vec![s("i-1")]),
        _ => panic!("expected waiting"),
    }
}

#[test]
fn live_instance_and_failures() {
    let v = vec![
        inst(Some("i-old"), Some(InstanceState::Terminated), Some("10.0.0.10"), None),
        inst(Some("i-new"), Some(InstanceState::Running), Some("10.0.0.10"), None),
    ];
    assert_eq!(live_instance_id(&v), None);
    let v = vec![
        inst(Some("i-new"), Some(InstanceState::Pending), Some("10.0.0.10"), None),
    ];
    assert_eq!(live_instance_id(&v), Some(s("i-new")));
    let v = vec![
        inst(Some("a"), Some(InstanceState::Running), Some("10.0.0.10"), None),
        inst(Some("b"), Some(InstanceState::Stopped), Some("10.0.0.11"), None),
        inst(Some("c"), Some(InstanceState::Terminated), None, None),
        inst(Some("d"), Some(InstanceState::ShuttingDown), Some("10.0.0.13"), None),
    ];
    assert_eq!(failed_instance_ips(&v), vec![s("10.0.0.11"), s("10.0.0.13")]);
}

fn status(id: &str, state: InstanceState, inst_ok: &str, sys_ok: &str) -> InstanceStatusRecord {
    InstanceStatusRecord {
        instance_id: Some(s(id)),
        state: Some(state),
        instance_status: Some(s(inst_ok)),
        system_status: Some(s(sys_ok)),
    }
}

#[test]
fn availability_wait_progress() {
    let ids = vec![s("i-1"), s("i-2")];
    let all_ok = vec![
        status("i-2", InstanceState::Running, "ok", "ok"),
        status("i-1", InstanceState::Running, "ok", "ok"),
    ];
    assert!(matches!(availability_progress(&ids, &all_ok), AvailabilityProgress::Ready));
    let some = vec![status("i-1", InstanceState::Running, "ok", "initializing")];
    match availability_progress(&ids, &some) {
        AvailabilityProgress::NotReady { waiting } => assert_eq!(waiting, vec![s("i-1"), s("i-2")]),
        _ => panic!("expected not ready"),
    }
    let gone = vec![status("i-2", InstanceState::Terminated, "ok", "ok")];
    match availability_progress(&ids, &gone) {
        AvailabilityProgress::TerminatedDuringStartup { instance_id, state } => {
            assert_eq!(instance_id, "i-2");
            assert_eq!(state, InstanceState::Terminated);
        }
        _ => panic!("expected failure"),
    }
}

#[test]
fn first_ids_and_present_ids() {
    assert_eq!(first_resource_id(&vec![Some(s("vpc-1")), Some(s("vpc-2"))]), Some(s("vpc-1")));
    assert_eq!(first_resource_id(&vec![None, Some(s("vpc-2"))]), None);
    assert_eq!(first_resource_id(&vec![]), None);
    assert_eq!(present_resource_ids(&vec![Some(s("a")), None, Some(s("b"))]), vec![s("a"), s("b")]);
}

#[test]
fn gateway_decisions() {
    let vpc = s("vpc-1");
    assert!(matches!(gateway_decision(&vec![], &vpc), GatewayDecision::Create));
    let g = |att: Vec<Option<&str>>| GatewayRecord {
        gateway_id: Some(s("igw-1")),
        attachment_vpc_ids: att.into_iter().map(|a| a.map(s)).collect(),
    };
    assert!(matches!(gateway_decision(&vec![g(vec![Some("vpc-1")])], &vpc), GatewayDecision::Reuse { .. }));
    assert!(matches!(gateway_decision(&vec![g(vec![])], &vpc), GatewayDecision::AttachExisting { .. }));
    match gateway_decision(&vec![g(vec![Some("vpc-9")])], &vpc) {
        GatewayDecision::AttachedElsewhere { gateway_id, vpc_id } => {
            assert_eq!(gateway_id, "igw-1");
            assert_eq!(vpc_id, "vpc-9");
        }
        _ => panic!("expected a conflict"),
    }
    let cleanup = gateway_cleanup(&vec![g(vec![Some("vpc-1")])]).unwrap();
    assert_eq!(cleanup.gateway_id, "igw-1");
    assert_eq!(cleanup.detach_from, Some(s("vpc-1")));
    assert!(gateway_cleanup(&vec![]).is_none());
}

#[test]
fn route_table_decisions() {
    let table = RouteTableRecord {
        route_table_id: Some(s("rtb-1")),
        vpc_id: Some(s("vpc-1")),
        associations: vec![RouteTableAssociationRecord {
            association_id: Some(s("rtbassoc-1")),
            subnet_id: Some(s("subnet-1")),
            main: Some(false),
        }],
        routes: vec![RouteRecord { destination_cidr_block: Some(s("10.0.0.0/16")), gateway_id: Some(s("local")) }],
    };
    match route_table_decision(&vec![table], &s("vpc-1"), &s("subnet-1"), &s("igw-1")) {
        RouteTableDecision::Reuse { route_table_id, associate_subnet, add_default_route } => {
            assert_eq!(route_table_id, "rtb-1");
            assert!(!associate_subnet);
            assert!(add_default_route);
        }
        _ => panic!("expected reuse"),
    }
    let other = RouteTableRecord {
        route_table_id: Some(s("rtb-2")),
        vpc_id: Some(s("vpc-2")),
        associations: vec![],
        routes: vec![],
    };
    assert!(matches!(
        route_table_decision(&vec![other], &s("vpc-1"), &s("subnet-1"), &s("igw-1")),
        RouteTableDecision::WrongVpc { .. }
    ));
    assert!(matches!(
        route_table_decision(&vec![], &s("vpc-1"), &s("subnet-1"), &s("igw-1")),
        RouteTableDecision::Create
    ));
}

#[test]
fn route_table_cleanup_skips_main_association() {
    let table = RouteTableRecord {
        route_table_id: Some(s("rtb-1")),
        vpc_id: Some(s("vpc-1")),
        associations: vec![
            RouteTableAssociationRecord { association_id: Some(s("a-main")), subnet_id: None, main: Some(true) },
            RouteTableAssociationRecord { association_id: Some(s("a-1")), subnet_id: Some(s("subnet-1")), main: Some(false) },
        ],
        routes: vec![],
    };
    let c = route_table_cleanup(&vec![table]).unwrap();
    assert_eq!(c.route_table_id, "rtb-1");
    assert_eq!(c.disassociate, vec![s("a-1")]);
}

#[test]
fn security_groups_of_the_vpc() {
    let groups = vec![
        SecurityGroupRecord { group_id: Some(s("sg-1")), vpc_id: Some(s("vpc-1")) },
        SecurityGroupRecord { group_id: Some(s("sg-2")), vpc_id: Some(s("vpc-2")) },
        SecurityGroupRecord { group_id: Some(s("sg-3")), vpc_id: Some(s("vpc-1")) },
    ];
    assert_eq!(security_groups_in_vpc(&groups, &s("vpc-1")), vec![s("sg-1"), s("sg-3")]);
    let rules = cluster_ingress_rules();
    assert!(rules.iter().any(|r| r.protocol == "tcp" && r.from_port == 22 && r.to_port == 22 && matches!(r.source, IngressSource::Anywhere)));
    assert!(rules.iter().any(|r| r.protocol == "-1" && matches!(r.source, IngressSource::SameGroup)));
}

fn eni(id: Option<&str>, subnet: Option<&str>, status: Option<&str>, attachment: Option<AttachmentRecord>) -> NetworkInterfaceRecord {
    NetworkInterfaceRecord { network_interface_id: id.map(s), subnet_id: subnet.map(s), status: status.map(s), attachment }
}

#[test]
fn network_interface_plan_and_decisions() {
    let mut c = AwsClusterContext::new(&cluster("abc"));
    c.subnet_id = Some(s("subnet-1"));
    c.security_group_ids = vec![s("sg-1")];
    let p = plan_network_interface(&c, 2);
    assert_eq!(p.name, "abc-ENI-2");
    assert_eq!(p.private_ip, "10.0.0.12");
    assert_eq!(p.subnet_id, "subnet-1");
    assert_eq!(p.security_group_ids, vec![s("sg-1")]);
    let sub = s("subnet-1");
    assert!(matches!(network_interface_decision(&vec![], &sub, 0), NetworkInterfaceDecision::NoSecurityGroups));
    assert!(matches!(network_interface_decision(&vec![], &sub, 1), NetworkInterfaceDecision::Create));
    let found = vec![eni(Some("eni-1"), Some("subnet-1"), Some("available"), None)];
    assert!(matches!(network_interface_decision(&found, &sub, 1), NetworkInterfaceDecision::Reuse { .. }));
    let elsewhere = vec![eni(Some("eni-1"), Some("subnet-2"), Some("available"), None)];
    assert!(matches!(network_interface_decision(&elsewhere, &sub, 1), NetworkInterfaceDecision::WrongSubnet { .. }));
}

#[test]
fn network_interface_cleanup_and_release() {
    let attached = vec![eni(
        Some("eni-1"),
        Some("subnet-1"),
        Some("in-use"),
        Some(AttachmentRecord { attachment_id: Some(s("attach-1")), instance_id: Some(s("i-1")) }),
    )];
    let c = network_interface_cleanup(&attached).unwrap();
    assert_eq!(c.network_interface_id, "eni-1");
    assert_eq!(c.detach, Some(s("attach-1")));
    assert!(network_interface_cleanup(&vec![]).is_none());
    assert!(address_still_held(&attached));
    assert!(!address_still_held(&vec![eni(Some("eni-2"), None, Some("available"), None)]));
    assert!(!address_still_held(&vec![]));
}

#[test]
fn interface_status_wait() {
    let want = s("available");
    assert!(matches!(interface_status_step(&vec![], &want, 1), InterfaceStatusStep::NotFound));
    let ready = vec![eni(Some("eni-1"), None, Some("available"), None)];
    assert!(matches!(interface_status_step(&ready, &want, 1), InterfaceStatusStep::Reached));
    let busy = vec![eni(Some("eni-1"), None, Some("in-use"), None)];
    assert!(matches!(interface_status_step(&busy, &want, 1), InterfaceStatusStep::Retry));
    assert!(matches!(interface_status_step(&busy, &want, 10), InterfaceStatusStep::TimedOut));
}

fn addr(alloc: Option<&str>, assoc: Option<&str>, ip: Option<&str>, eni: Option<&str>) -> AddressRecord {
    AddressRecord {
        allocation_id: alloc.map(s),
        association_id: assoc.map(s),
        public_ip: ip.map(s),
        network_interface_id: eni.map(s),
    }
}

#[test]
fn elastic_ip_decisions() {
    let v = vec![addr(Some("eipalloc-1"), Some("eipassoc-1"), Some("3.3.3.3"), Some("eni-1"))];
    assert_eq!(address_allocation(&v), Some(s("eipalloc-1")));
    assert_eq!(address_associations(&v), vec![s("eipassoc-1")]);
    match association_decision(&v, &s("eni-1")) {
        AssociationDecision::AlreadyAssociated { public_ip } => assert_eq!(public_ip, "3.3.3.3"),
        _ => panic!("expected already associated"),
    }
    let free = vec![addr(Some("eipalloc-1"), None, Some("3.3.3.3"), None)];
    match association_decision(&free, &s("eni-1")) {
        AssociationDecision::Associate { public_ip } => assert_eq!(public_ip, "3.3.3.3"),
        _ => panic!("expected associate"),
    }
    assert!(association_defined(&v, &s("eni-1")));
    let bad = vec![addr(Some("eipalloc-1"), Some("eipassoc-1"), None, Some("eni-1"))];
    assert!(!association_defined(&bad, &s("eni-1")));
    let late = vec![
        addr(Some("eipalloc-1"), None, None, Some("eni-2")),
        addr(Some("eipalloc-1"), None, Some("3.3.3.3"), Some("eni-1")),
    ];
    assert!(association_defined(&late, &s("eni-1")));
    let no_ip = vec![addr(Some("eipalloc-1"), None, None, None)];
    assert!(matches!(association_decision(&no_ip, &s("eni-1")), AssociationDecision::MissingPublicIp));
}

fn fs(id: &str, st: EfsLifeCycle) -> FileSystemRecord {
    FileSystemRecord { file_system_id: s(id), life_cycle_state: st }
}

#[test]
fn efs_decisions_and_plans() {
    assert!(matches!(efs_device_decision(&vec![]), EfsDeviceDecision::Create));
    match efs_device_decision(&vec![fs("fs-1", EfsLifeCycle::Available)]) {
        EfsDeviceDecision::Reuse { file_system_id } => assert_eq!(file_system_id, "fs-1"),
        _ => panic!("expected reuse"),
    }
    assert!(matches!(
        efs_device_decision(&vec![fs("fs-1", EfsLifeCycle::Available), fs("fs-2", EfsLifeCycle::Available)]),
        EfsDeviceDecision::Ambiguous
    ));
    assert!(matches!(efs_performance_mode(&s("max_io")), EfsPerformanceMode::MaxIo));
    assert!(matches!(efs_performance_mode(&s("other")), EfsPerformanceMode::GeneralPurpose));
    assert!(matches!(efs_throughput_mode(&s("elastic")), EfsThroughputMode::Elastic));
    assert!(matches!(efs_throughput_mode(&s("provisioned")), EfsThroughputMode::Provisioned));
    assert!(matches!(efs_throughput_mode(&s("x")), EfsThroughputMode::Bursting));
    let mut c = AwsClusterContext::new(&cluster("abc"));
    let p = plan_efs_device(&c);
    assert_eq!(p.name, "abc-EFS");
    assert!(matches!(p.performance_mode, EfsPerformanceMode::MaxIo));
    c.efs_device_id = Some(s("fs-1"));
    c.subnet_id = Some(s("subnet-1"));
    c.security_group_ids = vec![s("sg-1")];
    let m = plan_mount_target(&c);
    assert_eq!((m.file_system_id.as_str(), m.subnet_id.as_str(), m.security_group_id.as_str()), ("fs-1", "subnet-1", "sg-1"));
    assert_eq!(efs_dns_name(&s("fs-1"), &s("us-east-1")), "fs-1.efs.us-east-1.amazonaws.com");
}

#[test]
fn efs_waits() {
    assert!(matches!(efs_wait_step(&vec![], EfsLifeCycle::Available), EfsWaitStep::Missing));
    assert!(matches!(efs_wait_step(&vec![fs("fs-1", EfsLifeCycle::Creating)], EfsLifeCycle::Available), EfsWaitStep::Retry));
    assert!(matches!(efs_wait_step(&vec![fs("fs-1", EfsLifeCycle::Available)], EfsLifeCycle::Available), EfsWaitStep::Reached));
    let targets = vec![
        MountTargetRecord { mount_target_id: s("fsmt-1"), subnet_id: s("subnet-9") },
        MountTargetRecord { mount_target_id: s("fsmt-2"), subnet_id: s("subnet-1") },
    ];
    assert_eq!(mount_target_in_subnet(&targets, &s("subnet-1")), Some(s("fsmt-2")));
    assert_eq!(mount_target_in_subnet(&targets, &s("subnet-5")), None);
    assert!(mount_targets_deleted(&vec![0, 0]));
    assert!(!mount_targets_deleted(&vec![0, 1]));
}
