use hpcac::aws::context::AwsClusterContext;
use hpcac::aws::efs::{efs_device_decision, plan_efs_device, EfsDeviceDecision, EfsLifeCycle, FileSystemRecord};
use hpcac::aws::launch::{CapacityRetry, LaunchPhase, MAX_CAPACITY_ROUNDS};
use hpcac::aws::lifecycle::{progress_increment, spawn_plan, teardown_plan, LifecycleStep};
use hpcac::aws::network::{
    association_decision, gateway_decision, network_interface_decision, route_table_decision,
    AddressRecord, AssociationDecision, GatewayDecision, GatewayRecord, NetworkInterfaceDecision,
    NetworkInterfaceRecord, RouteRecord, RouteTableAssociationRecord, RouteTableDecision,
    RouteTableRecord,
};
use hpcac::aws::waits::{wait_schedule, wait_step, WaitKind, WaitSchedule, WaitStep};
use hpcac::cluster::{Cluster, ClusterState, Node};

fn s(x: &str) -> String {
    x.to_string()
}

fn cluster(efs: bool, affinity: bool) -> Cluster {
    Cluster {
        id: s("abc"),
        display_name: s("demo"),
        provider_id: s("aws"),
        region: s("us-east-1"),
        availability_zone: s(""),
        use_node_affinity: affinity,
        use_elastic_fabric_adapters: false,
        use_elastic_file_system: efs,
        efs_performance_mode: s("general_purpose"),
        efs_throughput_mode: s("bursting"),
        public_ssh_key_path: s("~/.ssh/id_rsa.pub"),
        private_ssh_key_path: s("~/.ssh/id_rsa"),
        state: ClusterState::Pending,
    }
}

fn node(configured: bool) -> Node {
    Node {
        id: s("n"),
        instance_type: s("c5.large"),
        image_id: s("ami-1"),
        allocation_mode: s("on-demand"),
        root_volume_gb: 30,
        root_volume_type: s("gp3"),
        root_volume_iops: None,
        burstable_mode: None,
        was_efs_configured: configured,
        private_ip: None,
        public_ip: None,
    }
}

#[test]
fn route_table_set_up_by_a_first_run_is_reused_untouched() {
    // What the first run leaves behind: the table associated with the
    // subnet and routing 0.0.0.0/0 through the gateway.
    let table = RouteTableRecord {
        route_table_id: Some(s("rtb-1")),
        vpc_id: Some(s("vpc-1")),
        associations: vec![RouteTableAssociationRecord {
            association_id: Some(s("rtbassoc-1")),
            subnet_id: Some(s("subnet-1")),
            main: Some(false),
        }],
        routes: vec![
            RouteRecord { destination_cidr_block: Some(s("10.0.0.0/16")), gateway_id: Some(s("local")) },
            RouteRecord { destination_cidr_block: Some(s("0.0.0.0/0")), gateway_id: Some(s("igw-1")) },
        ],
    };
    match route_table_decision(&vec![table], &s("vpc-1"), &s("subnet-1"), &s("igw-1")) {
        RouteTableDecision::Reuse { route_table_id, associate_subnet, add_default_route } => {
            assert_eq!(route_table_id, "rtb-1");
            assert!(!associate_subnet);
            assert!(!add_default_route);
        }
        _ => panic!("expected the table to be reused"),
    }
}

#[test]
fn route_through_another_gateway_is_added_again() {
    let table = RouteTableRecord {
        route_table_id: Some(s("rtb-1")),
        vpc_id: Some(s("vpc-1")),
        associations: vec![],
        routes: vec![RouteRecord { destination_cidr_block: Some(s("0.0.0.0/0")), gateway_id: Some(s("igw-9")) }],
    };
    match route_table_decision(&vec![table], &s("vpc-1"), &s("subnet-1"), &s("igw-1")) {
        RouteTableDecision::Reuse { associate_subnet, add_default_route, .. } => {
            assert!(associate_subnet);
            assert!(add_default_route);
        }
        _ => panic!("expected the table to be reused"),
    }
}

#[test]
fn attached_gateway_is_reused_on_a_second_run() {
    let g = GatewayRecord { gateway_id: Some(s("igw-1")), attachment_vpc_ids: vec![Some(s("vpc-1"))] };
    match gateway_decision(&vec![g], &s("vpc-1")) {
        GatewayDecision::Reuse { gateway_id } => assert_eq!(gateway_id, "igw-1"),
        _ => panic!("expected the gateway to be reused"),
    }
}

#[test]
fn node_interface_is_reused_on_a_second_run() {
    let found = vec![NetworkInterfaceRecord {
        network_interface_id: Some(s("eni-7")),
        subnet_id: Some(s("subnet-1")),
        status: Some(s("in-use")),
        attachment: None,
    }];
    match network_interface_decision(&found, &s("subnet-1"), 1) {
        NetworkInterfaceDecision::Reuse { network_interface_id } => assert_eq!(network_interface_id, "eni-7"),
        _ => panic!("expected the interface to be reused"),
    }
}

#[test]
fn associated_elastic_ip_is_kept_on_a_second_run() {
    let v = vec![AddressRecord {
        allocation_id: Some(s("eipalloc-1")),
        association_id: Some(s("eipassoc-1")),
        public_ip: Some(s("3.3.3.3")),
        network_interface_id: Some(s("eni-1")),
    }];
    match association_decision(&v, &s("eni-1")) {
        AssociationDecision::AlreadyAssociated { public_ip } => assert_eq!(public_ip, "3.3.3.3"),
        _ => panic!("expected the association to be kept"),
    }
}

#[test]
fn efs_device_is_looked_up_under_its_creation_token() {
    let c = AwsClusterContext::new(&cluster(true, false));
    assert_eq!(c.efs_creation_token(), "abc");
    assert_eq!(plan_efs_device(&c).creation_token, c.efs_creation_token());
    assert_ne!(c.efs_creation_token(), c.efs_device_name);
    let found = vec![FileSystemRecord { file_system_id: s("fs-1"), life_cycle_state: EfsLifeCycle::Available }];
    match efs_device_decision(&found) {
        EfsDeviceDecision::Reuse { file_system_id } => assert_eq!(file_system_id, "fs-1"),
        _ => panic!("expected the device to be reused"),
    }
}

#[test]
fn wait_schedules() {
    assert_eq!(wait_schedule(WaitKind::InstancesAvailable), WaitSchedule { limit_secs: 600, poll_secs: 15 });
    assert_eq!(wait_schedule(WaitKind::InstancesTerminated), WaitSchedule { limit_secs: 900, poll_secs: 10 });
    assert_eq!(wait_schedule(WaitKind::EfsDeviceReady), WaitSchedule { limit_secs: 300, poll_secs: 10 });
    assert_eq!(wait_schedule(WaitKind::MountTargetsDeleted), WaitSchedule { limit_secs: 300, poll_secs: 10 });
    assert_eq!(wait_schedule(WaitKind::NodeInstancesTerminated), WaitSchedule { limit_secs: 300, poll_secs: 10 });
    assert_eq!(wait_schedule(WaitKind::NodeSshReady), WaitSchedule { limit_secs: 300, poll_secs: 5 });
}

#[test]
fn wait_gives_up_once_the_limit_is_reached() {
    let sched = wait_schedule(WaitKind::EfsDeviceReady);
    assert_eq!(wait_step(sched, 0), WaitStep::Poll);
    assert_eq!(wait_step(sched, 299), WaitStep::Poll);
    assert_eq!(wait_step(sched, 300), WaitStep::TimedOut);
    assert_eq!(wait_step(sched, 301), WaitStep::TimedOut);
}

#[test]
fn spawn_progress_follows_each_operation() {
    let nodes = vec![node(false), node(true)];
    let plan = spawn_plan(&cluster(true, true), &nodes);
    assert!(plan.contains(&LifecycleStep::AttachEfs(0)));
    assert!(plan.contains(&LifecycleStep::SkipEfsAttach(1)));
    assert_eq!(progress_increment(&LifecycleStep::RecordNodeAddresses(0), 2), 0);
    assert_eq!(progress_increment(&LifecycleStep::RecordNodeAddresses(1), 2), 2);
    assert_eq!(progress_increment(&LifecycleStep::SkipEfsAttach(1), 2), 1);
    assert_eq!(progress_increment(&LifecycleStep::SetClusterState(ClusterState::Spawning), 2), 0);
    let total: u64 = plan.iter().map(|st| progress_increment(st, nodes.len())).sum();
    // 10 cluster-level operations with EFS and affinity, 3 network steps and
    // 4 more per node, the instance wait and the mount target wait.
    assert_eq!(total, 10 + 7 * 2 + 2);
}

#[test]
fn teardown_progress_counts_instances_per_node() {
    let nodes = vec![node(false), node(false), node(false)];
    let plan = teardown_plan(&cluster(false, false), &nodes);
    assert_eq!(progress_increment(&LifecycleStep::RequestInstanceTermination, 3), 3);
    assert_eq!(progress_increment(&LifecycleStep::WaitInstancesTerminated, 3), 3);
    assert_eq!(progress_increment(&LifecycleStep::ResetNode(0), 3), 0);
    let total: u64 = plan.iter().map(|st| progress_increment(st, nodes.len())).sum();
    assert_eq!(total, 6 + 4 * 3);
}

#[test]
fn capacity_retry_phase_names_an_existing_candidate() {
    let mut r = CapacityRetry::new(&s("c5.large"), &vec![s("c5.large"), s("m5.large")]);
    for _ in 0..2 {
        r.record_refused("InsufficientInstanceCapacity: none left");
    }
    match r.phase() {
        LaunchPhase::Waiting { round } => assert!(1 <= round && round <= MAX_CAPACITY_ROUNDS),
        other => panic!("unexpected phase {:?}", other),
    }
    r.record_wait();
    r.record_refused("InsufficientInstanceCapacity: none left");
    match r.phase() {
        LaunchPhase::Trying { round, index } => {
            assert_eq!((round, index), (1, 1));
        }
        other => panic!("unexpected phase {:?}", other),
    }
}
