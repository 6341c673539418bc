use hpcac::aws::context::AwsClusterContext;
use hpcac::aws::iam::{
    iam_cleanup_decision, iam_ensure_decision, IamCleanupDecision, IamEnsureDecision, IamLookup,
    SSM_MANAGED_POLICY_ARN,
};
use hpcac::aws::interface::{AwsConfigError, AwsCredentialSource, AwsInterface};
use hpcac::aws::launch::{
    classify_launch_error, launch_candidates, plan_instance_launch, root_volume_plan,
    CapacityRetry, LaunchAction, LaunchErrorKind, LaunchPhase, LaunchPlanError,
    CAPACITY_RETRY_DELAY_SECS, MAX_CAPACITY_ROUNDS,
};
use hpcac::aws::lifecycle::{spawn_plan, spawn_progress_total, teardown_plan, teardown_progress_total, LifecycleStep};
use hpcac::aws::setup::{
    base_setup_actions, efs_attach_script, init_script, node_session, SetupAction,
    NODE_PRIVATE_KEY_PATH, SSH_DIR_COMMAND, TMUX_INSTALL_COMMAND,
};
use hpcac::aws::spot::{
    notice_from_literal, policy_from_literals, affected_private_ips, interruption_instance_id, spot_notice_body, spot_queue_name,
    spot_queue_policy, spot_rule_name, TagRecord, TaggedInstanceRecord,
};
use hpcac::aws::ssm::{
    failure_report, invocation_from_answer, ssm_agent_step, ssm_poll_step, ssm_send_step,
    wrap_ssm_command, SsmAgentStep, SsmCheck, SsmCommandStatus, SsmInvocation, SsmPollStep,
    SsmSendStep,
};
use hpcac::cluster::{Cluster, ClusterState, ConfigVar, Node};

fn s(x: &str) -> String {
    x.to_string()
}

fn cluster(state: ClusterState, efs: bool, affinity: bool) -> Cluster {
    Cluster {
        id: s("c1"),
        display_name: s("demo"),
        provider_id: s("aws"),
        region: s("us-east-1"),
        availability_zone: s("us-east-1a"),
        use_node_affinity: affinity,
        use_elastic_fabric_adapters: false,
        use_elastic_file_system: efs,
        efs_performance_mode: s("general_purpose"),
        efs_throughput_mode: s("bursting"),
        public_ssh_key_path: s("~/.ssh/id_rsa.pub"),
        private_ssh_key_path: s("~/.ssh/id_rsa"),
        state,
    }
}

fn node(mode: &str, configured: bool) -> Node {
    Node {
        id: s("n"),
        instance_type: s("c5.large"),
        image_id: s("ami-1"),
        allocation_mode: s(mode),
        root_volume_gb: 30,
        root_volume_type: s("gp3"),
        root_volume_iops: Some(3000),
        burstable_mode: Some(s("Unlimited")),
        was_efs_configured: configured,
        private_ip: None,
        public_ip: None,
    }
}

#[test]
fn spawn_plan_gives_an_elastic_ip_to_the_head_only() {
    let nodes = vec![node("on-demand", false), node("spot", false), node("spot", true)];
    let plan = spawn_plan(&cluster(ClusterState::Pending, true, true), &nodes);
    let eips: Vec<usize> = plan
        .iter()
        .filter_map(|st| match st {
            LifecycleStep::AllocateElasticIp(i) => Some(*i),
            _ => None,
        })
        .collect();
    assert_eq!(eips, vec![0]);
    assert_eq!(plan[0], LifecycleStep::SetClusterState(ClusterState::Spawning));
    assert!(plan.contains(&LifecycleStep::AttachEfs(0)));
    assert!(plan.contains(&LifecycleStep::AttachEfs(1)));
    assert!(!plan.contains(&LifecycleStep::AttachEfs(2)));
    assert_eq!(plan.last(), Some(&LifecycleStep::EnsureSpotInterruptionQueue));
}

#[test]
fn restoring_spawn_has_no_queue_step() {
    let nodes = vec![node("spot", false)];
    let plan = spawn_plan(&cluster(ClusterState::Running, false, false), &nodes);
    assert_eq!(plan[0], LifecycleStep::SetClusterState(ClusterState::Restoring));
    assert_eq!(plan.last(), Some(&LifecycleStep::SetClusterState(ClusterState::Running)));
    assert!(!plan.contains(&LifecycleStep::CreatePlacementGroup));
    assert!(!plan.contains(&LifecycleStep::RequestEfsDevice));
}

fn created(st: &LifecycleStep) -> Option<&'static str> {
    match st {
        LifecycleStep::CreateVpc => Some("vpc"),
        LifecycleStep::CreateSubnet => Some("subnet"),
        LifecycleStep::CreateInternetGateway => Some("igw"),
        LifecycleStep::CreateRouteTable => Some("rt"),
        LifecycleStep::CreateSecurityGroup => Some("sg"),
        LifecycleStep::ImportSshKey => Some("key"),
        LifecycleStep::CreatePlacementGroup => Some("pg"),
        _ => None,
    }
}

fn deleted(st: &LifecycleStep) -> Option<&'static str> {
    match st {
        LifecycleStep::DeleteVpc => Some("vpc"),
        LifecycleStep::DeleteSubnet => Some("subnet"),
        LifecycleStep::DeleteInternetGateway => Some("igw"),
        LifecycleStep::DeleteRouteTable => Some("rt"),
        LifecycleStep::DeleteSecurityGroup => Some("sg"),
        LifecycleStep::DeleteSshKey => Some("key"),
        LifecycleStep::DeletePlacementGroup => Some("pg"),
        _ => None,
    }
}

#[test]
fn teardown_removes_network_in_reverse_creation_order() {
    for (efs, affinity) in [(false, false), (true, false), (false, true), (true, true)] {
        let nodes = vec![node("on-demand", false), node("on-demand", true)];
        let c = cluster(ClusterState::Pending, efs, affinity);
        let mut up: Vec<&str> = spawn_plan(&c, &nodes).iter().filter_map(created).collect();
        let down: Vec<&str> = teardown_plan(&c, &nodes).iter().filter_map(deleted).collect();
        up.reverse();
        assert_eq!(down, up);
    }
}

#[test]
fn teardown_plan_order() {
    let nodes = vec![node("spot", false), node("on-demand", false)];
    let plan = teardown_plan(&cluster(ClusterState::Running, true, false), &nodes);
    assert_eq!(plan[0], LifecycleStep::CleanupSpotInterruptionQueue);
    assert_eq!(plan[1], LifecycleStep::SetClusterState(ClusterState::Terminating));
    assert_eq!(plan.last(), Some(&LifecycleStep::SetClusterState(ClusterState::Pending)));
    let release: Vec<usize> = plan
        .iter()
        .filter_map(|st| match st {
            LifecycleStep::ReleaseElasticIp(i) => Some(*i),
            _ => None,
        })
        .collect();
    assert_eq!(release, vec![0, 1]);
}

#[test]
fn progress_totals() {
    assert_eq!(spawn_progress_total(&cluster(ClusterState::Pending, false, false), 2), 7 + 12 + 2);
    assert_eq!(spawn_progress_total(&cluster(ClusterState::Pending, true, true), 2), 7 + 12 + 1 + 4 + 6);
    assert_eq!(teardown_progress_total(&cluster(ClusterState::Pending, false, false), 3), 14);
    assert_eq!(teardown_progress_total(&cluster(ClusterState::Pending, true, true), 3), 19);
}

#[test]
fn launch_candidates_default_to_the_node_type() {
    assert_eq!(launch_candidates(&s("c5.large"), &vec![]), vec![s("c5.large")]);
    assert_eq!(launch_candidates(&s("c5.large"), &vec![s("a"), s("b")]), vec![s("a"), s("b")]);
}

#[test]
fn launch_error_classification() {
    assert_eq!(classify_launch_error("InsufficientInstanceCapacity: none left"), LaunchErrorKind::NoCapacity);
    assert_eq!(classify_launch_error("InvalidNetworkInterface.InUse"), LaunchErrorKind::NetworkInterfaceBusy);
    assert_eq!(classify_launch_error("UnauthorizedOperation"), LaunchErrorKind::Fatal);
}

fn attempt_type(r: &CapacityRetry) -> String {
    match r.action() {
        LaunchAction::Attempt { instance_type } => instance_type,
        _ => panic!("expected an attempt"),
    }
}

#[test]
fn capacity_retry_takes_first_accepted_candidate() {
    let mut r = CapacityRetry::new(&s("c5.large"), &vec![s("a"), s("b"), s("c")]);
    assert_eq!(attempt_type(&r), "a");
    r.record_refused("InsufficientInstanceCapacity");
    assert_eq!(attempt_type(&r), "b");
    r.record_accepted();
    assert_eq!(r.phase(), LaunchPhase::Launched { index: 1 });
    let launch = r.launched(s("i-123")).unwrap();
    assert_eq!(launch.instance_id, "i-123");
    assert_eq!(launch.instance_type, "b");
    assert!(matches!(r.action(), LaunchAction::Launched { .. }));
}

#[test]
fn capacity_retry_waits_between_rounds_and_gives_up() {
    let mut r = CapacityRetry::new(&s("c5.large"), &vec![]);
    assert!(r.launched(s("i-1")).is_none());
    let mut requests = 0;
    loop {
        match r.action() {
            LaunchAction::Attempt { instance_type } => {
                assert_eq!(instance_type, "c5.large");
                requests += 1;
                r.record_refused("InsufficientInstanceCapacity");
            }
            LaunchAction::Wait { seconds } => {
                assert_eq!(seconds, CAPACITY_RETRY_DELAY_SECS);
                r.record_wait();
            }
            LaunchAction::GiveUp => break,
            _ => panic!("unexpected action"),
        }
    }
    assert_eq!(requests, MAX_CAPACITY_ROUNDS + 1);
    assert_eq!(
        r.give_up_message("c1-EC2-INSTANCE-0"),
        "Could not launch 'c1-EC2-INSTANCE-0' as any of [c5.large] after 10 rounds (300s). Last transient error: InsufficientInstanceCapacity (c5.large)"
    );
}

#[test]
fn capacity_retry_aborts_on_fatal_error() {
    let mut r = CapacityRetry::new(&s("c5.large"), &vec![s("a"), s("b")]);
    r.record_refused("InvalidNetworkInterface.InUse");
    assert_eq!(attempt_type(&r), "b");
    r.record_refused("AccessDenied");
    assert_eq!(r.phase(), LaunchPhase::Failed);
    assert!(matches!(r.action(), LaunchAction::Abort));
    assert!(r.give_up_message("x").ends_with("Last transient error: InvalidNetworkInterface.InUse"));
}

#[test]
fn launch_request_plan() {
    let mut c = AwsClusterContext::new(&cluster(ClusterState::Pending, false, true));
    let n = node("on-demand", false);
    match plan_instance_launch(&c, &n, 0) {
        Err(LaunchPlanError::MissingNetworkInterface { node_index }) => assert_eq!(node_index, 0),
        Ok(_) => panic!("expected a missing interface"),
    }
    c.elastic_network_interface_ids.insert(0, s("eni-0"));
    c.placement_group_name_actual = Some(s("c1-PG"));
    let p = plan_instance_launch(&c, &n, 0).ok().unwrap();
    assert_eq!(p.instance_name, "c1-EC2-INSTANCE-0");
    assert_eq!(p.network_interface_id, "eni-0");
    assert_eq!(p.cpu_credits, Some(s("unlimited")));
    assert_eq!(p.placement_group, Some(s("c1-PG")));
    let v = root_volume_plan(&n);
    assert_eq!(v.device_name, "/dev/xvda");
    assert_eq!(v.volume_size_gb, 30);
    assert_eq!(v.throughput, Some(500));
    assert_eq!(v.iops, Some(3000));
    assert!(v.delete_on_termination);
}

#[test]
fn node_sessions_go_through_the_head() {
    let mut c = AwsClusterContext::new(&cluster(ClusterState::Pending, false, false));
    c.elastic_ips.insert(0, s("3.3.3.3"));
    let head = node_session(&c, 0, "/k");
    assert_eq!(head.ip, "3.3.3.3");
    assert!(head.jump_host.is_none());
    let w = node_session(&c, 2, "/k");
    assert_eq!(w.ip, "10.0.0.12");
    assert_eq!(w.jump_host, Some(s("ec2-user@3.3.3.3")));
    assert_eq!(w.username, "ec2-user");
}

#[test]
fn node_setup_scripts() {
    let script = efs_attach_script("fs-1.efs.us-east-1.amazonaws.com");
    assert!(script.contains("sudo mount -t nfs4 fs-1.efs.us-east-1.amazonaws.com:/ /shared; then"));
    assert!(script.starts_with("\nrpm -q nfs-utils"));
    assert!(script.ends_with("echo \"EFS mount and setup complete!\"\n"));
    assert_eq!(init_script(&vec![]), None);
    assert_eq!(init_script(&vec![s("a"), s("b")]), Some(s("set -e\na\nb")));
    let actions = base_setup_actions(&vec![s("make")]);
    assert_eq!(actions.len(), 5);
    assert!(matches!(&actions[0], SetupAction::Run { command } if command == SSH_DIR_COMMAND));
    assert!(matches!(&actions[1], SetupAction::UploadPrivateKey { remote_path } if remote_path == NODE_PRIVATE_KEY_PATH));
    assert!(matches!(&actions[3], SetupAction::Run { command } if command == TMUX_INSTALL_COMMAND));
    assert!(matches!(&actions[4], SetupAction::RunStreaming { script } if script == "set -e\nmake"));
    assert_eq!(base_setup_actions(&vec![]).len(), 4);
}

#[test]
fn spot_queue_names_and_documents() {
    assert_eq!(spot_queue_name("c1"), "c1-spot-interruptions");
    assert_eq!(spot_rule_name("c1"), "c1-spot-interruption-rule");
    assert_eq!(
        spot_notice_body("i-0abc"),
        "{\"detail\":{\"instance-action\":\"terminate\",\"instance-id\":\"i-0abc\"},\"detail-type\":\"EC2 Spot Instance Interruption Warning\",\"source\":\"aws.ec2\",\"version\":\"0\"}"
    );
    assert_eq!(
        spot_queue_policy("arn:q", "arn:r"),
        "{\"Statement\":[{\"Action\":\"SQS:SendMessage\",\"Condition\":{\"ArnEquals\":{\"aws:SourceArn\":\"arn:r\"}},\"Effect\":\"Allow\",\"Principal\":{\"Service\":\"events.amazonaws.com\"},\"Resource\":\"arn:q\"}],\"Version\":\"2012-10-17\"}"
    );
}

#[test]
fn spot_documents_from_literals() {
    assert_eq!(
        notice_from_literal("\"i-1\""),
        "{\"detail\":{\"instance-action\":\"terminate\",\"instance-id\":\"i-1\"},\"detail-type\":\"EC2 Spot Instance Interruption Warning\",\"source\":\"aws.ec2\",\"version\":\"0\"}"
    );
    let p = policy_from_literals("\"q\"", "\"r\"");
    assert!(p.contains("\"aws:SourceArn\":\"r\"}}"));
    assert!(p.contains("\"Resource\":\"q\"}]"));
    assert_eq!(spot_notice_body("a\"b"), notice_from_literal("\"a\\\"b\""));
    assert_eq!(
        spot_notice_body("x\\y\n\t\u{1}\u{1f}\u{8}\u{c}\r"),
        notice_from_literal("\"x\\\\y\\n\\t\\u0001\\u001f\\b\\f\\r\"")
    );
}

#[test]
fn simulated_notice_is_read_back() {
    let body = spot_notice_body("i-0abc");
    assert_eq!(interruption_instance_id(&body), Some(s("i-0abc")));
    assert_eq!(interruption_instance_id("{\"detail\":{}}"), None);
    assert_eq!(interruption_instance_id("not json"), None);
}

#[test]
fn affected_nodes_carry_the_cluster_tag() {
    let tag = |k: &str, v: &str| TagRecord { key: Some(s(k)), value: Some(s(v)) };
    let instances = vec![
        TaggedInstanceRecord { tags: vec![tag("Name", "x"), tag("ClusterId", "c1")], private_ip: Some(s("10.0.0.11")) },
        TaggedInstanceRecord { tags: vec![tag("ClusterId", "c2")], private_ip: Some(s("10.0.0.12")) },
        TaggedInstanceRecord { tags: vec![tag("ClusterId", "c1")], private_ip: None },
    ];
    assert_eq!(affected_private_ips(&instances, "c1"), vec![s("10.0.0.11")]);
}

#[test]
fn ssm_command_and_retries() {
    assert_eq!(
        wrap_ssm_command("echo hi"),
        "#!/bin/bash\nset -e\nsudo -u ec2-user -i bash << 'EOF'\necho hi\nEOF"
    );
    assert_eq!(ssm_send_step(1, true), SsmSendStep::Retry { delay_secs: 30 });
    assert_eq!(ssm_send_step(4, true), SsmSendStep::Retry { delay_secs: 120 });
    assert_eq!(ssm_send_step(5, true), SsmSendStep::GiveUp);
    assert_eq!(ssm_send_step(1, false), SsmSendStep::GiveUp);
}

fn inv(status: SsmCommandStatus, out: &str) -> SsmInvocation {
    SsmInvocation { status, stdout: s(out), stderr: s("") }
}

#[test]
fn ssm_polling() {
    assert!(matches!(ssm_poll_step(true, SsmCheck::Read(inv(SsmCommandStatus::Success, "x"))), SsmPollStep::TimedOut));
    match ssm_poll_step(false, SsmCheck::Read(inv(SsmCommandStatus::Success, "out"))) {
        SsmPollStep::Done { stdout } => assert_eq!(stdout, "out"),
        _ => panic!("expected done"),
    }
    assert!(matches!(ssm_poll_step(false, SsmCheck::Read(inv(SsmCommandStatus::InProgress, ""))), SsmPollStep::Continue));
    assert!(matches!(
        ssm_poll_step(false, SsmCheck::Failed(s("InvocationDoesNotExist: not yet"))),
        SsmPollStep::Continue
    ));
    assert!(matches!(ssm_poll_step(false, SsmCheck::Failed(s("throttled"))), SsmPollStep::CheckFailed { .. }));
    assert!(matches!(
        ssm_poll_step(false, SsmCheck::Read(inv(SsmCommandStatus::TimedOut, ""))),
        SsmPollStep::CommandFailed { status: SsmCommandStatus::TimedOut }
    ));
    assert!(matches!(
        ssm_poll_step(false, SsmCheck::Read(inv(SsmCommandStatus::Other, ""))),
        SsmPollStep::UnexpectedStatus { .. }
    ));
    assert_eq!(failure_report("  ", "boom"), vec![s("Error: boom")]);
    assert_eq!(failure_report("out", ""), vec![s("Output: out")]);
    assert!(invocation_from_answer(None, None, None).is_err());
    let i = invocation_from_answer(Some(SsmCommandStatus::Pending), None, Some(s("e"))).ok().unwrap();
    assert_eq!((i.stdout.as_str(), i.stderr.as_str()), ("", "e"));
    assert_eq!(ssm_agent_step(false, Some(true)), SsmAgentStep::Ready);
    assert_eq!(ssm_agent_step(false, None), SsmAgentStep::Wait);
    assert_eq!(ssm_agent_step(true, Some(true)), SsmAgentStep::TimedOut);
}

#[test]
fn iam_decisions() {
    assert!(matches!(iam_ensure_decision(IamLookup::Found { id: s("AROA1") }), IamEnsureDecision::Reuse { id } if id == "AROA1"));
    assert!(matches!(iam_ensure_decision(IamLookup::NoSuchEntity), IamEnsureDecision::Create));
    assert!(matches!(iam_ensure_decision(IamLookup::Empty), IamEnsureDecision::Create));
    assert!(matches!(iam_ensure_decision(IamLookup::Failed), IamEnsureDecision::Fail));
    assert_eq!(iam_cleanup_decision(&IamLookup::Found { id: s("x") }), IamCleanupDecision::Delete);
    assert_eq!(iam_cleanup_decision(&IamLookup::NoSuchEntity), IamCleanupDecision::Skip);
    assert_eq!(iam_cleanup_decision(&IamLookup::Failed), IamCleanupDecision::Fail);
    assert!(SSM_MANAGED_POLICY_ARN.ends_with("AmazonSSMManagedInstanceCore"));
}

fn var(k: &str, v: &str) -> ConfigVar {
    ConfigVar { key: s(k), value: s(v) }
}

#[test]
fn aws_credential_choice() {
    let chain = AwsInterface { config_vars: vec![var("AUTH_MODE", "chain")] };
    assert!(matches!(chain.credential_source(), Ok(AwsCredentialSource::DefaultChain)));
    let missing = AwsInterface { config_vars: vec![var("SECRET_ACCESS_KEY", "s")] };
    match missing.credential_source() {
        Err(AwsConfigError::MissingKey { key }) => assert_eq!(key, "ACCESS_KEY_ID"),
        _ => panic!("expected a missing key"),
    }
    let no_secret = AwsInterface { config_vars: vec![var("ACCESS_KEY_ID", "a")] };
    match no_secret.credential_source() {
        Err(AwsConfigError::MissingKey { key }) => assert_eq!(key, "SECRET_ACCESS_KEY"),
        _ => panic!("expected a missing secret"),
    }
    let keys = AwsInterface {
        config_vars: vec![
            var("AUTH_MODE", "static"),
            var("ACCESS_KEY_ID", "AKIA"),
            var("SECRET_ACCESS_KEY", "SECRET-REDACTED"),
            var("SESSION_TOKEN", ""),
        ],
    };
    match keys.credential_source() {
        Ok(AwsCredentialSource::Static { access_key_id, secret_access_key, session_token }) => {
            assert_eq!(access_key_id, "AKIA");
            assert_eq!(secret_access_key, "SECRET-REDACTED");
            assert_eq!(session_token, None);
        }
        _ => panic!("expected stored keys"),
    }
}
