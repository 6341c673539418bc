use hpcac::cluster::{get_value, has_spot_nodes, ConfigVar, Node};
use hpcac::json::parse_json;
use hpcac::provider::{CloudProvider, GcpInterface};
use hpcac::ssh::{
    elapsed_clock, parse_tmux_exit_code, readiness_step, tmux_exit_code_command,
    tmux_has_session_command, tmux_poll, tmux_session_running, ReadinessProbe, ReadinessStep,
    SshSession, TmuxJob, TmuxPoll,
};
use hpcac::vultr::{
    cpu_vendor, megabytes_to_mebibytes, region_ids, vultr_plan, vultr_plans, zones_for_region, VultrError,
    VultrInterface, VultrPlanSkip, VULTR_API_BASE_URL,
};

fn s(x: &str) -> String {
    x.to_string()
}

const COMMON: [&str; 12] = [
    "-i",
    "/keys/id",
    "-o",
    "StrictHostKeyChecking=no",
    "-o",
    "UserKnownHostsFile=/dev/null",
    "-o",
    "ConnectTimeout=10",
    "-o",
    "ServerAliveInterval=30",
    "-o",
    "ServerAliveCountMax=3",
];

#[test]
fn sessions_for_each_provider() {
    let a = SshSession::for_aws("1.2.3.4", "/keys/id");
    assert_eq!((a.ip.as_str(), a.username.as_str()), ("1.2.3.4", "ec2-user"));
    assert!(a.jump_host.is_none());
    assert_eq!(a.display(), "1.2.3.4");
    let w = SshSession::for_aws_worker("10.0.0.11", "1.2.3.4", "/keys/id");
    assert_eq!(w.jump_host, Some(s("ec2-user@1.2.3.4")));
    assert_eq!(w.display(), "10.0.0.11 (via ec2-user@1.2.3.4)");
    let v = SshSession::for_vultr("5.6.7.8", "/keys/id");
    assert_eq!(v.username, "root");
}

#[test]
fn ssh_arguments() {
    let a = SshSession::for_aws("1.2.3.4", "/keys/id");
    let mut expected: Vec<String> = COMMON.iter().map(|x| s(x)).collect();
    expected.push(s("-o"));
    expected.push(s("LogLevel=ERROR"));
    expected.push(s("ec2-user@1.2.3.4"));
    assert_eq!(a.base_args(), expected);
    let w = SshSession::for_aws_worker("10.0.0.11", "1.2.3.4", "/keys/id");
    let args = w.base_args();
    assert_eq!(args.len(), 17);
    assert_eq!(
        args[15],
        "ProxyCommand=ssh -i /keys/id -o StrictHostKeyChecking=no -o UserKnownHostsFile=/dev/null -o LogLevel=ERROR -W %h:%p ec2-user@1.2.3.4"
    );
    assert_eq!(args[16], "ec2-user@10.0.0.11");
    assert_eq!(a.remote_script_args().last().map(|x| x.as_str()), Some("bash -s"));
    assert_eq!(a.upload_args("/tmp/x.sh").last().map(|x| x.as_str()), Some("cat > /tmp/x.sh"));
}

#[test]
fn file_transfer_arguments() {
    let a = SshSession::for_aws("1.2.3.4", "/keys/id");
    assert_eq!(a.rsync_source("/home/ec2-user/results//"), "ec2-user@1.2.3.4:/home/ec2-user/results/");
    let r = a.rsync_args("/data", "./out");
    assert_eq!(r[0], "-az");
    assert_eq!(r[3], "ssh -i /keys/id -o StrictHostKeyChecking=no -o UserKnownHostsFile=/dev/null -o LogLevel=ERROR");
    assert_eq!(r[4], "ec2-user@1.2.3.4:/data/");
    assert_eq!(r[5], "./out");
    let c = a.scp_args("./a.bin", "/tmp/a.bin");
    assert_eq!(c.len(), 10);
    assert_eq!(c[9], "ec2-user@1.2.3.4:/tmp/a.bin");
}

#[test]
fn readiness_probing() {
    let a = SshSession::for_aws("1.2.3.4", "/k");
    match a.readiness_probe() {
        ReadinessProbe::TcpConnect { address } => assert_eq!(address, "1.2.3.4:22"),
        _ => panic!("expected a TCP probe"),
    }
    let w = SshSession::for_aws_worker("10.0.0.11", "1.2.3.4", "/k");
    assert!(matches!(w.readiness_probe(), ReadinessProbe::SshCommand));
    assert_eq!(readiness_step(false, None), ReadinessStep::Probe);
    assert_eq!(readiness_step(true, None), ReadinessStep::TimedOut);
    assert_eq!(readiness_step(true, Some(true)), ReadinessStep::Ready);
    assert_eq!(readiness_step(false, Some(false)), ReadinessStep::Retry);
}

#[test]
fn tmux_job_files_and_commands() {
    let j = TmuxJob::new("job1");
    assert_eq!(j.script_path, "/tmp/hpcac_job1.sh");
    assert_eq!(j.log_path, "/tmp/hpcac_job1.log");
    assert_eq!(j.exit_path, "/tmp/hpcac_job1.sh.exit");
    assert_eq!(j.wrapper_path, "/tmp/hpcac_job1_wrapper.sh");
    assert_eq!(
        j.wrapper_script(),
        "#!/bin/bash\n/tmp/hpcac_job1.sh 2>&1 | tee /tmp/hpcac_job1.log\necho ${PIPESTATUS[0]} > /tmp/hpcac_job1.sh.exit\n"
    );
    assert_eq!(
        j.launch_command(),
        "chmod +x /tmp/hpcac_job1.sh /tmp/hpcac_job1_wrapper.sh && tmux kill-session -t job1 2>/dev/null; true && tmux new-session -d -s job1 /tmp/hpcac_job1_wrapper.sh"
    );
    assert_eq!(tmux_exit_code_command("job1"), "cat /tmp/hpcac_job1.sh.exit 2>/dev/null || echo 1");
    assert_eq!(tmux_has_session_command("job1"), "tmux has-session -t job1 2>/dev/null && echo running || echo done");
}

#[test]
fn tmux_outputs() {
    assert_eq!(parse_tmux_exit_code("0\n"), 0);
    assert_eq!(parse_tmux_exit_code(" 137 "), 137);
    assert_eq!(parse_tmux_exit_code("garbage"), 1);
    assert!(tmux_session_running("running\n"));
    assert!(!tmux_session_running("done\n"));
    assert_eq!(tmux_poll(Some(false)), TmuxPoll::Finished);
    assert_eq!(tmux_poll(Some(true)), TmuxPoll::StillRunning);
    assert_eq!(tmux_poll(None), TmuxPoll::Transient);
    assert_eq!(elapsed_clock(0), "00:00");
    assert_eq!(elapsed_clock(3725), "01:02");
    assert_eq!(elapsed_clock(36000 + 59 * 60), "10:59");
}

fn var(k: &str, v: &str) -> ConfigVar {
    ConfigVar { key: s(k), value: s(v) }
}

#[test]
fn configuration_lookup() {
    let vars = vec![var("A", "1"), var("B", "2"), var("A", "3")];
    assert_eq!(get_value(&vars, "A").map(|v| v.as_str()), Some("1"));
    assert_eq!(get_value(&vars, "C"), None);
}

#[test]
fn spot_node_detection() {
    let n = |mode: &str| Node {
        id: s("n"),
        instance_type: s("t3.micro"),
        image_id: s("ami"),
        allocation_mode: s(mode),
        root_volume_gb: 8,
        root_volume_type: s("gp2"),
        root_volume_iops: None,
        burstable_mode: None,
        was_efs_configured: false,
        private_ip: None,
        public_ip: None,
    };
    assert!(has_spot_nodes(&vec![n("on-demand"), n("spot")]));
    assert!(!has_spot_nodes(&vec![n("on-demand")]));
    assert!(!has_spot_nodes(&vec![]));
}

#[test]
fn vultr_authorization() {
    let v = VultrInterface { config_vars: vec![var("API_KEY", "SECRET-REDACTED")] };
    assert_eq!(v.authorization_header().ok(), Some(s("Bearer SECRET-REDACTED")));
    let none = VultrInterface { config_vars: vec![] };
    assert!(matches!(none.authorization_header(), Err(VultrError::MissingApiKey)));
    let bad = VultrInterface { config_vars: vec![var("API_KEY", "line\nbreak")] };
    assert!(matches!(bad.authorization_header(), Err(VultrError::InvalidAuthorizationHeader)));
    assert_eq!(VultrInterface::api_url("/regions"), "https://api.vultr.com/v2/regions");
    assert_eq!(VULTR_API_BASE_URL, "https://api.vultr.com/v2");
}

#[test]
fn vultr_regions_and_zones() {
    let doc = parse_json("{\"regions\":[{\"id\":\"ewr\"},{\"city\":\"x\"},{\"id\":\"fra\"}]}").unwrap();
    let ids = region_ids(&doc).ok().unwrap();
    assert_eq!(ids, vec![s("ewr"), s("fra")]);
    let missing = parse_json("{\"meta\":{}}").unwrap();
    match region_ids(&missing) {
        Err(VultrError::MissingArray { field }) => assert_eq!(field, "regions"),
        _ => panic!("expected a missing array"),
    }
    assert_eq!(zones_for_region(&ids, "fra").ok(), Some(vec![s("fra")]));
    match zones_for_region(&ids, "mars") {
        Err(VultrError::InvalidRegion { region }) => assert_eq!(region, "mars"),
        _ => panic!("expected an invalid region"),
    }
}

#[test]
fn cpu_vendor_from_lowercase_name() {
    assert_eq!(cpu_vendor("vc2-1c-1gb-amd"), "AMD");
    assert_eq!(cpu_vendor("vhf-intel-amd"), "AMD");
    assert_eq!(cpu_vendor("vhf-2c-intel"), "Intel");
    assert_eq!(cpu_vendor("vc2-1c-1gb"), "Unspecified");
    assert_eq!(cpu_vendor("AMD"), "Unspecified");
}

#[test]
fn memory_conversion() {
    assert_eq!(megabytes_to_mebibytes(1024), 977);
    assert_eq!(megabytes_to_mebibytes(2048), 1953);
    assert_eq!(megabytes_to_mebibytes(0), 0);
    assert_eq!(megabytes_to_mebibytes(-1024), -977);
    assert_eq!(megabytes_to_mebibytes(1), 1);
}

#[test]
fn vultr_virtual_plan() {
    let plan = parse_json(
        "{\"id\":\"vc2-1c-1gb-AMD\",\"vcpu_count\":1,\"ram\":1024,\"hourly_cost\":0.007,\"locations\":[\"ewr\",\"fra\"]}",
    )
    .unwrap();
    let p = vultr_plan(&plan, "fra", false).unwrap().ok().unwrap();
    let t = &p.instance_type;
    assert_eq!(t.name, "vc2-1c-1gb-AMD");
    assert_eq!(t.cpu_type, "AMD");
    assert_eq!(t.vcpus, 1);
    assert_eq!(t.memory_in_mib, 977);
    assert_eq!(t.cpu_architecture, "x86_64");
    assert_eq!(t.core_count, None);
    assert!(!t.is_baremetal);
    assert_eq!(t.provider_id, "vultr");
    assert_eq!(t.gpu_count, 0);
    assert_eq!(p.hourly_cost, Some(s("0.007")));
    assert!(vultr_plan(&plan, "sjc", false).is_none());
    let intel = parse_json("{\"id\":\"vhf-INTEL\",\"vcpu_count\":2,\"ram\":2048,\"locations\":[\"ewr\"],\"gpu_type\":\"A16\"}").unwrap();
    let p = vultr_plan(&intel, "ewr", false).unwrap().ok().unwrap();
    assert_eq!(p.instance_type.cpu_type, "Intel");
    assert_eq!(p.instance_type.gpu_count, 1);
    assert_eq!(p.instance_type.gpu_type, Some(s("A16")));
    assert_eq!(p.hourly_cost, None);
}

#[test]
fn vultr_metal_plan_and_skips() {
    let plan = parse_json(
        "{\"id\":\"vbm-4c-32gb\",\"cpu_threads\":8,\"cpu_cores\":4,\"cpu_manufacturer\":\"Intel\",\"cpu_model\":\"E3-1270v6 \\\"Kaby\\\"\",\"ram\":32768,\"locations\":[\"ewr\"]}",
    )
    .unwrap();
    let p = vultr_plan(&plan, "ewr", true).unwrap().ok().unwrap();
    assert_eq!(p.instance_type.vcpus, 8);
    assert_eq!(p.instance_type.core_count, Some(4));
    assert_eq!(p.instance_type.cpu_type, "Intel E3-1270v6 Kaby");
    assert!(p.instance_type.is_baremetal);
    let bare = parse_json("{\"id\":\"x\",\"cpu_threads\":2,\"ram\":1000,\"locations\":[\"ewr\"]}").unwrap();
    assert_eq!(vultr_plan(&bare, "ewr", true).unwrap().ok().unwrap().instance_type.cpu_type, "Unspecified");
    let no_id = parse_json("{\"vcpu_count\":1,\"ram\":1024,\"locations\":[\"ewr\"]}").unwrap();
    assert!(matches!(vultr_plan(&no_id, "ewr", false), Some(Err(VultrPlanSkip::NoId))));
    let no_cpu = parse_json("{\"id\":\"p\",\"ram\":1024,\"locations\":[\"ewr\"]}").unwrap();
    assert!(matches!(vultr_plan(&no_cpu, "ewr", false), Some(Err(VultrPlanSkip::MissingVcpus { .. }))));
    let no_ram = parse_json("{\"id\":\"p\",\"vcpu_count\":1,\"locations\":[\"ewr\"]}").unwrap();
    assert!(matches!(vultr_plan(&no_ram, "ewr", false), Some(Err(VultrPlanSkip::MissingMemory { .. }))));
}

#[test]
fn vultr_plan_listings() {
    let doc = parse_json(
        "{\"plans\":[{\"id\":\"a\",\"vcpu_count\":1,\"ram\":1024,\"locations\":[\"ewr\"]},{\"id\":\"b\",\"vcpu_count\":1,\"ram\":1024,\"locations\":[\"fra\"]},{\"id\":\"c\",\"vcpu_count\":2,\"ram\":4096,\"locations\":[\"ewr\"]}]}",
    )
    .unwrap();
    let plans = vultr_plans(&doc, "ewr", false).ok().unwrap();
    let names: Vec<&str> = plans.iter().map(|p| p.instance_type.name.as_str()).collect();
    assert_eq!(names, vec!["a", "c"]);
    match vultr_plans(&doc, "ewr", true) {
        Err(VultrError::MissingArray { field }) => assert_eq!(field, "plans_metal"),
        _ => panic!("expected a missing array"),
    }
}

#[test]
fn providers() {
    let p = CloudProvider::Gcp(GcpInterface { config_vars: vec![] });
    assert!(matches!(p, CloudProvider::Gcp(_)));
    let v = CloudProvider::Vultr(VultrInterface { config_vars: vec![var("API_KEY", "k")] });
    match v {
        CloudProvider::Vultr(i) => assert_eq!(i.authorization_header().ok(), Some(s("Bearer k"))),
        _ => panic!("expected vultr"),
    }
}
