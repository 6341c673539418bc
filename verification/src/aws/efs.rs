//! Decisions for the cluster's Elastic File System device and its mount
//! target.

use vstd::prelude::*;
use crate::aws::context::AwsClusterContext;
use crate::aws::network::opt_view;

verus! {

/// Life-cycle state of an EFS device or mount target.
#[derive(Debug, Clone, Copy, PartialEq, Eq, Structural)]
pub enum EfsLifeCycle {
    Creating,
    Available,
    Updating,
    Deleting,
    Deleted,
    Error,
    Other,
}

/// What the cluster logic reads of an EFS device.
pub struct FileSystemRecord {
    pub file_system_id: String,
    pub life_cycle_state: EfsLifeCycle,
}

/// What the cluster logic reads of an EFS mount target.
pub struct MountTargetRecord {
    pub mount_target_id: String,
    pub subnet_id: String,
}

/// What to do about the cluster's EFS device, from the devices found under
/// the cluster's creation token.
pub enum EfsDeviceDecision {
    Create,
    Reuse { file_system_id: String },
    /// More than one device: a failure.
    Ambiguous,
}

/// What `efs_device_decision` answers on the devices found.
pub open spec fn efs_device_outcome(devices: Seq<FileSystemRecord>, r: EfsDeviceDecision) -> bool {
    match r {
        EfsDeviceDecision::Create => devices.len() == 0,
        EfsDeviceDecision::Reuse { file_system_id } => devices.len() == 1 && file_system_id@
            == devices[0].file_system_id@,
        EfsDeviceDecision::Ambiguous => devices.len() > 1,
    }
}

/// Decides about the cluster's EFS device: none found, create one; exactly
/// one, reuse it; more, fail.
pub fn efs_device_decision(devices: &Vec<FileSystemRecord>) -> (r: EfsDeviceDecision)
    ensures
        efs_device_outcome(devices@, r),
{
    if devices.len() == 0 {
        EfsDeviceDecision::Create
    } else if devices.len() == 1 {
        EfsDeviceDecision::Reuse { file_system_id: devices[0].file_system_id.clone() }
    } else {
        EfsDeviceDecision::Ambiguous
    }
}

/// EFS performance mode.
#[derive(Debug, Clone, Copy, PartialEq, Eq, Structural)]
pub enum EfsPerformanceMode {
    GeneralPurpose,
    MaxIo,
}

/// EFS throughput mode.
#[derive(Debug, Clone, Copy, PartialEq, Eq, Structural)]
pub enum EfsThroughputMode {
    Bursting,
    Provisioned,
    Elastic,
}

/// The performance mode named by a cluster setting: "max_io", or general
/// purpose for anything else.
pub fn efs_performance_mode(setting: &String) -> (m: EfsPerformanceMode)
    ensures
        m == (if setting@ == "max_io"@ {
            EfsPerformanceMode::MaxIo
        } else {
            EfsPerformanceMode::GeneralPurpose
        }),
{
    let max_io = String::from_str("max_io");
    if *setting == max_io {
        EfsPerformanceMode::MaxIo
    } else {
        EfsPerformanceMode::GeneralPurpose
    }
}

/// The throughput mode named by a cluster setting: "provisioned",
/// "elastic", or bursting for anything else.
pub fn efs_throughput_mode(setting: &String) -> (m: EfsThroughputMode)
    ensures
        m == (if setting@ == "provisioned"@ {
            EfsThroughputMode::Provisioned
        } else if setting@ == "elastic"@ {
            EfsThroughputMode::Elastic
        } else {
            EfsThroughputMode::Bursting
        }),
{
    let provisioned = String::from_str("provisioned");
    let elastic = String::from_str("elastic");
    if *setting == provisioned {
        EfsThroughputMode::Provisioned
    } else if *setting == elastic {
        EfsThroughputMode::Elastic
    } else {
        EfsThroughputMode::Bursting
    }
}

/// The request that creates the cluster's EFS device.
pub struct EfsDevicePlan {
    /// The idempotency token: the cluster id.
    pub creation_token: String,
    /// One-zone storage in this zone, or regional storage.
    pub availability_zone: Option<String>,
    pub performance_mode: EfsPerformanceMode,
    pub throughput_mode: EfsThroughputMode,
    pub name: String,
    pub cluster_tag_key: String,
    pub cluster_tag_value: String,
}

/// Plans the creation of the cluster's EFS device: created under the
/// cluster id as token, in the cluster's zone when one is set, with the
/// cluster's performance and throughput modes, named `<cluster>-EFS`.
pub fn plan_efs_device(context: &AwsClusterContext) -> (p: EfsDevicePlan)
    ensures
        p.creation_token@ == context.efs_token(),
        p.creation_token@ == context.cluster_id@,
        opt_view(p.availability_zone) == (if context.availability_zone@.len() == 0 {
            None
        } else {
            Some(context.availability_zone@)
        }),
        p.performance_mode == (if context.efs_performance_mode@ == "max_io"@ {
            EfsPerformanceMode::MaxIo
        } else {
            EfsPerformanceMode::GeneralPurpose
        }),
        p.throughput_mode == (if context.efs_throughput_mode@ == "provisioned"@ {
            EfsThroughputMode::Provisioned
        } else if context.efs_throughput_mode@ == "elastic"@ {
            EfsThroughputMode::Elastic
        } else {
            EfsThroughputMode::Bursting
        }),
        p.name@ == context.efs_device_name@,
        p.cluster_tag_key@ == context.cluster_id_tag.key@,
        p.cluster_tag_value@ == context.cluster_id_tag.value@,
{
    let zone = if context.availability_zone.as_str().is_empty() {
        None
    } else {
        Some(context.availability_zone.clone())
    };
    EfsDevicePlan {
        creation_token: context.efs_creation_token(),
        availability_zone: zone,
        performance_mode: efs_performance_mode(&context.efs_performance_mode),
        throughput_mode: efs_throughput_mode(&context.efs_throughput_mode),
        name: context.efs_device_name.clone(),
        cluster_tag_key: context.cluster_id_tag.key.clone(),
        cluster_tag_value: context.cluster_id_tag.value.clone(),
    }
}

/// The next step of a wait for an EFS device to reach a life-cycle state.
pub enum EfsWaitStep {
    /// The device reached the state.
    Reached,
    /// Not yet: wait and poll again.
    Retry,
    /// The description came back empty: a failure.
    Missing,
}

/// Decides on one poll of a wait for the EFS device to reach `target`
/// (available after creation, deleted after deletion): the first device of
/// the description decides.
pub fn efs_wait_step(devices: &Vec<FileSystemRecord>, target: EfsLifeCycle) -> (r: EfsWaitStep)
    ensures
        devices@.len() == 0 ==> r is Missing,
        devices@.len() > 0 && devices@[0].life_cycle_state == target ==> r is Reached,
        devices@.len() > 0 && devices@[0].life_cycle_state != target ==> r is Retry,
{
    if devices.len() == 0 {
        EfsWaitStep::Missing
    } else if devices[0].life_cycle_state == target {
        EfsWaitStep::Reached
    } else {
        EfsWaitStep::Retry
    }
}

/// The first mount target that lies in the subnet.
pub open spec fn target_in_subnet(t: Seq<MountTargetRecord>, subnet_id: Seq<char>) -> Option<
    Seq<char>,
>
    decreases t.len(),
{
    if t.len() == 0 {
        None
    } else if t[0].subnet_id@ == subnet_id {
        Some(t[0].mount_target_id@)
    } else {
        target_in_subnet(t.drop_first(), subnet_id)
    }
}

/// The existing mount target of the EFS device in the cluster subnet, to be
/// reused; a mount target in another subnet is passed over.
pub fn mount_target_in_subnet(targets: &Vec<MountTargetRecord>, subnet_id: &String) -> (r: Option<
    String,
>)
    ensures
        opt_view(r) == target_in_subnet(targets@, subnet_id@),
{
    let mut i: usize = 0;
    assert(targets@.skip(0) =~= targets@);
    while i < targets.len()
        invariant
            i <= targets.len(),
            target_in_subnet(targets@, subnet_id@) == target_in_subnet(
                targets@.skip(i as int),
                subnet_id@,
            ),
        decreases targets.len() - i,
    {
        let ghost rest = targets@.skip(i as int);
        assert(rest.drop_first() =~= targets@.skip(i + 1));
        assert(rest[0] == targets@[i as int]);
        if targets[i].subnet_id == *subnet_id {
            return Some(targets[i].mount_target_id.clone());
        }
        i = i + 1;
    }
    None
}

/// The request that creates the mount target.
pub struct MountTargetPlan {
    pub file_system_id: String,
    pub subnet_id: String,
    pub security_group_id: String,
}

/// Plans the mount target of the cluster's EFS device: in the cluster
/// subnet, guarded by the first cluster security group.
pub fn plan_mount_target(context: &AwsClusterContext) -> (p: MountTargetPlan)
    requires
        context.efs_device_id is Some,
        context.subnet_id is Some,
        context.security_group_ids@.len() > 0,
    ensures
        p.file_system_id@ == context.efs_device_id.unwrap()@,
        p.subnet_id@ == context.subnet_id.unwrap()@,
        p.security_group_id@ == context.security_group_ids@[0]@,
{
    let fs = match &context.efs_device_id {
        Some(x) => x.clone(),
        None => String::new(),
    };
    let subnet = match &context.subnet_id {
        Some(x) => x.clone(),
        None => String::new(),
    };
    MountTargetPlan {
        file_system_id: fs,
        subnet_id: subnet,
        security_group_id: context.security_group_ids[0].clone(),
    }
}

/// The DNS name under which the cluster's EFS device is mounted.
pub fn efs_dns_name(file_system_id: &String, region: &String) -> (r: String)
    ensures
        r@ == file_system_id@ + ".efs."@ + region@ + ".amazonaws.com"@,
{
    let mut r = file_system_id.clone();
    r.append(".efs.");
    r.append(region.as_str());
    r.append(".amazonaws.com");
    r
}

/// Whether the wait for the mount targets to be deleted is over: no device
/// is left, or no device has a mount target left (`mount_target_counts`
/// holds, per device found, the number of its mount targets).
pub fn mount_targets_deleted(mount_target_counts: &Vec<usize>) -> (b: bool)
    ensures
        b == forall|k: int| 0 <= k < mount_target_counts@.len() ==> #[trigger] mount_target_counts@[k]
            == 0,
{
    let mut i: usize = 0;
    while i < mount_target_counts.len()
        invariant
            i <= mount_target_counts.len(),
            forall|k: int| 0 <= k < i ==> #[trigger] mount_target_counts@[k] == 0,
        decreases mount_target_counts.len() - i,
    {
        if mount_target_counts[i] != 0 {
            return false;
        }
        i = i + 1;
    }
    true
}

/// Running the EFS step again, when the lookup under the cluster's creation
/// token finds the one device an earlier run created, keeps that device:
/// no second device is created.
pub proof fn lemma_efs_rerun_reuses(devices: Seq<FileSystemRecord>, r: EfsDeviceDecision)
    requires
        devices.len() == 1,
        efs_device_outcome(devices, r),
    ensures
        r matches EfsDeviceDecision::Reuse { file_system_id } && file_system_id@
            == devices[0].file_system_id@,
{
}

} // verus!
