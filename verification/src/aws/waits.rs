//! The deadlines and poll intervals of the waits in a cluster's life: for
//! the instances to come up and to go away, for the EFS device and its
//! mount target, and for the nodes to answer over SSH.

use vstd::prelude::*;

verus! {

/// How long a wait may run, and how long it sleeps between two polls.
#[derive(Debug, Clone, Copy, PartialEq, Eq, Structural)]
pub struct WaitSchedule {
    pub limit_secs: u64,
    pub poll_secs: u64,
}

/// Waits of a cluster's life.
#[derive(Debug, Clone, Copy, PartialEq, Eq, Structural)]
pub enum WaitKind {
    /// The instances pass their status checks after launch.
    InstancesAvailable,
    /// The instances are terminated.
    InstancesTerminated,
    /// The EFS device is available after creation.
    EfsDeviceReady,
    /// The EFS device is deleted.
    EfsDeviceDeleted,
    /// The EFS device is available once its mount target was requested.
    MountTargetReady,
    /// The EFS mount targets are deleted.
    MountTargetsDeleted,
    /// The instances of one node, whose cleanup was requested, are
    /// terminated.
    NodeInstancesTerminated,
    /// A node accepts SSH connections.
    NodeSshReady,
}

/// The schedule of each wait: ten minutes polled every fifteen seconds for
/// the instances to come up, fifteen minutes polled every ten for them to
/// go away, five minutes polled every ten for the EFS device, its mount
/// targets and the instances of a single node, five minutes polled every
/// five for SSH.
pub open spec fn schedule_of(kind: WaitKind) -> WaitSchedule {
    match kind {
        WaitKind::InstancesAvailable => WaitSchedule { limit_secs: 600, poll_secs: 15 },
        WaitKind::InstancesTerminated => WaitSchedule { limit_secs: 900, poll_secs: 10 },
        WaitKind::NodeSshReady => WaitSchedule { limit_secs: 300, poll_secs: 5 },
        _ => WaitSchedule { limit_secs: 300, poll_secs: 10 },
    }
}

/// The schedule of the wait `kind`.
pub fn wait_schedule(kind: WaitKind) -> (s: WaitSchedule)
    ensures
        s == schedule_of(kind),
{
    match kind {
        WaitKind::InstancesAvailable => WaitSchedule { limit_secs: 600, poll_secs: 15 },
        WaitKind::InstancesTerminated => WaitSchedule { limit_secs: 900, poll_secs: 10 },
        WaitKind::NodeSshReady => WaitSchedule { limit_secs: 300, poll_secs: 5 },
        _ => WaitSchedule { limit_secs: 300, poll_secs: 10 },
    }
}

/// Seconds between two looks at whether the network interfaces of replaced
/// nodes were released.
pub const INTERFACE_RELEASE_POLL_SECS: u64 = 5;

/// What a wait does at the top of each round.
#[derive(Debug, Clone, Copy, PartialEq, Eq, Structural)]
pub enum WaitStep {
    /// Time is left: poll once more.
    Poll,
    /// The deadline has passed: give up.
    TimedOut,
}

/// The step of a wait that has run `elapsed_secs` whole seconds under
/// `schedule`: it gives up once the elapsed time reaches the limit, before
/// polling again. Whole seconds decide as the exact time would, since the
/// limit is a whole number of seconds.
pub fn wait_step(schedule: WaitSchedule, elapsed_secs: u64) -> (s: WaitStep)
    ensures
        s == (if elapsed_secs >= schedule.limit_secs {
            WaitStep::TimedOut
        } else {
            WaitStep::Poll
        }),
{
    if elapsed_secs >= schedule.limit_secs {
        WaitStep::TimedOut
    } else {
        WaitStep::Poll
    }
}

} // verus!
