//! The order of operations that spawns and terminates a cluster on AWS, and
//! the progress totals shown while they run.

use vstd::prelude::*;
use crate::cluster::{Cluster, ClusterState, Node, has_spot_nodes};

verus! {

/// One operation of a cluster spawn or termination.
#[derive(Debug, Clone, Copy, PartialEq, Eq, Structural)]
pub enum LifecycleStep {
    SetClusterState(ClusterState),
    RequestEfsDevice,
    CreateVpc,
    CreateSubnet,
    CreateInternetGateway,
    CreateRouteTable,
    CreateSecurityGroup,
    WaitEfsDeviceReady,
    RequestEfsMountTarget,
    ImportSshKey,
    CreatePlacementGroup,
    CreateNetworkInterface(usize),
    AllocateElasticIp(usize),
    AssociateElasticIp(usize),
    /// Record the node's addresses, as `AwsClusterContext::recorded_addresses`
    /// gives them (after the head node's Elastic IP is associated).
    RecordNodeAddresses(usize),
    RequestInstance(usize),
    WaitInstancesAvailable,
    WaitEfsMountTargetReady,
    WaitForSsh(usize),
    AttachEfs(usize),
    /// The node was configured for EFS by an earlier spawn: nothing to do.
    SkipEfsAttach(usize),
    BaseSetup(usize),
    EnsureSpotInterruptionQueue,
    CleanupSpotInterruptionQueue,
    ClearEfsConfiguration(usize),
    RequestMountTargetDeletion,
    RequestInstanceTermination,
    WaitMountTargetDeleted,
    RequestEfsDeviceDeletion,
    WaitInstancesTerminated,
    ReleaseElasticIp(usize),
    DeleteNetworkInterface(usize),
    DeletePlacementGroup,
    DeleteSshKey,
    DeleteSecurityGroup,
    DeleteRouteTable,
    DeleteInternetGateway,
    DeleteSubnet,
    DeleteVpc,
    WaitEfsDeviceDeleted,
    ResetNode(usize),
}

/// `s` when `c` holds, nothing otherwise.
pub open spec fn when(c: bool, s: Seq<LifecycleStep>) -> Seq<LifecycleStep> {
    if c {
        s
    } else {
        Seq::empty()
    }
}

/// The steps `f(0)`, ..., `f(n - 1)`, in node order.
pub open spec fn per_node(n: nat, f: spec_fn(nat) -> Seq<LifecycleStep>) -> Seq<LifecycleStep>
    decreases n,
{
    if n == 0 {
        Seq::empty()
    } else {
        per_node((n - 1) as nat, f) + f((n - 1) as nat)
    }
}

/// The network steps of one node: its interface, and for the head node
/// (node 0) an Elastic IP associated with it; then its addresses are
/// recorded (workers have a private address only).
pub open spec fn node_network_steps() -> spec_fn(nat) -> Seq<LifecycleStep> {
    |i: nat|
        if i == 0 {
            seq![
                LifecycleStep::CreateNetworkInterface(0),
                LifecycleStep::AllocateElasticIp(0),
                LifecycleStep::AssociateElasticIp(0),
                LifecycleStep::RecordNodeAddresses(0),
            ]
        } else {
            seq![
                LifecycleStep::CreateNetworkInterface(i as usize),
                LifecycleStep::RecordNodeAddresses(i as usize),
            ]
        }
}

/// The operations done once per node, one node after the other.
#[derive(Debug, Clone, Copy, PartialEq, Eq, Structural)]
pub enum PerNodeStep {
    RequestInstance,
    WaitForSsh,
    BaseSetup,
    ClearEfsConfiguration,
    ResetNode,
}

/// The step of kind `kind` for node `i`.
pub open spec fn node_step(kind: PerNodeStep, i: usize) -> LifecycleStep {
    match kind {
        PerNodeStep::RequestInstance => LifecycleStep::RequestInstance(i),
        PerNodeStep::WaitForSsh => LifecycleStep::WaitForSsh(i),
        PerNodeStep::BaseSetup => LifecycleStep::BaseSetup(i),
        PerNodeStep::ClearEfsConfiguration => LifecycleStep::ClearEfsConfiguration(i),
        PerNodeStep::ResetNode => LifecycleStep::ResetNode(i),
    }
}

/// One step of kind `kind` per node.
pub open spec fn one_per_node(kind: PerNodeStep) -> spec_fn(nat) -> Seq<LifecycleStep> {
    |i: nat| seq![node_step(kind, i as usize)]
}

/// The EFS attachment of each node not yet configured for EFS; a node
/// configured already is skipped.
pub open spec fn efs_attach_steps(configured: Seq<bool>) -> spec_fn(nat) -> Seq<LifecycleStep> {
    |i: nat|
        if configured[i as int] {
            seq![LifecycleStep::SkipEfsAttach(i as usize)]
        } else {
            seq![LifecycleStep::AttachEfs(i as usize)]
        }
}

/// The teardown steps of one node: release its Elastic IP, then delete its
/// interface.
pub open spec fn node_teardown_steps() -> spec_fn(nat) -> Seq<LifecycleStep> {
    |i: nat|
        seq![
            LifecycleStep::ReleaseElasticIp(i as usize),
            LifecycleStep::DeleteNetworkInterface(i as usize),
        ]
}

/// The cluster-level resources created before any node resource.
pub open spec fn spawn_network_prefix(efs: bool, affinity: bool) -> Seq<LifecycleStep> {
    when(efs, seq![LifecycleStep::RequestEfsDevice]) + seq![
        LifecycleStep::CreateVpc,
        LifecycleStep::CreateSubnet,
        LifecycleStep::CreateInternetGateway,
        LifecycleStep::CreateRouteTable,
        LifecycleStep::CreateSecurityGroup,
    ] + when(efs, seq![LifecycleStep::WaitEfsDeviceReady, LifecycleStep::RequestEfsMountTarget])
        + seq![LifecycleStep::ImportSshKey] + when(
        affinity,
        seq![LifecycleStep::CreatePlacementGroup],
    )
}

/// The steps of a cluster spawn, in order.
pub open spec fn spawn_steps(
    state: ClusterState,
    efs: bool,
    affinity: bool,
    configured: Seq<bool>,
    any_spot: bool,
) -> Seq<LifecycleStep> {
    let n = configured.len();
    let restore = state == ClusterState::Running;
    seq![
        LifecycleStep::SetClusterState(
            if restore {
                ClusterState::Restoring
            } else {
                ClusterState::Spawning
            },
        ),
    ] + spawn_network_prefix(efs, affinity) + per_node(n, node_network_steps()) + per_node(
        n,
        one_per_node(PerNodeStep::RequestInstance),
    ) + seq![LifecycleStep::WaitInstancesAvailable] + when(
        efs,
        seq![LifecycleStep::WaitEfsMountTargetReady],
    ) + per_node(n, one_per_node(PerNodeStep::WaitForSsh)) + when(
        efs,
        per_node(n, efs_attach_steps(configured)),
    ) + per_node(n, one_per_node(PerNodeStep::BaseSetup)) + seq![
        LifecycleStep::SetClusterState(ClusterState::Running),
    ] + when(!restore && any_spot, seq![LifecycleStep::EnsureSpotInterruptionQueue])
}

/// The cluster-level resources deleted after every node resource.
pub open spec fn teardown_network_suffix(efs: bool, affinity: bool) -> Seq<LifecycleStep> {
    when(affinity, seq![LifecycleStep::DeletePlacementGroup]) + seq![
        LifecycleStep::DeleteSshKey,
        LifecycleStep::DeleteSecurityGroup,
        LifecycleStep::DeleteRouteTable,
        LifecycleStep::DeleteInternetGateway,
        LifecycleStep::DeleteSubnet,
        LifecycleStep::DeleteVpc,
    ] + when(efs, seq![LifecycleStep::WaitEfsDeviceDeleted])
}

/// The steps of a cluster termination, in order.
pub open spec fn teardown_steps(efs: bool, affinity: bool, n: nat, any_spot: bool) -> Seq<
    LifecycleStep,
> {
    when(any_spot, seq![LifecycleStep::CleanupSpotInterruptionQueue]) + seq![
        LifecycleStep::SetClusterState(ClusterState::Terminating),
    ] + per_node(n, one_per_node(PerNodeStep::ClearEfsConfiguration)) + when(
        efs,
        seq![LifecycleStep::RequestMountTargetDeletion],
    ) + seq![LifecycleStep::RequestInstanceTermination] + when(
        efs,
        seq![LifecycleStep::WaitMountTargetDeleted, LifecycleStep::RequestEfsDeviceDeletion],
    ) + seq![LifecycleStep::WaitInstancesTerminated] + per_node(n, node_teardown_steps())
        + teardown_network_suffix(efs, affinity) + per_node(
        n,
        one_per_node(PerNodeStep::ResetNode),
    ) + seq![LifecycleStep::SetClusterState(ClusterState::Pending)]
}

/// Whether each node was already configured for EFS.
pub open spec fn efs_flags(nodes: Seq<Node>) -> Seq<bool> {
    nodes.map_values(|n: Node| n.was_efs_configured)
}

/// Whether some node is allocated on the spot market.
pub open spec fn any_spot(nodes: Seq<Node>) -> bool {
    exists|i: int| 0 <= i < nodes.len() && #[trigger] nodes[i].allocation_mode@ == "spot"@
}

fn push_all(v: &mut Vec<LifecycleStep>, s: &[LifecycleStep])
    ensures
        final(v)@ == old(v)@ + s@,
{
    let mut i: usize = 0;
    while i < s.len()
        invariant
            i <= s.len(),
            v@ == old(v)@ + s@.take(i as int),
        decreases s.len() - i,
    {
        v.push(s[i]);
        assert(s@.take(i + 1) =~= s@.take(i as int).push(s@[i as int]));
        i = i + 1;
    }
    assert(s@.take(s@.len() as int) =~= s@);
}

fn push_per_node(v: &mut Vec<LifecycleStep>, n: usize, kind: PerNodeStep)
    ensures
        final(v)@ == old(v)@ + per_node(n as nat, one_per_node(kind)),
{
    let mut i: usize = 0;
    while i < n
        invariant
            i <= n,
            v@ == old(v)@ + per_node(i as nat, one_per_node(kind)),
        decreases n - i,
    {
        let step = match kind {
            PerNodeStep::RequestInstance => LifecycleStep::RequestInstance(i),
            PerNodeStep::WaitForSsh => LifecycleStep::WaitForSsh(i),
            PerNodeStep::BaseSetup => LifecycleStep::BaseSetup(i),
            PerNodeStep::ClearEfsConfiguration => LifecycleStep::ClearEfsConfiguration(i),
            PerNodeStep::ResetNode => LifecycleStep::ResetNode(i),
        };
        v.push(step);
        assert(per_node((i + 1) as nat, one_per_node(kind)) =~= per_node(i as nat, one_per_node(kind))
            + seq![node_step(kind, i)]);
        i = i + 1;
    }
}

fn push_node_network(v: &mut Vec<LifecycleStep>, n: usize)
    ensures
        final(v)@ == old(v)@ + per_node(n as nat, node_network_steps()),
{
    let mut i: usize = 0;
    while i < n
        invariant
            i <= n,
            v@ == old(v)@ + per_node(i as nat, node_network_steps()),
        decreases n - i,
    {
        let ghost before = v@;
        v.push(LifecycleStep::CreateNetworkInterface(i));
        if i == 0 {
            v.push(LifecycleStep::AllocateElasticIp(0));
            v.push(LifecycleStep::AssociateElasticIp(0));
        }
        v.push(LifecycleStep::RecordNodeAddresses(i));
        assert(v@ =~= before + node_network_steps()(i as nat));
        assert(per_node((i + 1) as nat, node_network_steps()) =~= per_node(
            i as nat,
            node_network_steps(),
        ) + node_network_steps()(i as nat));
        i = i + 1;
    }
}

fn push_efs_attachments(v: &mut Vec<LifecycleStep>, nodes: &Vec<Node>)
    ensures
        final(v)@ == old(v)@ + per_node(nodes@.len(), efs_attach_steps(efs_flags(nodes@))),
{
    let ghost configured = efs_flags(nodes@);
    let n = nodes.len();
    let mut k: usize = 0;
    while k < n
        invariant
            k <= n,
            n == nodes@.len(),
            configured == efs_flags(nodes@),
            v@ == old(v)@ + per_node(k as nat, efs_attach_steps(configured)),
        decreases n - k,
    {
        let ghost at = v@;
        if nodes[k].was_efs_configured {
            v.push(LifecycleStep::SkipEfsAttach(k));
        } else {
            v.push(LifecycleStep::AttachEfs(k));
        }
        assert(configured[k as int] == nodes@[k as int].was_efs_configured);
        assert(v@ =~= at + efs_attach_steps(configured)(k as nat));
        assert(per_node((k + 1) as nat, efs_attach_steps(configured)) =~= per_node(
            k as nat,
            efs_attach_steps(configured),
        ) + efs_attach_steps(configured)(k as nat));
        k = k + 1;
    }
}

fn push_network_prefix(v: &mut Vec<LifecycleStep>, efs: bool, affinity: bool)
    ensures
        final(v)@ == old(v)@ + spawn_network_prefix(efs, affinity),
{
    let ghost start = v@;
    if efs {
        v.push(LifecycleStep::RequestEfsDevice);
    }
    push_all(
        v,
        &[
            LifecycleStep::CreateVpc,
            LifecycleStep::CreateSubnet,
            LifecycleStep::CreateInternetGateway,
            LifecycleStep::CreateRouteTable,
            LifecycleStep::CreateSecurityGroup,
        ],
    );
    if efs {
        v.push(LifecycleStep::WaitEfsDeviceReady);
        v.push(LifecycleStep::RequestEfsMountTarget);
    }
    v.push(LifecycleStep::ImportSshKey);
    if affinity {
        v.push(LifecycleStep::CreatePlacementGroup);
    }
    assert(v@ =~= start + spawn_network_prefix(efs, affinity));
}

/// The order of operations of a spawn: the cluster is marked restoring
/// when it was running (spawning otherwise); the cluster network comes
/// first; each node gets an interface, and only the head node (node 0) an
/// Elastic IP; then instances, readiness waits, EFS attachment of the nodes
/// not yet configured, base setup, the running state, and, for a first spawn
/// with spot nodes, the spot interruption queue.
pub fn spawn_plan(cluster: &Cluster, nodes: &Vec<Node>) -> (r: Vec<LifecycleStep>)
    ensures
        r@ == spawn_steps(
            cluster.state,
            cluster.use_elastic_file_system,
            cluster.use_node_affinity,
            efs_flags(nodes@),
            any_spot(nodes@),
        ),
        ssh_ready_before_node_setup(r@, cluster.use_elastic_file_system, efs_flags(nodes@)),
{
    let efs = cluster.use_elastic_file_system;
    let affinity = cluster.use_node_affinity;
    let restore = cluster.state == ClusterState::Running;
    let n = nodes.len();
    let ghost configured = efs_flags(nodes@);
    assert(configured.len() == n);
    let mut v: Vec<LifecycleStep> = Vec::new();
    v.push(
        LifecycleStep::SetClusterState(
            if restore {
                ClusterState::Restoring
            } else {
                ClusterState::Spawning
            },
        ),
    );
    let ghost s0 = v@;
    push_network_prefix(&mut v, efs, affinity);
    push_node_network(&mut v, n);
    push_per_node(&mut v, n, PerNodeStep::RequestInstance);
    v.push(LifecycleStep::WaitInstancesAvailable);
    let ghost s1 = v@;
    if efs {
        v.push(LifecycleStep::WaitEfsMountTargetReady);
    }
    assert(v@ =~= s1 + when(efs, seq![LifecycleStep::WaitEfsMountTargetReady]));
    push_per_node(&mut v, n, PerNodeStep::WaitForSsh);
    let ghost s2 = v@;
    if efs {
        push_efs_attachments(&mut v, nodes);
    }
    assert(v@ =~= s2 + when(efs, per_node(n as nat, efs_attach_steps(configured))));
    push_per_node(&mut v, n, PerNodeStep::BaseSetup);
    v.push(LifecycleStep::SetClusterState(ClusterState::Running));
    let ghost s3 = v@;
    let spot = has_spot_nodes(nodes);
    if !restore && spot {
        v.push(LifecycleStep::EnsureSpotInterruptionQueue);
    }
    assert(spot == any_spot(nodes@));
    assert(v@ =~= s3 + when(!restore && spot, seq![LifecycleStep::EnsureSpotInterruptionQueue]));
    assert(v@ == spawn_steps(cluster.state, efs, affinity, configured, spot));
    proof {
        lemma_spawn_waits_for_ssh(cluster.state, efs, affinity, configured, spot);
    }
    v
}

/// The order of operations of a termination: the spot interruption queue
/// (for clusters with spot nodes) goes first, then the nodes' EFS flags are
/// cleared, the EFS mount target and the instances are removed, each node's
/// Elastic IP and interface are released, then the cluster network in the
/// reverse of the order it was built, and finally nodes are reset and the
/// cluster returns to the pending state, ready to spawn again.
pub fn teardown_plan(cluster: &Cluster, nodes: &Vec<Node>) -> (r: Vec<LifecycleStep>)
    ensures
        r@ == teardown_steps(
            cluster.use_elastic_file_system,
            cluster.use_node_affinity,
            nodes@.len(),
            any_spot(nodes@),
        ),
        instances_gone_before_node_network(r@, nodes@.len()),
{
    let efs = cluster.use_elastic_file_system;
    let affinity = cluster.use_node_affinity;
    let n = nodes.len();
    let mut v: Vec<LifecycleStep> = Vec::new();
    if has_spot_nodes(nodes) {
        v.push(LifecycleStep::CleanupSpotInterruptionQueue);
    }
    v.push(LifecycleStep::SetClusterState(ClusterState::Terminating));
    push_per_node(&mut v, n, PerNodeStep::ClearEfsConfiguration);
    if efs {
        v.push(LifecycleStep::RequestMountTargetDeletion);
    }
    v.push(LifecycleStep::RequestInstanceTermination);
    if efs {
        v.push(LifecycleStep::WaitMountTargetDeleted);
        v.push(LifecycleStep::RequestEfsDeviceDeletion);
    }
    v.push(LifecycleStep::WaitInstancesTerminated);
    let ghost head = v@;
    let mut i: usize = 0;
    while i < n
        invariant
            i <= n,
            v@ == head + per_node(i as nat, node_teardown_steps()),
        decreases n - i,
    {
        v.push(LifecycleStep::ReleaseElasticIp(i));
        v.push(LifecycleStep::DeleteNetworkInterface(i));
        assert(per_node((i + 1) as nat, node_teardown_steps()) =~= per_node(
            i as nat,
            node_teardown_steps(),
        ) + node_teardown_steps()(i as nat));
        i = i + 1;
    }
    if affinity {
        v.push(LifecycleStep::DeletePlacementGroup);
    }
    push_all(
        &mut v,
        &[
            LifecycleStep::DeleteSshKey,
            LifecycleStep::DeleteSecurityGroup,
            LifecycleStep::DeleteRouteTable,
            LifecycleStep::DeleteInternetGateway,
            LifecycleStep::DeleteSubnet,
            LifecycleStep::DeleteVpc,
        ],
    );
    if efs {
        v.push(LifecycleStep::WaitEfsDeviceDeleted);
    }
    push_per_node(&mut v, n, PerNodeStep::ResetNode);
    v.push(LifecycleStep::SetClusterState(ClusterState::Pending));
    assert(v@ =~= teardown_steps(efs, affinity, n as nat, any_spot(nodes@)));
    proof {
        lemma_teardown_waits_for_instances(efs, affinity, n as nat, any_spot(nodes@));
    }
    v
}


/// Every step of `s` satisfies `p`.
#[verifier::opaque]
pub open spec fn all_steps(s: Seq<LifecycleStep>, p: spec_fn(LifecycleStep) -> bool) -> bool {
    forall|k: int| 0 <= k < s.len() ==> p(#[trigger] s[k])
}

/// The step allocates no Elastic IP for a node other than the head node.
pub open spec fn head_only_address(st: LifecycleStep) -> bool {
    match st {
        LifecycleStep::AllocateElasticIp(i) => i == 0,
        LifecycleStep::AssociateElasticIp(i) => i == 0,
        _ => true,
    }
}

proof fn lemma_all_steps_concat(a: Seq<LifecycleStep>, b: Seq<LifecycleStep>, p: spec_fn(LifecycleStep) -> bool)
    requires
        all_steps(a, p),
        all_steps(b, p),
    ensures
        all_steps(a + b, p),
{
    reveal(all_steps);
    assert forall|k: int| 0 <= k < (a + b).len() implies p(#[trigger] (a + b)[k]) by {
        if k < a.len() {
            assert((a + b)[k] == a[k]);
        } else {
            assert((a + b)[k] == b[k - a.len()]);
        }
    }
}

proof fn lemma_all_steps_per_node(n: nat, f: spec_fn(nat) -> Seq<LifecycleStep>, p: spec_fn(LifecycleStep) -> bool)
    requires
        forall|i: nat| i < n ==> all_steps(#[trigger] f(i), p),
    ensures
        all_steps(per_node(n, f), p),
    decreases n,
{
    if n > 0 {
        lemma_all_steps_per_node((n - 1) as nat, f, p);
        assert(all_steps(f((n - 1) as nat), p));
        lemma_all_steps_concat(per_node((n - 1) as nat, f), f((n - 1) as nat), p);
    } else {
        reveal(all_steps);
    }
}

proof fn lemma_all_steps_when(c: bool, s: Seq<LifecycleStep>, p: spec_fn(LifecycleStep) -> bool)
    requires
        all_steps(s, p),
    ensures
        all_steps(when(c, s), p),
{
    reveal(all_steps);
}

proof fn lemma_per_node_starts_with_first(n: nat, f: spec_fn(nat) -> Seq<LifecycleStep>, j: int)
    requires
        n >= 1,
        0 <= j < f(0).len(),
    ensures
        j < per_node(n, f).len(),
        per_node(n, f)[j] == f(0)[j],
    decreases n,
{
    if n == 1 {
        assert(per_node(0, f) =~= Seq::<LifecycleStep>::empty());
        assert(per_node(1, f) =~= f(0));
    } else {
        lemma_per_node_starts_with_first((n - 1) as nat, f, j);
    }
}

/// In a spawn, only the head node (node 0) is given an Elastic IP, and a
/// spawn of at least one node gives it one: workers are reached through
/// the head node and never get a public address.
#[verifier::rlimit(30)]
pub proof fn lemma_only_head_gets_elastic_ip(
    state: ClusterState,
    efs: bool,
    affinity: bool,
    configured: Seq<bool>,
    spot: bool,
)
    ensures
        all_steps(spawn_steps(state, efs, affinity, configured, spot), |st: LifecycleStep| head_only_address(st)),
        configured.len() > 0 ==> spawn_steps(state, efs, affinity, configured, spot).contains(
            LifecycleStep::AllocateElasticIp(0),
        ),
{
    let p = |st: LifecycleStep| head_only_address(st);
    let n = configured.len();
    let restore = state == ClusterState::Running;
    let first = seq![
        LifecycleStep::SetClusterState(
            if restore {
                ClusterState::Restoring
            } else {
                ClusterState::Spawning
            },
        ),
    ];
    let prefix = spawn_network_prefix(efs, affinity);
    assert(all_steps(first, p)) by {
        reveal(all_steps);
    }
    assert(all_steps(when(efs, seq![LifecycleStep::RequestEfsDevice]), p)) by {
        reveal(all_steps);
    }
    assert(all_steps(prefix, p)) by {
        reveal(all_steps);
    }
    assert forall|i: nat| i < n implies all_steps(#[trigger] node_network_steps()(i), p) by {
        reveal(all_steps);
    }
    lemma_all_steps_per_node(n, node_network_steps(), p);
    assert forall|i: nat| i < n implies all_steps(#[trigger] one_per_node(PerNodeStep::RequestInstance)(i), p) by {
        reveal(all_steps);
    }
    lemma_all_steps_per_node(n, one_per_node(PerNodeStep::RequestInstance), p);
    assert forall|i: nat| i < n implies all_steps(#[trigger] one_per_node(PerNodeStep::WaitForSsh)(i), p) by {
        reveal(all_steps);
    }
    lemma_all_steps_per_node(n, one_per_node(PerNodeStep::WaitForSsh), p);
    assert forall|i: nat| i < n implies all_steps(#[trigger] efs_attach_steps(configured)(i), p) by {
        reveal(all_steps);
    }
    lemma_all_steps_per_node(n, efs_attach_steps(configured), p);
    assert forall|i: nat| i < n implies all_steps(#[trigger] one_per_node(PerNodeStep::BaseSetup)(i), p) by {
        reveal(all_steps);
    }
    lemma_all_steps_per_node(n, one_per_node(PerNodeStep::BaseSetup), p);
    let s1 = first + prefix;
    lemma_all_steps_concat(first, prefix, p);
    let s2 = s1 + per_node(n, node_network_steps());
    lemma_all_steps_concat(s1, per_node(n, node_network_steps()), p);
    let s3 = s2 + per_node(n, one_per_node(PerNodeStep::RequestInstance));
    lemma_all_steps_concat(s2, per_node(n, one_per_node(PerNodeStep::RequestInstance)), p);
    let w = seq![LifecycleStep::WaitInstancesAvailable];
    assert(all_steps(w, p)) by {
        reveal(all_steps);
    }
    let s4 = s3 + w;
    lemma_all_steps_concat(s3, w, p);
    let m = when(efs, seq![LifecycleStep::WaitEfsMountTargetReady]);
    assert(all_steps(m, p)) by {
        reveal(all_steps);
    }
    let s5 = s4 + m;
    lemma_all_steps_concat(s4, m, p);
    let s6 = s5 + per_node(n, one_per_node(PerNodeStep::WaitForSsh));
    lemma_all_steps_concat(s5, per_node(n, one_per_node(PerNodeStep::WaitForSsh)), p);
    let a = when(efs, per_node(n, efs_attach_steps(configured)));
    lemma_all_steps_when(efs, per_node(n, efs_attach_steps(configured)), p);
    let s7 = s6 + a;
    lemma_all_steps_concat(s6, a, p);
    let s8 = s7 + per_node(n, one_per_node(PerNodeStep::BaseSetup));
    lemma_all_steps_concat(s7, per_node(n, one_per_node(PerNodeStep::BaseSetup)), p);
    let r = seq![LifecycleStep::SetClusterState(ClusterState::Running)];
    assert(all_steps(r, p)) by {
        reveal(all_steps);
    }
    let s9 = s8 + r;
    lemma_all_steps_concat(s8, r, p);
    let q = when(!restore && spot, seq![LifecycleStep::EnsureSpotInterruptionQueue]);
    assert(all_steps(q, p)) by {
        reveal(all_steps);
    }
    lemma_all_steps_concat(s9, q, p);
    assert(spawn_steps(state, efs, affinity, configured, spot) == s9 + q);
    if n > 0 {
        let f = node_network_steps();
        lemma_per_node_starts_with_first(n, f, 1);
        assert(f(0)[1] == LifecycleStep::AllocateElasticIp(0));
        let k: int = s1.len() as int + 1;
        assert(s2[k] == per_node(n, f)[1]);
        assert((s9 + q)[k] == s2[k]);
        assert(spawn_steps(state, efs, affinity, configured, spot)[k] == LifecycleStep::AllocateElasticIp(0));
    }
}

/// A cluster-level network resource.
#[derive(Debug, Clone, Copy, PartialEq, Eq, Structural)]
pub enum NetworkResource {
    Vpc,
    Subnet,
    InternetGateway,
    RouteTable,
    SecurityGroup,
    SshKey,
    PlacementGroup,
}

/// The network resource a step creates.
pub open spec fn created_resource(st: LifecycleStep) -> Option<NetworkResource> {
    match st {
        LifecycleStep::CreateVpc => Some(NetworkResource::Vpc),
        LifecycleStep::CreateSubnet => Some(NetworkResource::Subnet),
        LifecycleStep::CreateInternetGateway => Some(NetworkResource::InternetGateway),
        LifecycleStep::CreateRouteTable => Some(NetworkResource::RouteTable),
        LifecycleStep::CreateSecurityGroup => Some(NetworkResource::SecurityGroup),
        LifecycleStep::ImportSshKey => Some(NetworkResource::SshKey),
        LifecycleStep::CreatePlacementGroup => Some(NetworkResource::PlacementGroup),
        _ => None,
    }
}

/// The network resource a step deletes.
pub open spec fn deleted_resource(st: LifecycleStep) -> Option<NetworkResource> {
    match st {
        LifecycleStep::DeleteVpc => Some(NetworkResource::Vpc),
        LifecycleStep::DeleteSubnet => Some(NetworkResource::Subnet),
        LifecycleStep::DeleteInternetGateway => Some(NetworkResource::InternetGateway),
        LifecycleStep::DeleteRouteTable => Some(NetworkResource::RouteTable),
        LifecycleStep::DeleteSecurityGroup => Some(NetworkResource::SecurityGroup),
        LifecycleStep::DeleteSshKey => Some(NetworkResource::SshKey),
        LifecycleStep::DeletePlacementGroup => Some(NetworkResource::PlacementGroup),
        _ => None,
    }
}

/// The resources that the steps of `s` touch (as `f` reads them), in order.
pub open spec fn resources_of(s: Seq<LifecycleStep>, f: spec_fn(LifecycleStep) -> Option<NetworkResource>) -> Seq<NetworkResource>
    decreases s.len(),
{
    if s.len() == 0 {
        Seq::empty()
    } else {
        let before = resources_of(s.drop_last(), f);
        match f(s.last()) {
            Some(r) => before.push(r),
            None => before,
        }
    }
}

proof fn lemma_resources_concat(a: Seq<LifecycleStep>, b: Seq<LifecycleStep>, f: spec_fn(LifecycleStep) -> Option<NetworkResource>)
    ensures
        resources_of(a + b, f) == resources_of(a, f) + resources_of(b, f),
    decreases b.len(),
{
    if b.len() == 0 {
        assert(a + b =~= a);
        assert(resources_of(b, f) =~= Seq::<NetworkResource>::empty());
        assert(resources_of(a, f) + resources_of(b, f) =~= resources_of(a, f));
    } else {
        lemma_resources_concat(a, b.drop_last(), f);
        assert((a + b).drop_last() =~= a + b.drop_last());
        assert((a + b).last() == b.last());
        match f(b.last()) {
            Some(r) => {
                assert(resources_of(a, f) + resources_of(b, f) =~= (resources_of(a, f) + resources_of(b.drop_last(), f)).push(r));
            },
            None => {},
        }
    }
}

proof fn lemma_resources_none(s: Seq<LifecycleStep>, f: spec_fn(LifecycleStep) -> Option<NetworkResource>)
    requires
        all_steps(s, |st: LifecycleStep| f(st) is None),
    ensures
        resources_of(s, f) == Seq::<NetworkResource>::empty(),
    decreases s.len(),
{
    reveal(all_steps);
    if s.len() > 0 {
        assert(f(s[s.len() - 1]) is None);
        assert(all_steps(s.drop_last(), |st: LifecycleStep| f(st) is None)) by {
            reveal(all_steps);
            assert forall|k: int| 0 <= k < s.drop_last().len() implies (|st: LifecycleStep| f(st) is None)(#[trigger] s.drop_last()[k]) by {
                assert(s.drop_last()[k] == s[k]);
            }
        }
        lemma_resources_none(s.drop_last(), f);
    }
}

proof fn lemma_created_body()
    ensures
        resources_of(
            seq![
                LifecycleStep::CreateVpc,
                LifecycleStep::CreateSubnet,
                LifecycleStep::CreateInternetGateway,
                LifecycleStep::CreateRouteTable,
                LifecycleStep::CreateSecurityGroup,
            ],
            |st: LifecycleStep| created_resource(st),
        ) == seq![
            NetworkResource::Vpc,
            NetworkResource::Subnet,
            NetworkResource::InternetGateway,
            NetworkResource::RouteTable,
            NetworkResource::SecurityGroup,
        ],
{
    reveal_with_fuel(resources_of, 6);
    let c = |st: LifecycleStep| created_resource(st);
    let s5 = seq![
        LifecycleStep::CreateVpc,
        LifecycleStep::CreateSubnet,
        LifecycleStep::CreateInternetGateway,
        LifecycleStep::CreateRouteTable,
        LifecycleStep::CreateSecurityGroup,
    ];
    assert(s5.drop_last() =~= seq![
        LifecycleStep::CreateVpc,
        LifecycleStep::CreateSubnet,
        LifecycleStep::CreateInternetGateway,
        LifecycleStep::CreateRouteTable,
    ]);
    assert(s5.drop_last().drop_last() =~= seq![
        LifecycleStep::CreateVpc,
        LifecycleStep::CreateSubnet,
        LifecycleStep::CreateInternetGateway,
    ]);
    assert(s5.drop_last().drop_last().drop_last() =~= seq![
        LifecycleStep::CreateVpc,
        LifecycleStep::CreateSubnet,
    ]);
    assert(s5.drop_last().drop_last().drop_last().drop_last() =~= seq![LifecycleStep::CreateVpc]);
    assert(seq![LifecycleStep::CreateVpc].drop_last() =~= Seq::<LifecycleStep>::empty());
    assert(resources_of(s5, c) =~= seq![
        NetworkResource::Vpc,
        NetworkResource::Subnet,
        NetworkResource::InternetGateway,
        NetworkResource::RouteTable,
        NetworkResource::SecurityGroup,
    ]);
}

proof fn lemma_deleted_body()
    ensures
        resources_of(
            seq![
                LifecycleStep::DeleteSshKey,
                LifecycleStep::DeleteSecurityGroup,
                LifecycleStep::DeleteRouteTable,
                LifecycleStep::DeleteInternetGateway,
                LifecycleStep::DeleteSubnet,
                LifecycleStep::DeleteVpc,
            ],
            |st: LifecycleStep| deleted_resource(st),
        ) == seq![
            NetworkResource::SshKey,
            NetworkResource::SecurityGroup,
            NetworkResource::RouteTable,
            NetworkResource::InternetGateway,
            NetworkResource::Subnet,
            NetworkResource::Vpc,
        ],
{
    reveal_with_fuel(resources_of, 7);
    let d = |st: LifecycleStep| deleted_resource(st);
    let s6 = seq![
        LifecycleStep::DeleteSshKey,
        LifecycleStep::DeleteSecurityGroup,
        LifecycleStep::DeleteRouteTable,
        LifecycleStep::DeleteInternetGateway,
        LifecycleStep::DeleteSubnet,
        LifecycleStep::DeleteVpc,
    ];
    assert(s6.drop_last() =~= seq![
        LifecycleStep::DeleteSshKey,
        LifecycleStep::DeleteSecurityGroup,
        LifecycleStep::DeleteRouteTable,
        LifecycleStep::DeleteInternetGateway,
        LifecycleStep::DeleteSubnet,
    ]);
    assert(s6.drop_last().drop_last() =~= seq![
        LifecycleStep::DeleteSshKey,
        LifecycleStep::DeleteSecurityGroup,
        LifecycleStep::DeleteRouteTable,
        LifecycleStep::DeleteInternetGateway,
    ]);
    assert(s6.drop_last().drop_last().drop_last() =~= seq![
        LifecycleStep::DeleteSshKey,
        LifecycleStep::DeleteSecurityGroup,
        LifecycleStep::DeleteRouteTable,
    ]);
    assert(s6.drop_last().drop_last().drop_last().drop_last() =~= seq![
        LifecycleStep::DeleteSshKey,
        LifecycleStep::DeleteSecurityGroup,
    ]);
    assert(s6.drop_last().drop_last().drop_last().drop_last().drop_last() =~= seq![
        LifecycleStep::DeleteSshKey,
    ]);
    assert(seq![LifecycleStep::DeleteSshKey].drop_last() =~= Seq::<LifecycleStep>::empty());
    assert(resources_of(s6, d) =~= seq![
        NetworkResource::SshKey,
        NetworkResource::SecurityGroup,
        NetworkResource::RouteTable,
        NetworkResource::InternetGateway,
        NetworkResource::Subnet,
        NetworkResource::Vpc,
    ]);
}

proof fn lemma_resources_single(st: LifecycleStep, f: spec_fn(LifecycleStep) -> Option<NetworkResource>)
    ensures
        resources_of(seq![st], f) == match f(st) {
            Some(r) => seq![r],
            None => Seq::<NetworkResource>::empty(),
        },
{
    reveal_with_fuel(resources_of, 2);
    assert(seq![st].drop_last() =~= Seq::<LifecycleStep>::empty());
    assert(seq![st].last() == st);
    assert(resources_of(Seq::<LifecycleStep>::empty(), f) =~= Seq::<NetworkResource>::empty());
    match f(st) {
        Some(r) => {
            assert(resources_of(seq![st], f) =~= seq![r]);
        },
        None => {},
    }
}

proof fn lemma_resources_pair(a: LifecycleStep, b: LifecycleStep, f: spec_fn(LifecycleStep) -> Option<NetworkResource>)
    requires
        f(a) is None,
        f(b) is None,
    ensures
        resources_of(seq![a, b], f) == Seq::<NetworkResource>::empty(),
{
    assert(seq![a, b] =~= seq![a] + seq![b]);
    lemma_resources_concat(seq![a], seq![b], f);
    lemma_resources_single(a, f);
    lemma_resources_single(b, f);
}

proof fn lemma_resources_when_empty(c: bool, s: Seq<LifecycleStep>, f: spec_fn(LifecycleStep) -> Option<NetworkResource>)
    requires
        resources_of(s, f) == Seq::<NetworkResource>::empty(),
    ensures
        resources_of(when(c, s), f) == Seq::<NetworkResource>::empty(),
{
}

/// The spawn builds the cluster network in an order whose exact reverse is
/// the order in which the teardown removes it.
proof fn lemma_network_order(efs: bool, affinity: bool)
    ensures
        resources_of(teardown_network_suffix(efs, affinity), |st: LifecycleStep| deleted_resource(st))
            == resources_of(spawn_network_prefix(efs, affinity), |st: LifecycleStep| created_resource(st)).reverse(),
{
    let c = |st: LifecycleStep| created_resource(st);
    let d = |st: LifecycleStep| deleted_resource(st);
    let body = seq![
        LifecycleStep::CreateVpc,
        LifecycleStep::CreateSubnet,
        LifecycleStep::CreateInternetGateway,
        LifecycleStep::CreateRouteTable,
        LifecycleStep::CreateSecurityGroup,
    ];
    let e1 = when(efs, seq![LifecycleStep::RequestEfsDevice]);
    let e2 = when(efs, seq![LifecycleStep::WaitEfsDeviceReady, LifecycleStep::RequestEfsMountTarget]);
    let k = seq![LifecycleStep::ImportSshKey];
    let pg = when(affinity, seq![LifecycleStep::CreatePlacementGroup]);
    lemma_created_body();
    lemma_resources_single(LifecycleStep::RequestEfsDevice, c);
    lemma_resources_when_empty(efs, seq![LifecycleStep::RequestEfsDevice], c);
    lemma_resources_pair(LifecycleStep::WaitEfsDeviceReady, LifecycleStep::RequestEfsMountTarget, c);
    lemma_resources_when_empty(efs, seq![LifecycleStep::WaitEfsDeviceReady, LifecycleStep::RequestEfsMountTarget], c);
    lemma_resources_single(LifecycleStep::ImportSshKey, c);
    lemma_resources_single(LifecycleStep::CreatePlacementGroup, c);
    lemma_resources_concat(e1, body, c);
    lemma_resources_concat(e1 + body, e2, c);
    lemma_resources_concat(e1 + body + e2, k, c);
    lemma_resources_concat(e1 + body + e2 + k, pg, c);
    let dpg = when(affinity, seq![LifecycleStep::DeletePlacementGroup]);
    let dbody = seq![
        LifecycleStep::DeleteSshKey,
        LifecycleStep::DeleteSecurityGroup,
        LifecycleStep::DeleteRouteTable,
        LifecycleStep::DeleteInternetGateway,
        LifecycleStep::DeleteSubnet,
        LifecycleStep::DeleteVpc,
    ];
    let de = when(efs, seq![LifecycleStep::WaitEfsDeviceDeleted]);
    lemma_deleted_body();
    lemma_resources_single(LifecycleStep::DeletePlacementGroup, d);
    lemma_resources_single(LifecycleStep::WaitEfsDeviceDeleted, d);
    lemma_resources_when_empty(efs, seq![LifecycleStep::WaitEfsDeviceDeleted], d);
    lemma_resources_concat(dpg, dbody, d);
    lemma_resources_concat(dpg + dbody, de, d);
    assert(resources_of(e1, c) == Seq::<NetworkResource>::empty());
    assert(resources_of(e2, c) == Seq::<NetworkResource>::empty());
    assert(resources_of(de, d) == Seq::<NetworkResource>::empty());
    if affinity {
        assert(resources_of(pg, c) == seq![NetworkResource::PlacementGroup]);
        assert(resources_of(dpg, d) == seq![NetworkResource::PlacementGroup]);
    } else {
        assert(resources_of(pg, c) =~= Seq::<NetworkResource>::empty());
        assert(resources_of(dpg, d) =~= Seq::<NetworkResource>::empty());
    }
    assert(resources_of(teardown_network_suffix(efs, affinity), d) =~= resources_of(
        spawn_network_prefix(efs, affinity),
        c,
    ).reverse());
}

proof fn lemma_creates_nothing(s: Seq<LifecycleStep>)
    requires
        all_steps(s, |st: LifecycleStep| created_resource(st) is None),
    ensures
        resources_of(s, |st: LifecycleStep| created_resource(st)) == Seq::<NetworkResource>::empty(),
{
    let f = |st: LifecycleStep| created_resource(st);
    assert(all_steps(s, |st: LifecycleStep| f(st) is None)) by {
        reveal(all_steps);
        assert forall|k: int| 0 <= k < s.len() implies (|st: LifecycleStep| f(st) is None)(
            #[trigger] s[k],
        ) by {
            assert((|st: LifecycleStep| created_resource(st) is None)(s[k]));
        }
    }
    lemma_resources_none(s, f);
}

proof fn lemma_deletes_nothing(s: Seq<LifecycleStep>)
    requires
        all_steps(s, |st: LifecycleStep| deleted_resource(st) is None),
    ensures
        resources_of(s, |st: LifecycleStep| deleted_resource(st)) == Seq::<NetworkResource>::empty(),
{
    let f = |st: LifecycleStep| deleted_resource(st);
    assert(all_steps(s, |st: LifecycleStep| f(st) is None)) by {
        reveal(all_steps);
        assert forall|k: int| 0 <= k < s.len() implies (|st: LifecycleStep| f(st) is None)(
            #[trigger] s[k],
        ) by {
            assert((|st: LifecycleStep| deleted_resource(st) is None)(s[k]));
        }
    }
    lemma_resources_none(s, f);
}

proof fn lemma_per_node_creates_nothing(n: nat, f: spec_fn(nat) -> Seq<LifecycleStep>)
    requires
        forall|i: nat, k: int|
            i < n && 0 <= k < f(i).len() ==> created_resource(#[trigger] f(i)[k]) is None,
    ensures
        resources_of(per_node(n, f), |st: LifecycleStep| created_resource(st)) == Seq::<NetworkResource>::empty(),
{
    let p = |st: LifecycleStep| created_resource(st) is None;
    assert forall|i: nat| i < n implies all_steps(#[trigger] f(i), p) by {
        reveal(all_steps);
    }
    lemma_all_steps_per_node(n, f, p);
    lemma_creates_nothing(per_node(n, f));
}

proof fn lemma_per_node_deletes_nothing(n: nat, f: spec_fn(nat) -> Seq<LifecycleStep>)
    requires
        forall|i: nat, k: int|
            i < n && 0 <= k < f(i).len() ==> deleted_resource(#[trigger] f(i)[k]) is None,
    ensures
        resources_of(per_node(n, f), |st: LifecycleStep| deleted_resource(st)) == Seq::<NetworkResource>::empty(),
{
    let p = |st: LifecycleStep| deleted_resource(st) is None;
    assert forall|i: nat| i < n implies all_steps(#[trigger] f(i), p) by {
        reveal(all_steps);
    }
    lemma_all_steps_per_node(n, f, p);
    lemma_deletes_nothing(per_node(n, f));
}

/// The network resources a spawn creates, in order.
pub open spec fn spawn_network(state: ClusterState, efs: bool, affinity: bool, configured: Seq<bool>, spot: bool) -> Seq<NetworkResource> {
    resources_of(spawn_steps(state, efs, affinity, configured, spot), |st: LifecycleStep| created_resource(st))
}

/// The network resources a termination deletes, in order.
pub open spec fn teardown_network(efs: bool, affinity: bool, n: nat, spot: bool) -> Seq<NetworkResource> {
    resources_of(teardown_steps(efs, affinity, n, spot), |st: LifecycleStep| deleted_resource(st))
}

#[verifier::rlimit(40)]
proof fn lemma_spawn_network(state: ClusterState, efs: bool, affinity: bool, configured: Seq<bool>, spot: bool)
    ensures
        spawn_network(state, efs, affinity, configured, spot) == resources_of(
            spawn_network_prefix(efs, affinity),
            |st: LifecycleStep| created_resource(st),
        ),
{
    let c = |st: LifecycleStep| created_resource(st);
    let n = configured.len();
    let restore = state == ClusterState::Running;
    let first = seq![
        LifecycleStep::SetClusterState(
            if restore {
                ClusterState::Restoring
            } else {
                ClusterState::Spawning
            },
        ),
    ];
    let prefix = spawn_network_prefix(efs, affinity);
    let nn = per_node(n, node_network_steps());
    let ri = per_node(n, one_per_node(PerNodeStep::RequestInstance));
    let w = seq![LifecycleStep::WaitInstancesAvailable];
    let m = when(efs, seq![LifecycleStep::WaitEfsMountTargetReady]);
    let ws = per_node(n, one_per_node(PerNodeStep::WaitForSsh));
    let a = when(efs, per_node(n, efs_attach_steps(configured)));
    let bs = per_node(n, one_per_node(PerNodeStep::BaseSetup));
    let r = seq![LifecycleStep::SetClusterState(ClusterState::Running)];
    let q = when(!restore && spot, seq![LifecycleStep::EnsureSpotInterruptionQueue]);
    lemma_resources_single(first[0], c);
    assert(first =~= seq![first[0]]);
    lemma_per_node_creates_nothing(n, node_network_steps());
    lemma_per_node_creates_nothing(n, one_per_node(PerNodeStep::RequestInstance));
    lemma_resources_single(LifecycleStep::WaitInstancesAvailable, c);
    lemma_resources_single(LifecycleStep::WaitEfsMountTargetReady, c);
    lemma_resources_when_empty(efs, seq![LifecycleStep::WaitEfsMountTargetReady], c);
    lemma_per_node_creates_nothing(n, one_per_node(PerNodeStep::WaitForSsh));
    lemma_per_node_creates_nothing(n, efs_attach_steps(configured));
    lemma_resources_when_empty(efs, per_node(n, efs_attach_steps(configured)), c);
    lemma_per_node_creates_nothing(n, one_per_node(PerNodeStep::BaseSetup));
    lemma_resources_single(LifecycleStep::SetClusterState(ClusterState::Running), c);
    lemma_resources_single(LifecycleStep::EnsureSpotInterruptionQueue, c);
    lemma_resources_when_empty(!restore && spot, seq![LifecycleStep::EnsureSpotInterruptionQueue], c);
    lemma_resources_concat(first, prefix, c);
    lemma_resources_concat(first + prefix, nn, c);
    lemma_resources_concat(first + prefix + nn, ri, c);
    lemma_resources_concat(first + prefix + nn + ri, w, c);
    lemma_resources_concat(first + prefix + nn + ri + w, m, c);
    lemma_resources_concat(first + prefix + nn + ri + w + m, ws, c);
    lemma_resources_concat(first + prefix + nn + ri + w + m + ws, a, c);
    lemma_resources_concat(first + prefix + nn + ri + w + m + ws + a, bs, c);
    lemma_resources_concat(first + prefix + nn + ri + w + m + ws + a + bs, r, c);
    lemma_resources_concat(first + prefix + nn + ri + w + m + ws + a + bs + r, q, c);
    assert(spawn_steps(state, efs, affinity, configured, spot) == first + prefix + nn + ri + w + m + ws + a + bs + r + q);
    assert(resources_of(prefix, c) + Seq::<NetworkResource>::empty() =~= resources_of(prefix, c));
    assert(Seq::<NetworkResource>::empty() + resources_of(prefix, c) =~= resources_of(prefix, c));
}

#[verifier::rlimit(40)]
proof fn lemma_teardown_network(efs: bool, affinity: bool, n: nat, spot: bool)
    ensures
        teardown_network(efs, affinity, n, spot) == resources_of(
            teardown_network_suffix(efs, affinity),
            |st: LifecycleStep| deleted_resource(st),
        ),
{
    let d = |st: LifecycleStep| deleted_resource(st);
    let q = when(spot, seq![LifecycleStep::CleanupSpotInterruptionQueue]);
    let t = seq![LifecycleStep::SetClusterState(ClusterState::Terminating)];
    let ce = per_node(n, one_per_node(PerNodeStep::ClearEfsConfiguration));
    let md = when(efs, seq![LifecycleStep::RequestMountTargetDeletion]);
    let it = seq![LifecycleStep::RequestInstanceTermination];
    let ew = when(efs, seq![LifecycleStep::WaitMountTargetDeleted, LifecycleStep::RequestEfsDeviceDeletion]);
    let wt = seq![LifecycleStep::WaitInstancesTerminated];
    let nt = per_node(n, node_teardown_steps());
    let suffix = teardown_network_suffix(efs, affinity);
    let rn = per_node(n, one_per_node(PerNodeStep::ResetNode));
    let pe = seq![LifecycleStep::SetClusterState(ClusterState::Pending)];
    lemma_resources_single(LifecycleStep::CleanupSpotInterruptionQueue, d);
    lemma_resources_when_empty(spot, seq![LifecycleStep::CleanupSpotInterruptionQueue], d);
    lemma_resources_single(LifecycleStep::SetClusterState(ClusterState::Terminating), d);
    lemma_per_node_deletes_nothing(n, one_per_node(PerNodeStep::ClearEfsConfiguration));
    lemma_resources_single(LifecycleStep::RequestMountTargetDeletion, d);
    lemma_resources_when_empty(efs, seq![LifecycleStep::RequestMountTargetDeletion], d);
    lemma_resources_single(LifecycleStep::RequestInstanceTermination, d);
    lemma_resources_pair(LifecycleStep::WaitMountTargetDeleted, LifecycleStep::RequestEfsDeviceDeletion, d);
    lemma_resources_when_empty(efs, seq![LifecycleStep::WaitMountTargetDeleted, LifecycleStep::RequestEfsDeviceDeletion], d);
    lemma_resources_single(LifecycleStep::WaitInstancesTerminated, d);
    lemma_per_node_deletes_nothing(n, node_teardown_steps());
    lemma_per_node_deletes_nothing(n, one_per_node(PerNodeStep::ResetNode));
    lemma_resources_single(LifecycleStep::SetClusterState(ClusterState::Pending), d);
    lemma_resources_concat(q, t, d);
    lemma_resources_concat(q + t, ce, d);
    lemma_resources_concat(q + t + ce, md, d);
    lemma_resources_concat(q + t + ce + md, it, d);
    lemma_resources_concat(q + t + ce + md + it, ew, d);
    lemma_resources_concat(q + t + ce + md + it + ew, wt, d);
    lemma_resources_concat(q + t + ce + md + it + ew + wt, nt, d);
    lemma_resources_concat(q + t + ce + md + it + ew + wt + nt, suffix, d);
    lemma_resources_concat(q + t + ce + md + it + ew + wt + nt + suffix, rn, d);
    lemma_resources_concat(q + t + ce + md + it + ew + wt + nt + suffix + rn, pe, d);
    assert(teardown_steps(efs, affinity, n, spot) == q + t + ce + md + it + ew + wt + nt + suffix + rn + pe);
    assert(Seq::<NetworkResource>::empty() + resources_of(suffix, d) =~= resources_of(suffix, d));
    assert(resources_of(suffix, d) + Seq::<NetworkResource>::empty() =~= resources_of(suffix, d));
}

/// A termination removes the cluster network in exactly the reverse of the
/// order in which a spawn of the same cluster (same EFS and affinity
/// settings) created it: placement group (with affinity), key pair,
/// security group, route table, internet gateway, subnet, VPC.
pub proof fn lemma_teardown_reverses_spawn(
    state: ClusterState,
    efs: bool,
    affinity: bool,
    configured: Seq<bool>,
    spawn_spot: bool,
    n: nat,
    teardown_spot: bool,
)
    ensures
        teardown_network(efs, affinity, n, teardown_spot) == spawn_network(
            state,
            efs,
            affinity,
            configured,
            spawn_spot,
        ).reverse(),
{
    lemma_spawn_network(state, efs, affinity, configured, spawn_spot);
    lemma_teardown_network(efs, affinity, n, teardown_spot);
    lemma_network_order(efs, affinity);
}

/// The length of the progress bar of a spawn: 7 steps, 6 per node, one for
/// the placement group, and with EFS 4 more plus 3 per node (1 per node
/// without EFS).
pub open spec fn spawn_progress_steps(efs: bool, affinity: bool, n: nat) -> nat {
    7 + 6 * n + (if affinity {
        1nat
    } else {
        0nat
    }) + (if efs {
        4 + 3 * n
    } else {
        n
    })
}

/// The length of the progress bar of a termination: 8 steps, 2 per node,
/// one for the placement group and 4 for EFS.
pub open spec fn teardown_progress_steps(efs: bool, affinity: bool, n: nat) -> nat {
    8 + 2 * n + (if affinity {
        1nat
    } else {
        0nat
    }) + (if efs {
        4nat
    } else {
        0nat
    })
}

/// The progress bar length of a spawn of `node_count` nodes.
pub fn spawn_progress_total(cluster: &Cluster, node_count: usize) -> (r: u64)
    requires
        9 * node_count + 12 <= usize::MAX,
    ensures
        r == spawn_progress_steps(
            cluster.use_elastic_file_system,
            cluster.use_node_affinity,
            node_count as nat,
        ),
{
    let n = node_count;
    let mut steps: usize = 7 + 6 * n;
    if cluster.use_node_affinity {
        steps = steps + 1;
    }
    if cluster.use_elastic_file_system {
        steps = steps + 4 + 3 * n;
    } else {
        steps = steps + n;
    }
    steps as u64
}

/// The progress bar length of a termination of `node_count` nodes.
pub fn teardown_progress_total(cluster: &Cluster, node_count: usize) -> (r: u64)
    requires
        2 * node_count + 13 <= usize::MAX,
    ensures
        r == teardown_progress_steps(
            cluster.use_elastic_file_system,
            cluster.use_node_affinity,
            node_count as nat,
        ),
{
    let n = node_count;
    let mut steps: usize = 8 + 2 * n;
    if cluster.use_node_affinity {
        steps = steps + 1;
    }
    if cluster.use_elastic_file_system {
        steps = steps + 4;
    }
    steps as u64
}

/// How far a step moves the progress bar of a spawn or termination of `n`
/// nodes: one for each cloud operation (a node skipped for EFS counts too),
/// one for associating the head node's Elastic IP and recording its
/// addresses, two for recording a worker's addresses (it has no Elastic IP
/// steps), `n` for the request to terminate the instances and `n` for the
/// wait for their termination, and nothing for the bookkeeping steps (state
/// changes, EFS flags, node resets, the spot interruption queue).
pub open spec fn step_progress(st: LifecycleStep, n: nat) -> nat {
    match st {
        LifecycleStep::SetClusterState(_) => 0,
        LifecycleStep::RecordNodeAddresses(i) => if i == 0 {
            0
        } else {
            2
        },
        LifecycleStep::EnsureSpotInterruptionQueue => 0,
        LifecycleStep::CleanupSpotInterruptionQueue => 0,
        LifecycleStep::ClearEfsConfiguration(_) => 0,
        LifecycleStep::ResetNode(_) => 0,
        LifecycleStep::RequestInstanceTermination => n,
        LifecycleStep::WaitInstancesTerminated => n,
        _ => 1,
    }
}

/// The progress a step earns once done, in a spawn or termination of
/// `node_count` nodes.
pub fn progress_increment(step: &LifecycleStep, node_count: usize) -> (r: u64)
    ensures
        r == step_progress(*step, node_count as nat),
{
    match step {
        LifecycleStep::SetClusterState(_) => 0,
        LifecycleStep::RecordNodeAddresses(i) => if *i == 0 {
            0
        } else {
            2
        },
        LifecycleStep::EnsureSpotInterruptionQueue => 0,
        LifecycleStep::CleanupSpotInterruptionQueue => 0,
        LifecycleStep::ClearEfsConfiguration(_) => 0,
        LifecycleStep::ResetNode(_) => 0,
        LifecycleStep::RequestInstanceTermination => node_count as u64,
        LifecycleStep::WaitInstancesTerminated => node_count as u64,
        _ => 1,
    }
}

/// In `s`, every occurrence of `a` comes before every occurrence of `b`.
pub open spec fn precedes(s: Seq<LifecycleStep>, a: LifecycleStep, b: LifecycleStep) -> bool {
    forall|j: int, k: int|
        #![trigger s[j], s[k]]
        0 <= j < s.len() && 0 <= k < s.len() && s[j] == a && s[k] == b ==> j < k
}

/// What a spawn owes node `i`: its interface exists before its instance is
/// requested, its instance is requested before the wait for all instances,
/// and it is waited for over SSH after that wait and before anything runs on
/// it (its EFS attachment, then its base setup). With EFS, a node not yet
/// configured for it (`configured[i]` false) is attached.
pub open spec fn node_ready_before_setup(
    s: Seq<LifecycleStep>,
    i: usize,
    efs: bool,
    configured: Seq<bool>,
) -> bool {
    &&& s.contains(LifecycleStep::RequestInstance(i))
    &&& s.contains(LifecycleStep::WaitForSsh(i))
    &&& s.contains(LifecycleStep::BaseSetup(i))
    &&& efs && !configured[i as int] ==> s.contains(LifecycleStep::AttachEfs(i))
    &&& precedes(s, LifecycleStep::CreateNetworkInterface(i), LifecycleStep::RequestInstance(i))
    &&& precedes(s, LifecycleStep::RequestInstance(i), LifecycleStep::WaitInstancesAvailable)
    &&& precedes(s, LifecycleStep::WaitInstancesAvailable, LifecycleStep::WaitForSsh(i))
    &&& precedes(s, LifecycleStep::WaitForSsh(i), LifecycleStep::AttachEfs(i))
    &&& precedes(s, LifecycleStep::WaitForSsh(i), LifecycleStep::BaseSetup(i))
    &&& precedes(s, LifecycleStep::AttachEfs(i), LifecycleStep::BaseSetup(i))
}

/// A spawn waits for all instances, and every node (the first
/// `configured.len()`) is handled as `node_ready_before_setup` says; nodes
/// not yet configured for EFS are attached when the cluster uses EFS.
pub open spec fn ssh_ready_before_node_setup(
    s: Seq<LifecycleStep>,
    efs: bool,
    configured: Seq<bool>,
) -> bool {
    &&& s.contains(LifecycleStep::WaitInstancesAvailable)
    &&& forall|i: usize|
        i < configured.len() ==> #[trigger] node_ready_before_setup(s, i, efs, configured)
}

/// What a termination owes node `i`: its Elastic IP and its interface are
/// released, only after every instance is terminated, and before the
/// security group and the subnet that the interface lives in are deleted.
pub open spec fn node_released_after_instances(s: Seq<LifecycleStep>, i: usize) -> bool {
    &&& s.contains(LifecycleStep::ReleaseElasticIp(i))
    &&& s.contains(LifecycleStep::DeleteNetworkInterface(i))
    &&& precedes(s, LifecycleStep::WaitInstancesTerminated, LifecycleStep::ReleaseElasticIp(i))
    &&& precedes(s, LifecycleStep::WaitInstancesTerminated, LifecycleStep::DeleteNetworkInterface(i))
    &&& precedes(s, LifecycleStep::DeleteNetworkInterface(i), LifecycleStep::DeleteSecurityGroup)
    &&& precedes(s, LifecycleStep::DeleteNetworkInterface(i), LifecycleStep::DeleteSubnet)
}

/// A termination requests the termination of the instances, then waits for
/// it, and handles each of its `n` nodes as `node_released_after_instances`
/// says.
pub open spec fn instances_gone_before_node_network(s: Seq<LifecycleStep>, n: nat) -> bool {
    &&& s.contains(LifecycleStep::RequestInstanceTermination)
    &&& s.contains(LifecycleStep::WaitInstancesTerminated)
    &&& precedes(s, LifecycleStep::RequestInstanceTermination, LifecycleStep::WaitInstancesTerminated)
    &&& forall|i: usize| i < n ==> #[trigger] node_released_after_instances(s, i)
}

/// The stage of a step within a spawn (`teardown` false) or a termination
/// (`teardown` true); a plan whose stages never go down keeps every step of
/// a lower stage before every step of a higher one.
spec fn step_stage(st: LifecycleStep, teardown: bool) -> int {
    if !teardown {
        match st {
            LifecycleStep::SetClusterState(c) => if c == ClusterState::Running {
                9
            } else {
                0
            },
            LifecycleStep::RequestEfsDevice => 1,
            LifecycleStep::CreateVpc => 1,
            LifecycleStep::CreateSubnet => 1,
            LifecycleStep::CreateInternetGateway => 1,
            LifecycleStep::CreateRouteTable => 1,
            LifecycleStep::CreateSecurityGroup => 1,
            LifecycleStep::WaitEfsDeviceReady => 1,
            LifecycleStep::RequestEfsMountTarget => 1,
            LifecycleStep::ImportSshKey => 1,
            LifecycleStep::CreatePlacementGroup => 1,
            LifecycleStep::CreateNetworkInterface(_) => 2,
            LifecycleStep::AllocateElasticIp(_) => 2,
            LifecycleStep::AssociateElasticIp(_) => 2,
            LifecycleStep::RecordNodeAddresses(_) => 2,
            LifecycleStep::RequestInstance(_) => 3,
            LifecycleStep::WaitInstancesAvailable => 4,
            LifecycleStep::WaitEfsMountTargetReady => 5,
            LifecycleStep::WaitForSsh(_) => 6,
            LifecycleStep::AttachEfs(_) => 7,
            LifecycleStep::SkipEfsAttach(_) => 7,
            LifecycleStep::BaseSetup(_) => 8,
            _ => 10,
        }
    } else {
        match st {
            LifecycleStep::CleanupSpotInterruptionQueue => 0,
            LifecycleStep::SetClusterState(c) => if c == ClusterState::Pending {
                9
            } else {
                0
            },
            LifecycleStep::ClearEfsConfiguration(_) => 1,
            LifecycleStep::RequestMountTargetDeletion => 2,
            LifecycleStep::RequestInstanceTermination => 3,
            LifecycleStep::WaitMountTargetDeleted => 4,
            LifecycleStep::RequestEfsDeviceDeletion => 4,
            LifecycleStep::WaitInstancesTerminated => 5,
            LifecycleStep::ReleaseElasticIp(_) => 6,
            LifecycleStep::DeleteNetworkInterface(_) => 6,
            LifecycleStep::DeletePlacementGroup => 7,
            LifecycleStep::DeleteSshKey => 7,
            LifecycleStep::DeleteSecurityGroup => 7,
            LifecycleStep::DeleteRouteTable => 7,
            LifecycleStep::DeleteInternetGateway => 7,
            LifecycleStep::DeleteSubnet => 7,
            LifecycleStep::DeleteVpc => 7,
            LifecycleStep::WaitEfsDeviceDeleted => 7,
            LifecycleStep::ResetNode(_) => 8,
            _ => 10,
        }
    }
}

/// The stages of `s` never go down and lie between `lo` and `hi`.
spec fn staged(s: Seq<LifecycleStep>, t: bool, lo: int, hi: int) -> bool {
    &&& forall|j: int, k: int|
        0 <= j <= k < s.len() ==> #[trigger] step_stage(s[j], t) <= #[trigger] step_stage(s[k], t)
    &&& forall|j: int| 0 <= j < s.len() ==> lo <= #[trigger] step_stage(s[j], t) <= hi
}

proof fn lemma_staged_flat(s: Seq<LifecycleStep>, t: bool, c: int)
    requires
        forall|k: int| 0 <= k < s.len() ==> step_stage(#[trigger] s[k], t) == c,
    ensures
        staged(s, t, c, c),
{
}

proof fn lemma_staged_when(b: bool, s: Seq<LifecycleStep>, t: bool, c: int)
    requires
        staged(s, t, c, c),
    ensures
        staged(when(b, s), t, c, c),
{
}

proof fn lemma_staged_append(x: Seq<LifecycleStep>, y: Seq<LifecycleStep>, t: bool, lo: int, mid: int, hi: int)
    requires
        lo <= mid <= hi,
        staged(x, t, lo, mid),
        staged(y, t, mid, hi),
    ensures
        staged(x + y, t, lo, hi),
{
    let s = x + y;
    assert forall|j: int, k: int| 0 <= j <= k < s.len() implies #[trigger] step_stage(s[j], t)
        <= #[trigger] step_stage(s[k], t) by {
        if k < x.len() {
            assert(s[j] == x[j]);
            assert(s[k] == x[k]);
            assert(step_stage(x[j], t) <= step_stage(x[k], t));
        } else if j >= x.len() {
            assert(s[j] == y[j - x.len()]);
            assert(s[k] == y[k - x.len()]);
            assert(step_stage(y[j - x.len()], t) <= step_stage(y[k - x.len()], t));
        } else {
            assert(s[j] == x[j]);
            assert(s[k] == y[k - x.len()]);
            assert(step_stage(x[j], t) <= mid);
            assert(mid <= step_stage(y[k - x.len()], t));
        }
    }
    assert forall|j: int| 0 <= j < s.len() implies lo <= #[trigger] step_stage(s[j], t) <= hi by {
        if j < x.len() {
            assert(s[j] == x[j]);
            assert(lo <= step_stage(x[j], t) <= mid);
        } else {
            assert(s[j] == y[j - x.len()]);
            assert(mid <= step_stage(y[j - x.len()], t) <= hi);
        }
    }
}

proof fn lemma_staged_per_node(n: nat, f: spec_fn(nat) -> Seq<LifecycleStep>, t: bool, c: int)
    requires
        forall|i: nat, k: int| i < n && 0 <= k < f(i).len() ==> step_stage(#[trigger] f(i)[k], t) == c,
    ensures
        staged(per_node(n, f), t, c, c),
    decreases n,
{
    if n == 0 {
        lemma_staged_flat(per_node(n, f), t, c);
    } else {
        let m = (n - 1) as nat;
        lemma_staged_per_node(m, f, t, c);
        assert forall|k: int| 0 <= k < f(m).len() implies step_stage(#[trigger] f(m)[k], t) == c by {}
        lemma_staged_flat(f(m), t, c);
        lemma_staged_append(per_node(m, f), f(m), t, c, c, c);
    }
}

proof fn lemma_staged_precedes(s: Seq<LifecycleStep>, t: bool, lo: int, hi: int, a: LifecycleStep, b: LifecycleStep)
    requires
        staged(s, t, lo, hi),
        step_stage(a, t) < step_stage(b, t),
    ensures
        precedes(s, a, b),
{
    assert forall|j: int, k: int|
        0 <= j < s.len() && 0 <= k < s.len() && s[j] == a && s[k] == b implies j < k by {
        if k <= j {
            assert(step_stage(s[k], t) <= step_stage(s[j], t));
        }
    }
}

proof fn lemma_contains_left(s: Seq<LifecycleStep>, t: Seq<LifecycleStep>, x: LifecycleStep)
    requires
        s.contains(x),
    ensures
        (s + t).contains(x),
{
    let j = choose|j: int| 0 <= j < s.len() && s[j] == x;
    assert((s + t)[j] == x);
}

proof fn lemma_contains_right(s: Seq<LifecycleStep>, t: Seq<LifecycleStep>, x: LifecycleStep)
    requires
        t.contains(x),
    ensures
        (s + t).contains(x),
{
    let j = choose|j: int| 0 <= j < t.len() && t[j] == x;
    assert((s + t)[s.len() + j] == x);
}

proof fn lemma_per_node_contains(n: nat, f: spec_fn(nat) -> Seq<LifecycleStep>, i: nat, x: LifecycleStep)
    requires
        i < n,
        f(i).contains(x),
    ensures
        per_node(n, f).contains(x),
    decreases n,
{
    let m = (n - 1) as nat;
    if i == m {
        lemma_contains_right(per_node(m, f), f(m), x);
    } else {
        lemma_per_node_contains(m, f, i, x);
        lemma_contains_left(per_node(m, f), f(m), x);
    }
}

/// A spawn waits for every instance to be available before it waits for
/// any node over SSH, and waits for a node over SSH before it attaches EFS
/// or runs the base setup on it; each node's interface comes before its
/// instance, each instance before the wait for all of them, and EFS is
/// attached before the base setup.
#[verifier::rlimit(40)]
pub proof fn lemma_spawn_waits_for_ssh(
    state: ClusterState,
    efs: bool,
    affinity: bool,
    configured: Seq<bool>,
    spot: bool,
)
    ensures
        ssh_ready_before_node_setup(spawn_steps(state, efs, affinity, configured, spot), efs, configured),
{
    let n = configured.len();
    let restore = state == ClusterState::Running;
    let first = seq![
        LifecycleStep::SetClusterState(
            if restore {
                ClusterState::Restoring
            } else {
                ClusterState::Spawning
            },
        ),
    ];
    let p1 = when(efs, seq![LifecycleStep::RequestEfsDevice]);
    let p2 = seq![
        LifecycleStep::CreateVpc,
        LifecycleStep::CreateSubnet,
        LifecycleStep::CreateInternetGateway,
        LifecycleStep::CreateRouteTable,
        LifecycleStep::CreateSecurityGroup,
    ];
    let p3 = when(efs, seq![LifecycleStep::WaitEfsDeviceReady, LifecycleStep::RequestEfsMountTarget]);
    let p4 = seq![LifecycleStep::ImportSshKey];
    let p5 = when(affinity, seq![LifecycleStep::CreatePlacementGroup]);
    let prefix = spawn_network_prefix(efs, affinity);
    assert(prefix == p1 + p2 + p3 + p4 + p5);
    let nn = per_node(n, node_network_steps());
    let ri = per_node(n, one_per_node(PerNodeStep::RequestInstance));
    let w = seq![LifecycleStep::WaitInstancesAvailable];
    let m = when(efs, seq![LifecycleStep::WaitEfsMountTargetReady]);
    let ws = per_node(n, one_per_node(PerNodeStep::WaitForSsh));
    let a = when(efs, per_node(n, efs_attach_steps(configured)));
    let bs = per_node(n, one_per_node(PerNodeStep::BaseSetup));
    let r = seq![LifecycleStep::SetClusterState(ClusterState::Running)];
    let q = when(!restore && spot, seq![LifecycleStep::EnsureSpotInterruptionQueue]);
    let s = spawn_steps(state, efs, affinity, configured, spot);
    assert(s == first + prefix + nn + ri + w + m + ws + a + bs + r + q);

    lemma_staged_flat(first, false, 0);
    lemma_staged_flat(seq![LifecycleStep::RequestEfsDevice], false, 1);
    lemma_staged_when(efs, seq![LifecycleStep::RequestEfsDevice], false, 1);
    lemma_staged_flat(p2, false, 1);
    lemma_staged_flat(seq![LifecycleStep::WaitEfsDeviceReady, LifecycleStep::RequestEfsMountTarget], false, 1);
    lemma_staged_when(efs, seq![LifecycleStep::WaitEfsDeviceReady, LifecycleStep::RequestEfsMountTarget], false, 1);
    lemma_staged_flat(p4, false, 1);
    lemma_staged_flat(seq![LifecycleStep::CreatePlacementGroup], false, 1);
    lemma_staged_when(affinity, seq![LifecycleStep::CreatePlacementGroup], false, 1);
    lemma_staged_append(p1, p2, false, 1, 1, 1);
    lemma_staged_append(p1 + p2, p3, false, 1, 1, 1);
    lemma_staged_append(p1 + p2 + p3, p4, false, 1, 1, 1);
    lemma_staged_append(p1 + p2 + p3 + p4, p5, false, 1, 1, 1);
    assert forall|i: nat, k: int| i < n && 0 <= k < node_network_steps()(i).len() implies step_stage(
        #[trigger] node_network_steps()(i)[k],
        false,
    ) == 2 by {}
    lemma_staged_per_node(n, node_network_steps(), false, 2);
    lemma_staged_per_node(n, one_per_node(PerNodeStep::RequestInstance), false, 3);
    lemma_staged_flat(w, false, 4);
    lemma_staged_flat(seq![LifecycleStep::WaitEfsMountTargetReady], false, 5);
    lemma_staged_when(efs, seq![LifecycleStep::WaitEfsMountTargetReady], false, 5);
    lemma_staged_per_node(n, one_per_node(PerNodeStep::WaitForSsh), false, 6);
    assert forall|i: nat, k: int| i < n && 0 <= k < efs_attach_steps(configured)(i).len() implies step_stage(
        #[trigger] efs_attach_steps(configured)(i)[k],
        false,
    ) == 7 by {}
    lemma_staged_per_node(n, efs_attach_steps(configured), false, 7);
    lemma_staged_when(efs, per_node(n, efs_attach_steps(configured)), false, 7);
    lemma_staged_per_node(n, one_per_node(PerNodeStep::BaseSetup), false, 8);
    lemma_staged_flat(r, false, 9);
    lemma_staged_flat(seq![LifecycleStep::EnsureSpotInterruptionQueue], false, 10);
    lemma_staged_when(!restore && spot, seq![LifecycleStep::EnsureSpotInterruptionQueue], false, 10);
    lemma_staged_append(first, prefix, false, 0, 0, 1);
    lemma_staged_append(first + prefix, nn, false, 0, 1, 2);
    lemma_staged_append(first + prefix + nn, ri, false, 0, 2, 3);
    lemma_staged_append(first + prefix + nn + ri, w, false, 0, 3, 4);
    lemma_staged_append(first + prefix + nn + ri + w, m, false, 0, 4, 5);
    lemma_staged_append(first + prefix + nn + ri + w + m, ws, false, 0, 5, 6);
    lemma_staged_append(first + prefix + nn + ri + w + m + ws, a, false, 0, 6, 7);
    lemma_staged_append(first + prefix + nn + ri + w + m + ws + a, bs, false, 0, 7, 8);
    lemma_staged_append(first + prefix + nn + ri + w + m + ws + a + bs, r, false, 0, 8, 9);
    lemma_staged_append(first + prefix + nn + ri + w + m + ws + a + bs + r, q, false, 0, 9, 10);

    let l4 = first + prefix + nn + ri;
    assert(w[0] == LifecycleStep::WaitInstancesAvailable);
    lemma_contains_right(l4, w, LifecycleStep::WaitInstancesAvailable);
    lemma_contains_left(l4 + w, m, LifecycleStep::WaitInstancesAvailable);
    lemma_contains_left(l4 + w + m, ws, LifecycleStep::WaitInstancesAvailable);
    lemma_contains_left(l4 + w + m + ws, a, LifecycleStep::WaitInstancesAvailable);
    lemma_contains_left(l4 + w + m + ws + a, bs, LifecycleStep::WaitInstancesAvailable);
    lemma_contains_left(l4 + w + m + ws + a + bs, r, LifecycleStep::WaitInstancesAvailable);
    lemma_contains_left(l4 + w + m + ws + a + bs + r, q, LifecycleStep::WaitInstancesAvailable);

    assert forall|i: usize| i < n implies #[trigger] node_ready_before_setup(s, i, efs, configured) by {
        let x_ri = LifecycleStep::RequestInstance(i);
        let x_ws = LifecycleStep::WaitForSsh(i);
        let x_bs = LifecycleStep::BaseSetup(i);
        let x_ae = LifecycleStep::AttachEfs(i);
        let l3 = first + prefix + nn;
        assert(one_per_node(PerNodeStep::RequestInstance)(i as nat)[0] == x_ri);
        lemma_per_node_contains(n, one_per_node(PerNodeStep::RequestInstance), i as nat, x_ri);
        lemma_contains_right(l3, ri, x_ri);
        lemma_contains_left(l3 + ri, w, x_ri);
        lemma_contains_left(l3 + ri + w, m, x_ri);
        lemma_contains_left(l3 + ri + w + m, ws, x_ri);
        lemma_contains_left(l3 + ri + w + m + ws, a, x_ri);
        lemma_contains_left(l3 + ri + w + m + ws + a, bs, x_ri);
        lemma_contains_left(l3 + ri + w + m + ws + a + bs, r, x_ri);
        lemma_contains_left(l3 + ri + w + m + ws + a + bs + r, q, x_ri);

        let l6 = l4 + w + m;
        assert(one_per_node(PerNodeStep::WaitForSsh)(i as nat)[0] == x_ws);
        lemma_per_node_contains(n, one_per_node(PerNodeStep::WaitForSsh), i as nat, x_ws);
        lemma_contains_right(l6, ws, x_ws);
        lemma_contains_left(l6 + ws, a, x_ws);
        lemma_contains_left(l6 + ws + a, bs, x_ws);
        lemma_contains_left(l6 + ws + a + bs, r, x_ws);
        lemma_contains_left(l6 + ws + a + bs + r, q, x_ws);

        let l8 = l6 + ws + a;
        assert(one_per_node(PerNodeStep::BaseSetup)(i as nat)[0] == x_bs);
        lemma_per_node_contains(n, one_per_node(PerNodeStep::BaseSetup), i as nat, x_bs);
        lemma_contains_right(l8, bs, x_bs);
        lemma_contains_left(l8 + bs, r, x_bs);
        lemma_contains_left(l8 + bs + r, q, x_bs);

        if efs && !configured[i as int] {
            assert(efs_attach_steps(configured)(i as nat)[0] == x_ae);
            lemma_per_node_contains(n, efs_attach_steps(configured), i as nat, x_ae);
            lemma_contains_right(l6 + ws, a, x_ae);
            lemma_contains_left(l6 + ws + a, bs, x_ae);
            lemma_contains_left(l6 + ws + a + bs, r, x_ae);
            lemma_contains_left(l6 + ws + a + bs + r, q, x_ae);
        }
        lemma_staged_precedes(s, false, 0, 10, LifecycleStep::CreateNetworkInterface(i), x_ri);
        lemma_staged_precedes(s, false, 0, 10, x_ri, LifecycleStep::WaitInstancesAvailable);
        lemma_staged_precedes(s, false, 0, 10, LifecycleStep::WaitInstancesAvailable, x_ws);
        lemma_staged_precedes(s, false, 0, 10, x_ws, x_ae);
        lemma_staged_precedes(s, false, 0, 10, x_ws, x_bs);
        lemma_staged_precedes(s, false, 0, 10, x_ae, x_bs);
    }
}

/// A termination requests that the instances terminate, waits until they
/// are, and only then releases each node's Elastic IP and deletes its
/// interface; the interfaces go before the security group and the subnet.
#[verifier::rlimit(40)]
pub proof fn lemma_teardown_waits_for_instances(efs: bool, affinity: bool, n: nat, spot: bool)
    ensures
        instances_gone_before_node_network(teardown_steps(efs, affinity, n, spot), n),
{
    let q = when(spot, seq![LifecycleStep::CleanupSpotInterruptionQueue]);
    let t = seq![LifecycleStep::SetClusterState(ClusterState::Terminating)];
    let ce = per_node(n, one_per_node(PerNodeStep::ClearEfsConfiguration));
    let md = when(efs, seq![LifecycleStep::RequestMountTargetDeletion]);
    let it = seq![LifecycleStep::RequestInstanceTermination];
    let ew = when(efs, seq![LifecycleStep::WaitMountTargetDeleted, LifecycleStep::RequestEfsDeviceDeletion]);
    let wt = seq![LifecycleStep::WaitInstancesTerminated];
    let nt = per_node(n, node_teardown_steps());
    let u1 = when(affinity, seq![LifecycleStep::DeletePlacementGroup]);
    let u2 = seq![
        LifecycleStep::DeleteSshKey,
        LifecycleStep::DeleteSecurityGroup,
        LifecycleStep::DeleteRouteTable,
        LifecycleStep::DeleteInternetGateway,
        LifecycleStep::DeleteSubnet,
        LifecycleStep::DeleteVpc,
    ];
    let u3 = when(efs, seq![LifecycleStep::WaitEfsDeviceDeleted]);
    let suffix = teardown_network_suffix(efs, affinity);
    assert(suffix == u1 + u2 + u3);
    let rn = per_node(n, one_per_node(PerNodeStep::ResetNode));
    let pe = seq![LifecycleStep::SetClusterState(ClusterState::Pending)];
    let s = teardown_steps(efs, affinity, n, spot);
    assert(s == q + t + ce + md + it + ew + wt + nt + suffix + rn + pe);

    lemma_staged_flat(seq![LifecycleStep::CleanupSpotInterruptionQueue], true, 0);
    lemma_staged_when(spot, seq![LifecycleStep::CleanupSpotInterruptionQueue], true, 0);
    lemma_staged_flat(t, true, 0);
    lemma_staged_per_node(n, one_per_node(PerNodeStep::ClearEfsConfiguration), true, 1);
    lemma_staged_flat(seq![LifecycleStep::RequestMountTargetDeletion], true, 2);
    lemma_staged_when(efs, seq![LifecycleStep::RequestMountTargetDeletion], true, 2);
    lemma_staged_flat(it, true, 3);
    lemma_staged_flat(seq![LifecycleStep::WaitMountTargetDeleted, LifecycleStep::RequestEfsDeviceDeletion], true, 4);
    lemma_staged_when(efs, seq![LifecycleStep::WaitMountTargetDeleted, LifecycleStep::RequestEfsDeviceDeletion], true, 4);
    lemma_staged_flat(wt, true, 5);
    assert forall|i: nat, k: int| i < n && 0 <= k < node_teardown_steps()(i).len() implies step_stage(
        #[trigger] node_teardown_steps()(i)[k],
        true,
    ) == 6 by {}
    lemma_staged_per_node(n, node_teardown_steps(), true, 6);
    lemma_staged_flat(seq![LifecycleStep::DeletePlacementGroup], true, 7);
    lemma_staged_when(affinity, seq![LifecycleStep::DeletePlacementGroup], true, 7);
    lemma_staged_flat(u2, true, 7);
    lemma_staged_flat(seq![LifecycleStep::WaitEfsDeviceDeleted], true, 7);
    lemma_staged_when(efs, seq![LifecycleStep::WaitEfsDeviceDeleted], true, 7);
    lemma_staged_append(u1, u2, true, 7, 7, 7);
    lemma_staged_append(u1 + u2, u3, true, 7, 7, 7);
    lemma_staged_per_node(n, one_per_node(PerNodeStep::ResetNode), true, 8);
    lemma_staged_flat(pe, true, 9);
    lemma_staged_append(q, t, true, 0, 0, 0);
    lemma_staged_append(q + t, ce, true, 0, 0, 1);
    lemma_staged_append(q + t + ce, md, true, 0, 1, 2);
    lemma_staged_append(q + t + ce + md, it, true, 0, 2, 3);
    lemma_staged_append(q + t + ce + md + it, ew, true, 0, 3, 4);
    lemma_staged_append(q + t + ce + md + it + ew, wt, true, 0, 4, 5);
    lemma_staged_append(q + t + ce + md + it + ew + wt, nt, true, 0, 5, 6);
    lemma_staged_append(q + t + ce + md + it + ew + wt + nt, suffix, true, 0, 6, 7);
    lemma_staged_append(q + t + ce + md + it + ew + wt + nt + suffix, rn, true, 0, 7, 8);
    lemma_staged_append(q + t + ce + md + it + ew + wt + nt + suffix + rn, pe, true, 0, 8, 9);

    let x_it = LifecycleStep::RequestInstanceTermination;
    let x_wt = LifecycleStep::WaitInstancesTerminated;
    let l4 = q + t + ce + md;
    assert(it[0] == x_it);
    lemma_contains_right(l4, it, x_it);
    lemma_contains_left(l4 + it, ew, x_it);
    lemma_contains_left(l4 + it + ew, wt, x_it);
    lemma_contains_left(l4 + it + ew + wt, nt, x_it);
    lemma_contains_left(l4 + it + ew + wt + nt, suffix, x_it);
    lemma_contains_left(l4 + it + ew + wt + nt + suffix, rn, x_it);
    lemma_contains_left(l4 + it + ew + wt + nt + suffix + rn, pe, x_it);
    let l6 = l4 + it + ew;
    assert(wt[0] == x_wt);
    lemma_contains_right(l6, wt, x_wt);
    lemma_contains_left(l6 + wt, nt, x_wt);
    lemma_contains_left(l6 + wt + nt, suffix, x_wt);
    lemma_contains_left(l6 + wt + nt + suffix, rn, x_wt);
    lemma_contains_left(l6 + wt + nt + suffix + rn, pe, x_wt);
    lemma_staged_precedes(s, true, 0, 9, x_it, x_wt);

    assert forall|i: usize| i < n implies #[trigger] node_released_after_instances(s, i) by {
        let x_re = LifecycleStep::ReleaseElasticIp(i);
        let x_dn = LifecycleStep::DeleteNetworkInterface(i);
        let l7 = l6 + wt;
        assert(node_teardown_steps()(i as nat)[0] == x_re);
        assert(node_teardown_steps()(i as nat)[1] == x_dn);
        lemma_per_node_contains(n, node_teardown_steps(), i as nat, x_re);
        lemma_per_node_contains(n, node_teardown_steps(), i as nat, x_dn);
        lemma_contains_right(l7, nt, x_re);
        lemma_contains_left(l7 + nt, suffix, x_re);
        lemma_contains_left(l7 + nt + suffix, rn, x_re);
        lemma_contains_left(l7 + nt + suffix + rn, pe, x_re);
        lemma_contains_right(l7, nt, x_dn);
        lemma_contains_left(l7 + nt, suffix, x_dn);
        lemma_contains_left(l7 + nt + suffix, rn, x_dn);
        lemma_contains_left(l7 + nt + suffix + rn, pe, x_dn);
        lemma_staged_precedes(s, true, 0, 9, x_wt, x_re);
        lemma_staged_precedes(s, true, 0, 9, x_wt, x_dn);
        lemma_staged_precedes(s, true, 0, 9, x_dn, LifecycleStep::DeleteSecurityGroup);
        lemma_staged_precedes(s, true, 0, 9, x_dn, LifecycleStep::DeleteSubnet);
    }
}

} // verus!

