//! Planning an EC2 instance launch, and the capacity retry that walks the
//! preferred instance types round after round.

use vstd::prelude::*;
use crate::aws::context::AwsClusterContext;
use crate::cluster::Node;
use crate::text::{contains_seq, join_seq, lowercase, str_contains, to_lowercase, views};

verus! {

/// Rounds of launch attempts after the first one before giving up.
pub const MAX_CAPACITY_ROUNDS: u32 = 10;

/// Seconds to wait after a round in which every candidate type was refused.
pub const CAPACITY_RETRY_DELAY_SECS: u64 = 30;

/// The instance types to try, in order of preference: the candidates given,
/// or the node's own type when none are given.
pub open spec fn candidate_types(preferred: Seq<char>, candidates: Seq<Seq<char>>) -> Seq<
    Seq<char>,
> {
    if candidates.len() == 0 {
        seq![preferred]
    } else {
        candidates
    }
}

/// Builds the list of instance types to try.
pub fn launch_candidates(preferred: &String, candidates: &Vec<String>) -> (r: Vec<String>)
    ensures
        views(r@) == candidate_types(preferred@, views(candidates@)),
        r@.len() > 0,
{
    if candidates.len() == 0 {
        let mut r: Vec<String> = Vec::new();
        r.push(preferred.clone());
        assert(views(r@) =~= seq![preferred@]);
        r
    } else {
        let r = candidates.clone();
        assert(views(r@) =~= views(candidates@)) by {
            assert forall|i: int| 0 <= i < r@.len() implies r@[i]@ == candidates@[i]@ by {
                assert(cloned::<String>(candidates@[i], r@[i]));
            }
        }
        r
    }
}

/// How a refused launch request is handled.
#[derive(Debug, Clone, Copy, PartialEq, Eq, Structural)]
pub enum LaunchErrorKind {
    /// No capacity for this type right now: another type may work.
    NoCapacity,
    /// The network interface is still held by a terminating instance:
    /// waiting helps.
    NetworkInterfaceBusy,
    /// Anything else: retrying will not help.
    Fatal,
}

/// The kind of a launch error, read from its message.
pub open spec fn launch_error_kind(message: Seq<char>) -> LaunchErrorKind {
    if contains_seq(message, "InvalidNetworkInterface.InUse"@) {
        LaunchErrorKind::NetworkInterfaceBusy
    } else if contains_seq(message, "InsufficientInstanceCapacity"@) {
        LaunchErrorKind::NoCapacity
    } else {
        LaunchErrorKind::Fatal
    }
}

/// Classifies a refused launch request by its error message.
pub fn classify_launch_error(message: &str) -> (k: LaunchErrorKind)
    ensures
        k == launch_error_kind(message@),
{
    if str_contains(message, "InvalidNetworkInterface.InUse") {
        LaunchErrorKind::NetworkInterfaceBusy
    } else if str_contains(message, "InsufficientInstanceCapacity") {
        LaunchErrorKind::NoCapacity
    } else {
        LaunchErrorKind::Fatal
    }
}

/// Where a capacity retry stands.
#[derive(Debug, Clone, Copy, PartialEq, Eq, Structural)]
pub enum LaunchPhase {
    /// Next, try candidate `index` in round `round` (rounds count from 0).
    Trying { round: u32, index: usize },
    /// Every candidate was refused in the round before `round`: wait, then
    /// start round `round`.
    Waiting { round: u32 },
    /// Candidate `index` was accepted.
    Launched { index: usize },
    /// Every round was refused.
    Exhausted,
    /// A refusal that retrying cannot cure.
    Failed,
}

/// What the caller should do next.
pub enum LaunchAction {
    /// Send the launch request with this instance type.
    Attempt { instance_type: String },
    /// Sleep this many seconds, then call `record_wait`.
    Wait { seconds: u64 },
    /// The instance was launched with this type.
    Launched { instance_type: String },
    /// Give up: no candidate could be launched in any round.
    GiveUp,
    /// Give up: the last refusal cannot be cured by retrying.
    Abort,
}

/// The phase after a refusal of the candidate being tried.
pub open spec fn phase_after_refusal(phase: LaunchPhase, kind: LaunchErrorKind, len: nat) -> LaunchPhase {
    match phase {
        LaunchPhase::Trying { round, index } => if kind == LaunchErrorKind::Fatal {
            LaunchPhase::Failed
        } else if index + 1 < len {
            LaunchPhase::Trying { round, index: (index + 1) as usize }
        } else if round + 1 > MAX_CAPACITY_ROUNDS {
            LaunchPhase::Exhausted
        } else {
            LaunchPhase::Waiting { round: (round + 1) as u32 }
        },
        _ => phase,
    }
}

/// The phase names a candidate among the first `len` and a round within
/// `MAX_CAPACITY_ROUNDS`; a wait always precedes a round after the first.
pub open spec fn phase_in_range(phase: LaunchPhase, len: nat) -> bool {
    match phase {
        LaunchPhase::Trying { round, index } => round <= MAX_CAPACITY_ROUNDS && index < len,
        LaunchPhase::Waiting { round } => 1 <= round <= MAX_CAPACITY_ROUNDS,
        LaunchPhase::Launched { index } => index < len,
        _ => true,
    }
}

/// The label of the last transient refusal, as the give-up message reports it.
pub open spec fn transient_label(kind: LaunchErrorKind, candidate: Seq<char>) -> Seq<char> {
    if kind == LaunchErrorKind::NetworkInterfaceBusy {
        "InvalidNetworkInterface.InUse"@
    } else {
        "InsufficientInstanceCapacity ("@ + candidate + ")"@
    }
}

/// A launched instance and the type it was launched with.
pub struct InstanceLaunch {
    pub instance_id: String,
    pub instance_type: String,
}

/// The retry of a launch over a preference-ordered list of instance types:
/// each round tries the candidates in order, starting from the most
/// preferred, and takes the first one accepted; only when every candidate
/// is refused does it wait and start another round, up to
/// `MAX_CAPACITY_ROUNDS` rounds after the first.
pub struct CapacityRetry {
    candidates: Vec<String>,
    progress: RetryProgress,
}

struct RetryProgress {
    phase: LaunchPhase,
    last_transient_error: String,
    attempts: Ghost<nat>,
}

impl CapacityRetry {
    /// The instance types, in order of preference.
    pub closed spec fn candidates_view(&self) -> Seq<Seq<char>> {
        views(self.candidates@)
    }

    /// The current phase.
    pub closed spec fn phase_view(&self) -> LaunchPhase {
        self.progress.phase
    }

    /// The label of the last transient refusal ("none" before any).
    pub closed spec fn last_error_view(&self) -> Seq<char> {
        self.progress.last_transient_error@
    }

    /// The number of launch requests sent so far.
    pub closed spec fn attempts_view(&self) -> nat {
        self.progress.attempts@
    }

    /// No more than `MAX_CAPACITY_ROUNDS + 1` requests per candidate type
    /// have been sent, and a retry still trying has sent fewer.
    pub closed spec fn within_budget(&self) -> bool {
        let len = self.candidates@.len();
        &&& len > 0
        &&& self.progress.attempts@ <= (MAX_CAPACITY_ROUNDS + 1) * len
        &&& self.progress.phase is Trying ==> self.progress.attempts@ < (MAX_CAPACITY_ROUNDS + 1) * len
    }

    proof fn lemma_within_budget(&self)
        requires
            self.well_formed(),
        ensures
            self.within_budget(),
    {
        let len = self.candidates@.len();
        match self.progress.phase {
            LaunchPhase::Trying { round, index } => {
                assert(round * len + index < (MAX_CAPACITY_ROUNDS + 1) * len) by (nonlinear_arith)
                    requires
                        round <= MAX_CAPACITY_ROUNDS,
                        index < len,
                ;
            },
            LaunchPhase::Waiting { round } => {
                assert(round * len <= (MAX_CAPACITY_ROUNDS + 1) * len) by (nonlinear_arith)
                    requires
                        round <= MAX_CAPACITY_ROUNDS,
                ;
            },
            _ => {},
        }
    }

    #[verifier::type_invariant]
    spec fn well_formed(&self) -> bool {
        let len = self.candidates@.len();
        &&& len > 0
        &&& match self.progress.phase {
            LaunchPhase::Trying { round, index } => round <= MAX_CAPACITY_ROUNDS && index < len
                && self.progress.attempts@ == round * len + index,
            LaunchPhase::Waiting { round } => 1 <= round <= MAX_CAPACITY_ROUNDS && self.progress.attempts@
                == round * len,
            LaunchPhase::Launched { index } => index < len && self.progress.attempts@ <= (
            MAX_CAPACITY_ROUNDS + 1) * len,
            LaunchPhase::Exhausted => self.progress.attempts@ == (MAX_CAPACITY_ROUNDS + 1) * len,
            LaunchPhase::Failed => self.progress.attempts@ <= (MAX_CAPACITY_ROUNDS + 1) * len,
        }
    }

    /// Starts a retry over the candidate types (the node's preferred type
    /// alone when `candidates` is empty), at the most preferred one.
    pub fn new(preferred: &String, candidates: &Vec<String>) -> (r: Self)
        ensures
            r.candidates_view() == candidate_types(preferred@, views(candidates@)),
            r.phase_view() == (LaunchPhase::Trying { round: 0, index: 0 }),
            r.last_error_view() == "none"@,
            r.attempts_view() == 0,
            r.within_budget(),
    {
        let c = launch_candidates(preferred, candidates);
        let r = CapacityRetry {
            candidates: c,
            progress: RetryProgress {
                phase: LaunchPhase::Trying { round: 0, index: 0 },
                last_transient_error: String::from_str("none"),
                attempts: Ghost(0),
            },
        };
        proof {
            r.lemma_within_budget();
        }
        r
    }

    /// The current phase.
    pub fn phase(&self) -> (p: LaunchPhase)
        ensures
            p == self.phase_view(),
            phase_in_range(p, self.candidates_view().len()),
    {
        proof {
            use_type_invariant(self);
        }
        self.progress.phase
    }

    /// The launch record, once a candidate was accepted and the instance got
    /// the id `instance_id`; `None` in every other phase.
    pub fn launched(&self, instance_id: String) -> (r: Option<InstanceLaunch>)
        ensures
            phase_in_range(self.phase_view(), self.candidates_view().len()),
            match self.phase_view() {
                LaunchPhase::Launched { index } => r matches Some(l) && l.instance_id@
                    == instance_id@ && l.instance_type@ == self.candidates_view()[index as int],
                _ => r is None,
            },
    {
        proof {
            use_type_invariant(self);
        }
        match self.progress.phase {
            LaunchPhase::Launched { index } => Some(
                InstanceLaunch { instance_id, instance_type: self.candidates[index].clone() },
            ),
            _ => None,
        }
    }

    /// What to do next.
    pub fn action(&self) -> (a: LaunchAction)
        ensures
            phase_in_range(self.phase_view(), self.candidates_view().len()),
            match self.phase_view() {
                LaunchPhase::Trying { round, index } => a matches LaunchAction::Attempt {
                    instance_type,
                } && instance_type@ == self.candidates_view()[index as int],
                LaunchPhase::Waiting { round } => a matches LaunchAction::Wait { seconds }
                    && seconds == CAPACITY_RETRY_DELAY_SECS,
                LaunchPhase::Launched { index } => a matches LaunchAction::Launched {
                    instance_type,
                } && instance_type@ == self.candidates_view()[index as int],
                LaunchPhase::Exhausted => a is GiveUp,
                LaunchPhase::Failed => a is Abort,
            },
    {
        proof {
            use_type_invariant(self);
        }
        match self.progress.phase {
            LaunchPhase::Trying { round, index } => LaunchAction::Attempt {
                instance_type: self.candidates[index].clone(),
            },
            LaunchPhase::Waiting { round } => LaunchAction::Wait {
                seconds: CAPACITY_RETRY_DELAY_SECS,
            },
            LaunchPhase::Launched { index } => LaunchAction::Launched {
                instance_type: self.candidates[index].clone(),
            },
            LaunchPhase::Exhausted => LaunchAction::GiveUp,
            LaunchPhase::Failed => LaunchAction::Abort,
        }
    }

    /// Records that the candidate being tried was accepted.
    pub fn record_accepted(&mut self)
        ensures
            final(self).within_budget(),
            final(self).candidates_view() == old(self).candidates_view(),
            final(self).last_error_view() == old(self).last_error_view(),
            match old(self).phase_view() {
                LaunchPhase::Trying { round, index } => final(self).phase_view()
                    == (LaunchPhase::Launched { index }) && final(self).attempts_view()
                    == old(self).attempts_view() + 1,
                _ => final(self).phase_view() == old(self).phase_view()
                    && final(self).attempts_view() == old(self).attempts_view(),
            },
    {
        proof {
            use_type_invariant(&*self);
        }
        match self.progress.phase {
            LaunchPhase::Trying { round, index } => {
                let ghost len = self.candidates@.len();
                proof {
                    assert(round * len + index + 1 <= (MAX_CAPACITY_ROUNDS + 1) * len) by (nonlinear_arith)
                        requires
                            round <= MAX_CAPACITY_ROUNDS,
                            index < len,
                    ;
                }
                let label = self.progress.last_transient_error.clone();
                self.progress = RetryProgress {
                    phase: LaunchPhase::Launched { index },
                    last_transient_error: label,
                    attempts: Ghost(self.progress.attempts@ + 1),
                };
            },
            _ => {},
        }
        proof {
            self.lemma_within_budget();
        }
    }

    /// Records that the candidate being tried was refused with `message`:
    /// a non-transient refusal ends the retry; a transient one moves to the
    /// next candidate, or, after the last candidate, ends the round.
    pub fn record_refused(&mut self, message: &str)
        ensures
            final(self).within_budget(),
            final(self).candidates_view() == old(self).candidates_view(),
            final(self).phase_view() == phase_after_refusal(
                old(self).phase_view(),
                launch_error_kind(message@),
                old(self).candidates_view().len(),
            ),
            match old(self).phase_view() {
                LaunchPhase::Trying { round, index } => {
                    &&& final(self).attempts_view() == old(self).attempts_view() + 1
                    &&& launch_error_kind(message@) != LaunchErrorKind::Fatal ==> final(self).last_error_view() == transient_label(
                        launch_error_kind(message@),
                        old(self).candidates_view()[index as int],
                    )
                    &&& launch_error_kind(message@) == LaunchErrorKind::Fatal ==> final(self).last_error_view() == old(self).last_error_view()
                },
                _ => final(self).attempts_view() == old(self).attempts_view()
                    && final(self).last_error_view() == old(self).last_error_view(),
            },
    {
        proof {
            use_type_invariant(&*self);
        }
        let kind = classify_launch_error(message);
        match self.progress.phase {
            LaunchPhase::Trying { round, index } => {
                let ghost len = self.candidates@.len();
                proof {
                    assert(round * len + index + 1 <= (MAX_CAPACITY_ROUNDS + 1) * len) by (nonlinear_arith)
                        requires
                            round <= MAX_CAPACITY_ROUNDS,
                            index < len,
                    ;
                    assert((round + 1) * len == round * len + len) by (nonlinear_arith);
                }
                if kind == LaunchErrorKind::Fatal {
                    let label = self.progress.last_transient_error.clone();
                    self.progress = RetryProgress {
                        phase: LaunchPhase::Failed,
                        last_transient_error: label,
                        attempts: Ghost(self.progress.attempts@ + 1),
                    };
                    proof {
                        self.lemma_within_budget();
                    }
                    return ;
                }
                let label = if kind == LaunchErrorKind::NetworkInterfaceBusy {
                    String::from_str("InvalidNetworkInterface.InUse")
                } else {
                    let mut l = String::from_str("InsufficientInstanceCapacity (");
                    l.append(self.candidates[index].as_str());
                    l.append(")");
                    l
                };
                let next = if index < self.candidates.len() - 1 {
                    LaunchPhase::Trying { round, index: index + 1 }
                } else if round + 1 > MAX_CAPACITY_ROUNDS {
                    LaunchPhase::Exhausted
                } else {
                    LaunchPhase::Waiting { round: round + 1 }
                };
                self.progress = RetryProgress {
                    phase: next,
                    last_transient_error: label,
                    attempts: Ghost(self.progress.attempts@ + 1),
                };
            },
            _ => {},
        }
        proof {
            self.lemma_within_budget();
        }
    }

    /// Records that the wait after a refused round is over: the next round
    /// starts again from the most preferred candidate.
    pub fn record_wait(&mut self)
        ensures
            final(self).within_budget(),
            final(self).candidates_view() == old(self).candidates_view(),
            final(self).last_error_view() == old(self).last_error_view(),
            final(self).attempts_view() == old(self).attempts_view(),
            match old(self).phase_view() {
                LaunchPhase::Waiting { round } => final(self).phase_view() == (LaunchPhase::Trying {
                    round,
                    index: 0,
                }),
                _ => final(self).phase_view() == old(self).phase_view(),
            },
    {
        proof {
            use_type_invariant(&*self);
        }
        match self.progress.phase {
            LaunchPhase::Waiting { round } => {
                let label = self.progress.last_transient_error.clone();
                self.progress = RetryProgress {
                    phase: LaunchPhase::Trying { round, index: 0 },
                    last_transient_error: label,
                    attempts: Ghost(self.progress.attempts@),
                };
            },
            _ => {},
        }
        proof {
            self.lemma_within_budget();
        }
    }

    /// The message with which a retry that ran out of rounds gives up.
    pub fn give_up_message(&self, instance_name: &str) -> (m: String)
        ensures
            m@ == "Could not launch '"@ + instance_name@ + "' as any of ["@ + join_seq(
                self.candidates_view(),
                ", "@,
            ) + "] after 10 rounds (300s). Last transient error: "@ + self.last_error_view(),
    {
        let mut m = String::from_str("Could not launch '");
        m.append(instance_name);
        m.append("' as any of [");
        let joined = crate::text::join(&self.candidates, ", ");
        m.append(joined.as_str());
        m.append("] after 10 rounds (300s). Last transient error: ");
        m.append(self.progress.last_transient_error.as_str());
        m
    }
}

/// The root volume of a launched instance.
pub struct RootVolumePlan {
    pub device_name: String,
    pub volume_size_gb: i32,
    pub volume_type: String,
    pub throughput: Option<i32>,
    pub iops: Option<i32>,
    pub delete_on_termination: bool,
    pub encrypted: bool,
}

/// Everything a RunInstances request carries besides the instance type,
/// which the capacity retry chooses per attempt.
pub struct LaunchRequestPlan {
    pub instance_name: String,
    pub image_id: String,
    pub key_name: String,
    pub network_interface_id: String,
    pub root_volume: RootVolumePlan,
    pub cpu_credits: Option<String>,
    pub placement_group: Option<String>,
    pub cluster_tag_key: String,
    pub cluster_tag_value: String,
}

/// Why an instance launch could not be planned.
pub enum LaunchPlanError {
    /// No network interface is recorded for the node.
    MissingNetworkInterface { node_index: usize },
}

/// `p` is the root volume of `node`'s instance: the node's size and type,
/// a throughput of 500 MB/s for gp3 volumes, and the node's IOPS if set.
pub open spec fn root_volume_of(node: Node, p: RootVolumePlan) -> bool {
    &&& p.device_name@ == "/dev/xvda"@
    &&& p.volume_size_gb == node.root_volume_gb as i32
    &&& p.volume_type@ == node.root_volume_type@
    &&& p.throughput == (if node.root_volume_type@ == "gp3"@ {
        Some(500i32)
    } else {
        None
    })
    &&& p.iops == (match node.root_volume_iops {
        Some(v) => Some(v as i32),
        None => None,
    })
    &&& p.delete_on_termination
    &&& !p.encrypted
}

/// Plans the root volume of a node's instance: its size and type, a
/// throughput of 500 MB/s for gp3 volumes, and the node's IOPS if set.
pub fn root_volume_plan(node: &Node) -> (p: RootVolumePlan)
    ensures
        root_volume_of(*node, p),
{
    let gp3 = String::from_str("gp3");
    let throughput = if node.root_volume_type == gp3 {
        Some(500i32)
    } else {
        None
    };
    let iops = match node.root_volume_iops {
        Some(v) => Some(#[verifier::truncate] (v as i32)),
        None => None,
    };
    RootVolumePlan {
        device_name: String::from_str("/dev/xvda"),
        volume_size_gb: #[verifier::truncate] (node.root_volume_gb as i32),
        volume_type: node.root_volume_type.clone(),
        throughput,
        iops,
        delete_on_termination: true,
        encrypted: false,
    }
}

/// Plans the launch request for node `node_index`: its name, image, key
/// pair, network interface, root volume, CPU credit mode (the node's
/// burstable mode in lowercase), and the placement group when node affinity
/// is on and a group exists.
pub fn plan_instance_launch(context: &AwsClusterContext, node: &Node, node_index: usize) -> (r:
    Result<LaunchRequestPlan, LaunchPlanError>)
    ensures
        match r {
            Ok(p) => {
                &&& context.elastic_network_interface_ids@.contains_key(node_index)
                &&& p.network_interface_id@ == context.elastic_network_interface_ids@[node_index]@
                &&& p.instance_name@ == crate::aws::context::node_resource_name(
                    context.cluster_id@,
                    "-EC2-INSTANCE-"@,
                    node_index as nat,
                )
                &&& p.image_id@ == node.image_id@
                &&& p.key_name@ == context.ssh_key_name@
                &&& root_volume_of(*node, p.root_volume)
                &&& match node.burstable_mode {
                    Some(m) => p.cpu_credits is Some && p.cpu_credits.unwrap()@ == lowercase(m@),
                    None => p.cpu_credits is None,
                }
                &&& match p.placement_group {
                    Some(g) => context.use_node_affinity
                        && context.placement_group_name_actual is Some && g@
                        == context.placement_group_name_actual.unwrap()@,
                    None => !context.use_node_affinity
                        || context.placement_group_name_actual is None,
                }
                &&& p.cluster_tag_key@ == context.cluster_id_tag.key@
                &&& p.cluster_tag_value@ == context.cluster_id_tag.value@
            },
            Err(LaunchPlanError::MissingNetworkInterface { node_index: i }) => i == node_index
                && !context.elastic_network_interface_ids@.contains_key(node_index),
        },
{
    let eni = match context.network_interface_for(node_index) {
        Some(id) => id,
        None => {
            return Err(LaunchPlanError::MissingNetworkInterface { node_index });
        },
    };
    let cpu_credits = match &node.burstable_mode {
        Some(m) => Some(to_lowercase(m.as_str())),
        None => None,
    };
    let placement_group = if context.use_node_affinity {
        match &context.placement_group_name_actual {
            Some(g) => Some(g.clone()),
            None => None,
        }
    } else {
        None
    };
    Ok(
        LaunchRequestPlan {
            instance_name: context.ec2_instance_name(node_index),
            image_id: node.image_id.clone(),
            key_name: context.ssh_key_name.clone(),
            network_interface_id: eni,
            root_volume: root_volume_plan(node),
            cpu_credits,
            placement_group,
            cluster_tag_key: context.cluster_id_tag.key.clone(),
            cluster_tag_value: context.cluster_id_tag.value.clone(),
        },
    )
}

} // verus!
