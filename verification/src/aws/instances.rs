//! Classifying EC2 instances by state: what to terminate, what to reuse,
//! what has failed, and when the waits for instances are over.

use vstd::prelude::*;

verus! {

/// The state of an EC2 instance (`Other` stands for any state this library
/// does not distinguish).
#[derive(Debug, Clone, Copy, PartialEq, Eq, Structural)]
pub enum InstanceState {
    Pending,
    Running,
    ShuttingDown,
    Terminated,
    Stopping,
    Stopped,
    Other,
}

/// What the instance logic reads of an EC2 instance description.
pub struct InstanceRecord {
    pub instance_id: Option<String>,
    pub state: Option<InstanceState>,
    pub private_ip: Option<String>,
    pub instance_type: Option<String>,
}

/// Running or starting up.
pub open spec fn is_active(s: InstanceState) -> bool {
    s == InstanceState::Running || s == InstanceState::Pending
}

/// A state in which termination is requested for a cluster instance.
pub open spec fn is_terminable(s: InstanceState) -> bool {
    s == InstanceState::Running || s == InstanceState::Pending || s == InstanceState::Stopped
        || s == InstanceState::Stopping
}

/// Terminated or on its way there.
pub open spec fn is_gone(s: InstanceState) -> bool {
    s == InstanceState::Terminated || s == InstanceState::ShuttingDown
}

/// A state in which a node counts as failed in a health check.
pub open spec fn is_failed(s: InstanceState) -> bool {
    s == InstanceState::Terminated || s == InstanceState::ShuttingDown || s
        == InstanceState::Stopped || s == InstanceState::Stopping
}

fn is_terminable_exec(s: InstanceState) -> (b: bool)
    ensures
        b == is_terminable(s),
{
    match s {
        InstanceState::Running | InstanceState::Pending | InstanceState::Stopped
        | InstanceState::Stopping => true,
        _ => false,
    }
}

fn is_gone_exec(s: InstanceState) -> (b: bool)
    ensures
        b == is_gone(s),
{
    match s {
        InstanceState::Terminated | InstanceState::ShuttingDown => true,
        _ => false,
    }
}

fn is_active_exec(s: InstanceState) -> (b: bool)
    ensures
        b == is_active(s),
{
    match s {
        InstanceState::Running | InstanceState::Pending => true,
        _ => false,
    }
}

/// The instances of all reservations, reservation by reservation.
pub open spec fn flatten(res: Seq<Vec<InstanceRecord>>) -> Seq<InstanceRecord>
    decreases res.len(),
{
    if res.len() == 0 {
        Seq::empty()
    } else {
        res[0]@ + flatten(res.drop_first())
    }
}

/// The first instance of each reservation that has one.
pub open spec fn first_of_each(res: Seq<Vec<InstanceRecord>>) -> Seq<InstanceRecord>
    decreases res.len(),
{
    if res.len() == 0 {
        Seq::empty()
    } else if res[0]@.len() > 0 {
        seq![res[0]@[0]] + first_of_each(res.drop_first())
    } else {
        first_of_each(res.drop_first())
    }
}

/// All instances of a DescribeInstances answer, in order.
pub fn flatten_reservations(reservations: Vec<Vec<InstanceRecord>>) -> (r: Vec<InstanceRecord>)
    ensures
        r@ == flatten(reservations@),
{
    let mut rest = reservations;
    let mut out: Vec<InstanceRecord> = Vec::new();
    while rest.len() > 0
        invariant
            out@ + flatten(rest@) == flatten(reservations@),
        decreases rest.len(),
    {
        let ghost before = rest@;
        let mut first = rest.remove(0);
        assert(rest@ =~= before.drop_first());
        let ghost first_view = first@;
        out.append(&mut first);
        assert(out@ + flatten(rest@) =~= (out@.subrange(0, out@.len() - first_view.len())
            + first_view) + flatten(before.drop_first()));
    }
    assert(out@ + flatten(rest@) =~= out@);
    out
}

/// The first instance of each reservation of a DescribeInstances answer.
pub fn first_instances(reservations: Vec<Vec<InstanceRecord>>) -> (r: Vec<InstanceRecord>)
    ensures
        r@ == first_of_each(reservations@),
{
    let mut rest = reservations;
    let mut out: Vec<InstanceRecord> = Vec::new();
    while rest.len() > 0
        invariant
            out@ + first_of_each(rest@) == first_of_each(reservations@),
        decreases rest.len(),
    {
        let ghost before = rest@;
        let mut first = rest.remove(0);
        assert(rest@ =~= before.drop_first());
        if first.len() > 0 {
            let head = first.remove(0);
            out.push(head);
            assert(out@ + first_of_each(rest@) =~= out@.drop_last() + (seq![head]
                + first_of_each(before.drop_first())));
        }
    }
    assert(out@ + first_of_each(rest@) =~= out@);
    out
}

/// The ids of the instances in a state in which termination is requested.
pub open spec fn terminable_ids(s: Seq<InstanceRecord>) -> Seq<Seq<char>>
    decreases s.len(),
{
    if s.len() == 0 {
        Seq::empty()
    } else {
        let r = s.last();
        let before = terminable_ids(s.drop_last());
        if r.instance_id is Some && r.state is Some && is_terminable(r.state.unwrap()) {
            before.push(r.instance_id.unwrap()@)
        } else {
            before
        }
    }
}

/// The ids of the instances to terminate: those running, pending, stopped
/// or stopping (already terminated or shutting-down instances are left
/// alone).
pub fn instances_to_terminate(instances: &Vec<InstanceRecord>) -> (r: Vec<String>)
    ensures
        crate::text::views(r@) == terminable_ids(instances@),
{
    let mut r: Vec<String> = Vec::new();
    let mut i: usize = 0;
    while i < instances.len()
        invariant
            i <= instances.len(),
            crate::text::views(r@) == terminable_ids(instances@.take(i as int)),
        decreases instances.len() - i,
    {
        assert(instances@.take(i + 1).drop_last() =~= instances@.take(i as int));
        let rec = &instances[i];
        match (&rec.instance_id, rec.state) {
            (Some(id), Some(st)) => {
                if is_terminable_exec(st) {
                    r.push(id.clone());
                    assert(crate::text::views(r@) =~= crate::text::views(r@.drop_last()).push(
                        id@,
                    ));
                }
            },
            _ => {},
        }
        i = i + 1;
    }
    assert(instances@.take(instances.len() as int) =~= instances@);
    r
}

/// An instance whose state decides whether an instance of the same name
/// can be reused: it has an id and a state, and is not terminated or
/// shutting down.
pub open spec fn blocks_creation(r: InstanceRecord) -> bool {
    r.instance_id is Some && r.state is Some && !is_gone(r.state.unwrap())
}

/// `blocks_creation` as a predicate value.
pub open spec fn blocks_creation_pred() -> spec_fn(InstanceRecord) -> bool {
    |x: InstanceRecord| blocks_creation(x)
}

/// The index of the first element satisfying `p`, or the length when none
/// does.
pub open spec fn first_index<T>(s: Seq<T>, p: spec_fn(T) -> bool) -> int
    decreases s.len(),
{
    if s.len() == 0 {
        0
    } else if p(s[0]) {
        0
    } else {
        1 + first_index(s.drop_first(), p)
    }
}

proof fn lemma_first_index<T>(s: Seq<T>, p: spec_fn(T) -> bool)
    ensures
        0 <= first_index(s, p) <= s.len(),
        forall|j: int| 0 <= j < first_index(s, p) ==> !p(#[trigger] s[j]),
        first_index(s, p) < s.len() ==> p(s[first_index(s, p)]),
    decreases s.len(),
{
    if s.len() > 0 && !p(s[0]) {
        lemma_first_index(s.drop_first(), p);
        assert forall|j: int| 0 <= j < first_index(s, p) implies !p(#[trigger] s[j]) by {
            if j > 0 {
                assert(s[j] == s.drop_first()[j - 1]);
            }
        }
    }
}

proof fn lemma_first_index_unique<T>(s: Seq<T>, p: spec_fn(T) -> bool, k: int)
    requires
        0 <= k <= s.len(),
        forall|j: int| 0 <= j < k ==> !p(#[trigger] s[j]),
        k < s.len() ==> p(s[k]),
    ensures
        first_index(s, p) == k,
{
    lemma_first_index(s, p);
    let f = first_index(s, p);
    if f < k {
        assert(!p(s[f]));
    } else if f > k {
        assert(!p(s[k]));
    }
}

/// What to do about an instance name for which instances may already exist.
pub enum ExistingInstance {
    /// No live instance: create one.
    Create,
    /// A running or pending instance exists: reuse it; `instance_type` is
    /// its live type (the preferred type where the description has none).
    Reuse { instance_id: String, instance_type: String },
    /// An instance exists in a state that calls for a person to look.
    Conflict { instance_id: String, state: InstanceState },
}

/// Decides, from the first instance of each reservation found under an
/// instance's name, whether to create a new instance or keep an existing
/// one: the first instance with an id and a state that is neither
/// terminated nor shutting down decides.
pub fn existing_instance(firsts: &Vec<InstanceRecord>, preferred_type: &String) -> (r:
    ExistingInstance)
    ensures
        ({
            let k = first_index(firsts@, blocks_creation_pred());
            match r {
                ExistingInstance::Create => k == firsts@.len(),
                ExistingInstance::Reuse { instance_id, instance_type } => k < firsts@.len()
                    && is_active(firsts@[k].state.unwrap()) && instance_id@
                    == firsts@[k].instance_id.unwrap()@ && instance_type@ == (match firsts@[
                    k].instance_type {
                    Some(t) => t@,
                    None => preferred_type@,
                }),
                ExistingInstance::Conflict { instance_id, state } => k < firsts@.len()
                    && !is_active(firsts@[k].state.unwrap()) && instance_id@
                    == firsts@[k].instance_id.unwrap()@ && state == firsts@[k].state.unwrap(),
            }
        }),
{
    let mut i: usize = 0;
    while i < firsts.len()
        invariant
            i <= firsts.len(),
            forall|j: int| 0 <= j < i ==> !blocks_creation_pred()(#[trigger] firsts@[j]),
        decreases firsts.len() - i,
    {
        let rec = &firsts[i];
        match (&rec.instance_id, rec.state) {
            (Some(id), Some(st)) => {
                if !is_gone_exec(st) {
                    proof {
                        lemma_first_index_unique(firsts@, blocks_creation_pred(), i as int);
                    }
                    if is_active_exec(st) {
                        let t = match &rec.instance_type {
                            Some(t) => t.clone(),
                            None => preferred_type.clone(),
                        };
                        return ExistingInstance::Reuse { instance_id: id.clone(), instance_type: t };
                    } else {
                        return ExistingInstance::Conflict { instance_id: id.clone(), state: st };
                    }
                }
            },
            _ => {},
        }
        i = i + 1;
    }
    proof {
        lemma_first_index_unique(firsts@, blocks_creation_pred(), firsts@.len() as int);
    }
    ExistingInstance::Create
}

/// Where the wait for a cluster's instances to terminate stands.
pub enum TerminationProgress {
    /// No instance of the cluster is left but terminated ones.
    NoInstances,
    /// Every instance counted has reached a final state.
    AllTerminated { count: usize },
    /// These instances are still on their way.
    Waiting { pending: Vec<String> },
}

/// An instance that counts in the termination wait: it has an id and is not
/// already terminated.
pub open spec fn counted_in_wait(r: InstanceRecord) -> bool {
    r.instance_id is Some && r.state != Some(InstanceState::Terminated)
}

/// `counted_in_wait` as a predicate value.
pub open spec fn counted_in_wait_pred() -> spec_fn(InstanceRecord) -> bool {
    |x: InstanceRecord| counted_in_wait(x)
}

/// A counted instance that the wait still waits for: its state is known and
/// is not terminated.
pub open spec fn pending_in_wait(r: InstanceRecord) -> bool {
    r.instance_id is Some && r.state is Some && r.state != Some(InstanceState::Terminated)
}

/// `pending_in_wait` as a predicate value.
pub open spec fn pending_in_wait_pred() -> spec_fn(InstanceRecord) -> bool {
    |x: InstanceRecord| pending_in_wait(x)
}

/// The number of instances satisfying `p`.
pub open spec fn count_where(s: Seq<InstanceRecord>, p: spec_fn(InstanceRecord) -> bool) -> nat
    decreases s.len(),
{
    if s.len() == 0 {
        0
    } else {
        count_where(s.drop_last(), p) + if p(s.last()) {
            1nat
        } else {
            0nat
        }
    }
}

/// The ids of the instances satisfying `p` (which all have ids).
pub open spec fn ids_where(s: Seq<InstanceRecord>, p: spec_fn(InstanceRecord) -> bool) -> Seq<
    Seq<char>,
>
    decreases s.len(),
{
    if s.len() == 0 {
        Seq::empty()
    } else {
        let before = ids_where(s.drop_last(), p);
        if p(s.last()) {
            before.push(s.last().instance_id.unwrap()@)
        } else {
            before
        }
    }
}

proof fn lemma_count_bound(s: Seq<InstanceRecord>, p: spec_fn(InstanceRecord) -> bool)
    ensures
        count_where(s, p) <= s.len(),
    decreases s.len(),
{
    if s.len() > 0 {
        lemma_count_bound(s.drop_last(), p);
    }
}

/// Reads one poll of the termination wait: instances already terminated
/// before the wait are not counted; the wait is over when nothing is
/// counted, or when no counted instance is in a known non-terminated state.
pub fn termination_progress(instances: &Vec<InstanceRecord>) -> (r: TerminationProgress)
    ensures
        ({
            let counted = count_where(instances@, counted_in_wait_pred());
            let pending = ids_where(instances@, pending_in_wait_pred());
            match r {
                TerminationProgress::NoInstances => counted == 0,
                TerminationProgress::AllTerminated { count } => counted > 0 && pending.len()
                    == 0 && count == counted,
                TerminationProgress::Waiting { pending: p } => counted > 0 && pending.len() > 0
                    && crate::text::views(p@) == pending,
            }
        }),
{
    let mut total: usize = 0;
    let mut pending: Vec<String> = Vec::new();
    let mut i: usize = 0;
    while i < instances.len()
        invariant
            i <= instances.len(),
            total as nat == count_where(instances@.take(i as int), counted_in_wait_pred()),
            crate::text::views(pending@) == ids_where(instances@.take(i as int), pending_in_wait_pred()),
        decreases instances.len() - i,
    {
        assert(instances@.take(i + 1).drop_last() =~= instances@.take(i as int));
        proof {
            lemma_count_bound(instances@.take(i as int), counted_in_wait_pred());
        }
        let rec = &instances[i];
        match &rec.instance_id {
            Some(id) => {
                let terminated = match rec.state {
                    Some(InstanceState::Terminated) => true,
                    _ => false,
                };
                if !terminated {
                    total = total + 1;
                    if rec.state.is_some() {
                        pending.push(id.clone());
                        assert(crate::text::views(pending@) =~= crate::text::views(
                            pending@.drop_last(),
                        ).push(id@));
                    }
                }
            },
            None => {},
        }
        i = i + 1;
    }
    assert(instances@.take(instances.len() as int) =~= instances@);
    if total == 0 {
        TerminationProgress::NoInstances
    } else if pending.len() == 0 {
        TerminationProgress::AllTerminated { count: total }
    } else {
        TerminationProgress::Waiting { pending }
    }
}

/// An instance whose state settles the search by private address: running,
/// pending, terminated or shutting down.
pub open spec fn settles_search(r: InstanceRecord) -> bool {
    r.instance_id is Some && r.state is Some && (is_active(r.state.unwrap()) || is_gone(
        r.state.unwrap(),
    ))
}

/// `settles_search` as a predicate value.
pub open spec fn settles_search_pred() -> spec_fn(InstanceRecord) -> bool {
    |x: InstanceRecord| settles_search(x)
}

/// Finds the live instance among those found under a private address: the
/// first instance in a settling state gives the answer, which is its id if
/// it is running or pending and nothing if it is gone.
pub fn live_instance_id(instances: &Vec<InstanceRecord>) -> (r: Option<String>)
    ensures
        ({
            let k = first_index(instances@, settles_search_pred());
            match r {
                Some(id) => k < instances@.len() && is_active(instances@[k].state.unwrap())
                    && id@ == instances@[k].instance_id.unwrap()@,
                None => k == instances@.len() || is_gone(instances@[k].state.unwrap()),
            }
        }),
{
    let mut i: usize = 0;
    while i < instances.len()
        invariant
            i <= instances.len(),
            forall|j: int| 0 <= j < i ==> !settles_search_pred()(#[trigger] instances@[j]),
        decreases instances.len() - i,
    {
        let rec = &instances[i];
        match (&rec.instance_id, rec.state) {
            (Some(id), Some(st)) => {
                if is_active_exec(st) {
                    proof {
                        lemma_first_index_unique(instances@, settles_search_pred(), i as int);
                    }
                    return Some(id.clone());
                } else if is_gone_exec(st) {
                    proof {
                        lemma_first_index_unique(instances@, settles_search_pred(), i as int);
                    }
                    return None;
                }
            },
            _ => {},
        }
        i = i + 1;
    }
    proof {
        lemma_first_index_unique(instances@, settles_search_pred(), instances@.len() as int);
    }
    None
}

/// The private addresses of instances in a failed state.
pub open spec fn failed_ips(s: Seq<InstanceRecord>) -> Seq<Seq<char>>
    decreases s.len(),
{
    if s.len() == 0 {
        Seq::empty()
    } else {
        let r = s.last();
        let before = failed_ips(s.drop_last());
        if r.state is Some && is_failed(r.state.unwrap()) && r.private_ip is Some {
            before.push(r.private_ip.unwrap()@)
        } else {
            before
        }
    }
}

/// The private addresses of the cluster instances that a health check
/// reports as failed: terminated, shutting down, stopped or stopping.
pub fn failed_instance_ips(instances: &Vec<InstanceRecord>) -> (r: Vec<String>)
    ensures
        crate::text::views(r@) == failed_ips(instances@),
{
    let mut r: Vec<String> = Vec::new();
    let mut i: usize = 0;
    while i < instances.len()
        invariant
            i <= instances.len(),
            crate::text::views(r@) == failed_ips(instances@.take(i as int)),
        decreases instances.len() - i,
    {
        assert(instances@.take(i + 1).drop_last() =~= instances@.take(i as int));
        let rec = &instances[i];
        match (rec.state, &rec.private_ip) {
            (Some(st), Some(ip)) => {
                let failed = match st {
                    InstanceState::Terminated | InstanceState::ShuttingDown
                    | InstanceState::Stopped | InstanceState::Stopping => true,
                    _ => false,
                };
                if failed {
                    r.push(ip.clone());
                    assert(crate::text::views(r@) =~= crate::text::views(r@.drop_last()).push(
                        ip@,
                    ));
                }
            },
            _ => {},
        }
        i = i + 1;
    }
    assert(instances@.take(instances.len() as int) =~= instances@);
    r
}

/// An instance the per-node cleanup still waits for: its state is known and
/// is not terminated.
pub open spec fn awaiting_cleanup(r: InstanceRecord) -> bool {
    r.instance_id is Some && r.state is Some && r.state != Some(InstanceState::Terminated)
}

/// `awaiting_cleanup` as a predicate value.
pub open spec fn awaiting_cleanup_pred() -> spec_fn(InstanceRecord) -> bool {
    |x: InstanceRecord| awaiting_cleanup(x)
}

/// The instances that a per-node cleanup still waits for; the cleanup is
/// done when there are none.
pub fn instances_not_yet_terminated(instances: &Vec<InstanceRecord>) -> (r: Vec<String>)
    ensures
        crate::text::views(r@) == ids_where(instances@, awaiting_cleanup_pred()),
{
    let mut r: Vec<String> = Vec::new();
    let mut i: usize = 0;
    while i < instances.len()
        invariant
            i <= instances.len(),
            crate::text::views(r@) == ids_where(instances@.take(i as int), awaiting_cleanup_pred()),
        decreases instances.len() - i,
    {
        assert(instances@.take(i + 1).drop_last() =~= instances@.take(i as int));
        let rec = &instances[i];
        match (&rec.instance_id, rec.state) {
            (Some(id), Some(st)) => {
                if st != InstanceState::Terminated {
                    r.push(id.clone());
                    assert(crate::text::views(r@) =~= crate::text::views(r@.drop_last()).push(
                        id@,
                    ));
                }
            },
            _ => {},
        }
        i = i + 1;
    }
    assert(instances@.take(instances.len() as int) =~= instances@);
    r
}


/// What a readiness wait reads of an instance status entry.
pub struct InstanceStatusRecord {
    pub instance_id: Option<String>,
    pub state: Option<InstanceState>,
    pub instance_status: Option<String>,
    pub system_status: Option<String>,
}

/// The status entry of the instance `id`: the first entry naming it.
pub open spec fn status_of(statuses: Seq<InstanceStatusRecord>, id: Seq<char>) -> Option<
    InstanceStatusRecord,
>
    decreases statuses.len(),
{
    if statuses.len() == 0 {
        None
    } else if statuses[0].instance_id is Some && statuses[0].instance_id.unwrap()@ == id {
        Some(statuses[0])
    } else {
        status_of(statuses.drop_first(), id)
    }
}

/// The entry reports the instance as terminated or shutting down.
pub open spec fn reports_gone(entry: Option<InstanceStatusRecord>) -> bool {
    entry is Some && entry.unwrap().state is Some && is_gone(entry.unwrap().state.unwrap())
}

/// The entry reports both the instance and the system status check as "ok".
pub open spec fn reports_ok(entry: Option<InstanceStatusRecord>) -> bool {
    &&& entry is Some
    &&& entry.unwrap().instance_status is Some
    &&& entry.unwrap().instance_status.unwrap()@ == "ok"@
    &&& entry.unwrap().system_status is Some
    &&& entry.unwrap().system_status.unwrap()@ == "ok"@
}

/// The instances, in the order waited for, whose checks have not passed.
pub open spec fn not_passed(ids: Seq<Seq<char>>, statuses: Seq<InstanceStatusRecord>) -> Seq<
    Seq<char>,
>
    decreases ids.len(),
{
    if ids.len() == 0 {
        Seq::empty()
    } else {
        let before = not_passed(ids.drop_last(), statuses);
        if reports_ok(status_of(statuses, ids.last())) {
            before
        } else {
            before.push(ids.last())
        }
    }
}

/// The instance ids whose status entry reports them gone, as a predicate.
pub open spec fn gone_pred(statuses: Seq<InstanceStatusRecord>) -> spec_fn(Seq<char>) -> bool {
    |id: Seq<char>| reports_gone(status_of(statuses, id))
}

/// Where a wait for instances to pass their status checks stands.
pub enum AvailabilityProgress {
    /// Every instance passed both checks.
    Ready,
    /// These instances have not passed yet.
    NotReady { waiting: Vec<String> },
    /// An instance ended during startup; the wait fails.
    TerminatedDuringStartup { instance_id: String, state: InstanceState },
}

fn status_entry(statuses: &Vec<InstanceStatusRecord>, id: &String) -> (r: Option<usize>)
    ensures
        match r {
            Some(k) => k < statuses@.len() && status_of(statuses@, id@) == Some(statuses@[k as int]),
            None => status_of(statuses@, id@) is None,
        },
{
    let mut i: usize = 0;
    assert(statuses@.skip(0) =~= statuses@);
    while i < statuses.len()
        invariant
            i <= statuses.len(),
            status_of(statuses@, id@) == status_of(statuses@.skip(i as int), id@),
        decreases statuses.len() - i,
    {
        let ghost rest = statuses@.skip(i as int);
        assert(rest.drop_first() =~= statuses@.skip(i + 1));
        assert(rest[0] == statuses@[i as int]);
        match &statuses[i].instance_id {
            Some(x) => {
                if *x == *id {
                    return Some(i);
                }
            },
            None => {},
        }
        i = i + 1;
    }
    None
}

fn is_ok_text(s: &Option<String>) -> (b: bool)
    ensures
        b == (s is Some && s.unwrap()@ == "ok"@),
{
    match s {
        Some(t) => {
            let ok = String::from_str("ok");
            *t == ok
        },
        None => false,
    }
}

/// Reads one poll of the wait for instances to pass their status checks:
/// the first instance (in waiting order) reported terminated or shutting
/// down fails the wait; otherwise the wait is over when every instance
/// passed both checks.
pub fn availability_progress(ids: &Vec<String>, statuses: &Vec<InstanceStatusRecord>) -> (r:
    AvailabilityProgress)
    ensures
        ({
            let v = crate::text::views(ids@);
            let k = first_index(v, gone_pred(statuses@));
            match r {
                AvailabilityProgress::TerminatedDuringStartup { instance_id, state } => k
                    < v.len() && instance_id@ == v[k] && Some(state) == status_of(
                    statuses@,
                    v[k],
                ).unwrap().state,
                AvailabilityProgress::Ready => k == v.len() && not_passed(v, statuses@).len()
                    == 0,
                AvailabilityProgress::NotReady { waiting } => k == v.len() && not_passed(
                    v,
                    statuses@,
                ).len() > 0 && crate::text::views(waiting@) == not_passed(v, statuses@),
            }
        }),
{
    let ghost v = crate::text::views(ids@);
    let mut waiting: Vec<String> = Vec::new();
    let mut i: usize = 0;
    while i < ids.len()
        invariant
            i <= ids.len(),
            v == crate::text::views(ids@),
            forall|j: int| 0 <= j < i ==> !gone_pred(statuses@)(#[trigger] v[j]),
            crate::text::views(waiting@) == not_passed(v.take(i as int), statuses@),
        decreases ids.len() - i,
    {
        assert(v.take(i + 1).drop_last() =~= v.take(i as int));
        assert(v[i as int] == ids@[i as int]@);
        let id = &ids[i];
        match status_entry(statuses, id) {
            None => {
                waiting.push(id.clone());
                assert(crate::text::views(waiting@) =~= crate::text::views(waiting@.drop_last()).push(
                    id@,
                ));
            },
            Some(k) => {
                let entry = &statuses[k];
                match entry.state {
                    Some(st) => {
                        if is_gone_exec(st) {
                            proof {
                                lemma_first_index_unique(v, gone_pred(statuses@), i as int);
                            }
                            return AvailabilityProgress::TerminatedDuringStartup {
                                instance_id: id.clone(),
                                state: st,
                            };
                        }
                    },
                    None => {},
                }
                if !(is_ok_text(&entry.instance_status) && is_ok_text(&entry.system_status)) {
                    waiting.push(id.clone());
                    assert(crate::text::views(waiting@) =~= crate::text::views(
                        waiting@.drop_last(),
                    ).push(id@));
                }
            },
        }
        i = i + 1;
    }
    proof {
        lemma_first_index_unique(v, gone_pred(statuses@), v.len() as int);
        assert(v.take(v.len() as int) =~= v);
    }
    if waiting.len() == 0 {
        AvailabilityProgress::Ready
    } else {
        AvailabilityProgress::NotReady { waiting }
    }
}

} // verus!
