//! The arbitration authority: it collects announced jobs and the claims that
//! workers publish for them, and resolves the claims of each job into one
//! binding assignment.
//!
//! The decisions are a pure function of the state and the observed event
//! (`AssignerView::step`); the executable `Assigner` computes exactly that
//! function. Whoever drives it performs the bus traffic: it feeds the
//! announcements, the claims and a periodic tick, and publishes what
//! `assignment_publications` makes of every decision.

use vstd::prelude::*;
use vstd::string::*;
use crate::bus::assign_publication;
use crate::bus::status_publication;
use crate::bus::Publication;
use crate::bus::PublicationView;
use crate::schema::Assign;
use crate::schema::AssignView;
use crate::schema::Claim;
use crate::schema::ClaimView;
use crate::schema::Job;
use crate::schema::JobView;
use crate::schema::Status;
use crate::schema::StatusView;
use crate::schema::TaskStatus;

verus! {

/// Seconds that an assignee is given where nothing else is configured.
pub const DEFAULT_DEADLINE_S: u64 = 30;

/// Progress, in percent, that the status record of an assignment reports.
pub const ASSIGNED_PROGRESS: u8 = 10;

/// How competing claims are resolved.
#[derive(Clone, Copy, Debug, PartialEq, Eq, Structural)]
pub enum ArbitrationPolicy {
    /// A claim for a pending job settles it at once, in favour of the first
    /// claim received for that job.
    Immediate,
    /// A job is held for `window_ms` after its announcement and then goes to
    /// the best bid received for it.
    Windowed { window_ms: u64 },
}

/// A job that awaits its decision, with the instant at which it was observed.
#[derive(Debug, PartialEq, Eq)]
pub struct PendingJob {
    pub job: Job,
    pub received_at_ms: u64,
}

/// The mathematical view of `PendingJob`.
pub struct PendingJobView {
    pub job: JobView,
    pub received_at_ms: u64,
}

impl DeepView for PendingJob {
    type V = PendingJobView;

    open spec fn deep_view(&self) -> PendingJobView {
        PendingJobView { job: self.job@, received_at_ms: self.received_at_ms }
    }
}

impl View for PendingJob {
    type V = PendingJobView;

    open spec fn view(&self) -> PendingJobView {
        self.deep_view()
    }
}

/// What the assigner observes.
#[derive(Debug, PartialEq, Eq)]
pub enum AssignerEvent {
    JobAnnounced { job: Job, now_ms: u64 },
    ClaimReceived { claim: Claim, now_ms: u64 },
    /// Time has passed; `now_ms` is the current instant.
    Tick { now_ms: u64 },
}

/// The mathematical view of `AssignerEvent`.
pub enum AssignerEventView {
    JobAnnounced { job: JobView, now_ms: u64 },
    ClaimReceived { claim: ClaimView, now_ms: u64 },
    Tick { now_ms: u64 },
}

impl DeepView for AssignerEvent {
    type V = AssignerEventView;

    open spec fn deep_view(&self) -> AssignerEventView {
        match self {
            AssignerEvent::JobAnnounced { job, now_ms } => AssignerEventView::JobAnnounced {
                job: job@,
                now_ms: *now_ms,
            },
            AssignerEvent::ClaimReceived { claim, now_ms } => AssignerEventView::ClaimReceived {
                claim: claim@,
                now_ms: *now_ms,
            },
            AssignerEvent::Tick { now_ms } => AssignerEventView::Tick { now_ms: *now_ms },
        }
    }
}

impl View for AssignerEvent {
    type V = AssignerEventView;

    open spec fn view(&self) -> AssignerEventView {
        self.deep_view()
    }
}

/// `a` is a strictly better bid than `b`: a lower estimate, or the same
/// estimate claimed earlier.
pub open spec fn outbids(a: ClaimView, b: ClaimView) -> bool {
    a.eta_ms < b.eta_ms || (a.eta_ms == b.eta_ms && a.claimed_at_ms < b.claimed_at_ms)
}

/// The index of the best bid for `task_id` among `claims`: the first one that
/// no other bid for the task outbids. `None` where the task has no claim.
pub open spec fn best_claim(claims: Seq<ClaimView>, task_id: Seq<char>) -> Option<int>
    decreases claims.len(),
{
    if claims.len() == 0 {
        None
    } else {
        let last = claims.len() - 1;
        match best_claim(claims.drop_last(), task_id) {
            None => if claims[last].task_id == task_id {
                Some(last)
            } else {
                None
            },
            Some(b) => if claims[last].task_id == task_id && outbids(claims[last], claims[b]) {
                Some(last)
            } else {
                Some(b)
            },
        }
    }
}

/// The index of the first claim received for `task_id`, if there is one.
pub open spec fn first_claim(claims: Seq<ClaimView>, task_id: Seq<char>) -> Option<int>
    decreases claims.len(),
{
    if claims.len() == 0 {
        None
    } else {
        match first_claim(claims.drop_last(), task_id) {
            Some(f) => Some(f),
            None => if claims.last().task_id == task_id {
                Some(claims.len() - 1)
            } else {
                None
            },
        }
    }
}

/// The index at which `task_id` is pending, if it is.
pub open spec fn pending_position(pending: Seq<PendingJobView>, task_id: Seq<char>) -> Option<int>
    decreases pending.len(),
{
    if pending.len() == 0 {
        None
    } else {
        match pending_position(pending.drop_last(), task_id) {
            Some(i) => Some(i),
            None => if pending.last().job.task_id == task_id {
                Some(pending.len() - 1)
            } else {
                None
            },
        }
    }
}

/// The arbitration window of a job observed at `received_at_ms` is over at `now_ms`.
pub open spec fn window_elapsed(received_at_ms: u64, window_ms: u64, now_ms: u64) -> bool {
    now_ms - received_at_ms > window_ms
}

/// The assignment of `task_id` to the worker that made `winner`.
pub open spec fn decision(task_id: Seq<char>, winner: ClaimView, now_ms: u64, deadline_s: u64)
    -> AssignView {
    AssignView { task_id, worker_id: winner.worker_id, assigned_at_ms: now_ms, deadline_s }
}

/// The status record that goes with an assignment.
pub open spec fn assigned_status(assign: AssignView) -> StatusView {
    StatusView {
        task_id: assign.task_id,
        worker_id: assign.worker_id,
        status: TaskStatus::Assigned,
        message: Some("Task assigned to worker"@),
        progress_percent: Some(ASSIGNED_PROGRESS),
        timestamp_ms: assign.assigned_at_ms,
    }
}

/// What is published for an assignment: the assignment itself on the assign
/// topic of its task, then its status record on the status topic.
pub open spec fn assignment_traffic(assign: AssignView) -> Seq<PublicationView> {
    seq![assign_publication(assign), status_publication(assigned_status(assign))]
}

/// The publications that make `assign` known.
pub fn assignment_publications(assign: Assign) -> (traffic: Vec<Publication>)
    ensures
        traffic.deep_view() == assignment_traffic(assign@),
{
    let status = Status {
        task_id: assign.task_id.clone(),
        worker_id: assign.worker_id.clone(),
        status: TaskStatus::Assigned,
        message: Some(String::from_str("Task assigned to worker")),
        progress_percent: Some(ASSIGNED_PROGRESS),
        timestamp_ms: assign.assigned_at_ms,
    };
    let mut traffic: Vec<Publication> = Vec::new();
    traffic.push(Publication::of_assign(assign));
    traffic.push(Publication::of_status(status));
    traffic
}

/// The pending jobs that a sweep at `now_ms` leaves in place, in their order.
pub open spec fn sweep_keeps(pending: Seq<PendingJobView>, window_ms: u64, now_ms: u64) -> Seq<
    PendingJobView,
>
    decreases pending.len(),
{
    if pending.len() == 0 {
        Seq::empty()
    } else {
        let kept = sweep_keeps(pending.drop_last(), window_ms, now_ms);
        if window_elapsed(pending.last().received_at_ms, window_ms, now_ms) {
            kept
        } else {
            kept.push(pending.last())
        }
    }
}

/// The assignments that a sweep at `now_ms` makes: one for each pending job
/// whose window is over and that has a claim, in the order of the jobs.
pub open spec fn sweep_decides(
    pending: Seq<PendingJobView>,
    claims: Seq<ClaimView>,
    window_ms: u64,
    now_ms: u64,
    deadline_s: u64,
) -> Seq<AssignView>
    decreases pending.len(),
{
    if pending.len() == 0 {
        Seq::empty()
    } else {
        let earlier = sweep_decides(pending.drop_last(), claims, window_ms, now_ms, deadline_s);
        let p = pending.last();
        if window_elapsed(p.received_at_ms, window_ms, now_ms) {
            match best_claim(claims, p.job.task_id) {
                Some(b) => earlier.push(decision(p.job.task_id, claims[b], now_ms, deadline_s)),
                None => earlier,
            }
        } else {
            earlier
        }
    }
}

/// The assigner's state: the jobs that await a decision, in the order of their
/// announcement, and every claim received, in the order of arrival.
pub struct AssignerView {
    pub policy: ArbitrationPolicy,
    pub deadline_s: u64,
    pub pending: Seq<PendingJobView>,
    pub claims: Seq<ClaimView>,
}

impl AssignerView {
    /// Nothing pending, nothing claimed.
    pub open spec fn init(policy: ArbitrationPolicy, deadline_s: u64) -> AssignerView {
        AssignerView { policy, deadline_s, pending: Seq::empty(), claims: Seq::empty() }
    }

    /// No task is pending twice.
    pub open spec fn well_formed(self) -> bool {
        forall|i: int, j: int|
            0 <= i < j < self.pending.len() ==> self.pending[i].job.task_id
                != self.pending[j].job.task_id
    }

    /// A job with this identifier awaits its decision.
    pub open spec fn is_pending(self, task_id: Seq<char>) -> bool {
        pending_position(self.pending, task_id) is Some
    }

    /// An announcement makes the job pending; one that is pending already
    /// under the same identifier is replaced where it stands.
    pub open spec fn announce(self, job: JobView, now_ms: u64) -> AssignerView {
        let entry = PendingJobView { job, received_at_ms: now_ms };
        match pending_position(self.pending, job.task_id) {
            Some(i) => AssignerView { pending: self.pending.update(i, entry), ..self },
            None => AssignerView { pending: self.pending.push(entry), ..self },
        }
    }

    /// A claim is appended to those received. Under the immediate policy it
    /// settles its job, if that is pending, for the first claim received.
    pub open spec fn claim(self, claim: ClaimView, now_ms: u64) -> (AssignerView, Seq<AssignView>) {
        let claims = self.claims.push(claim);
        let recorded = AssignerView { claims, ..self };
        match self.policy {
            ArbitrationPolicy::Windowed { .. } => (recorded, Seq::empty()),
            ArbitrationPolicy::Immediate => match (
                pending_position(self.pending, claim.task_id),
                first_claim(claims, claim.task_id),
            ) {
                (Some(i), Some(f)) => (
                    AssignerView { pending: self.pending.remove(i), ..recorded },
                    seq![decision(claim.task_id, claims[f], now_ms, self.deadline_s)],
                ),
                _ => (recorded, Seq::empty()),
            },
        }
    }

    /// Under the windowed policy a tick settles every job whose window is
    /// over: it leaves the pending jobs, with an assignment if it has a claim
    /// and without one if it has none. Under the immediate policy nothing happens.
    pub open spec fn tick(self, now_ms: u64) -> (AssignerView, Seq<AssignView>) {
        match self.policy {
            ArbitrationPolicy::Immediate => (self, Seq::empty()),
            ArbitrationPolicy::Windowed { window_ms } => (
                AssignerView { pending: sweep_keeps(self.pending, window_ms, now_ms), ..self },
                sweep_decides(self.pending, self.claims, window_ms, now_ms, self.deadline_s),
            ),
        }
    }

    /// The state after `event` and the assignments that the event brings about.
    pub open spec fn step(self, event: AssignerEventView) -> (AssignerView, Seq<AssignView>) {
        match event {
            AssignerEventView::JobAnnounced { job, now_ms } => (
                self.announce(job, now_ms),
                Seq::empty(),
            ),
            AssignerEventView::ClaimReceived { claim, now_ms } => self.claim(claim, now_ms),
            AssignerEventView::Tick { now_ms } => self.tick(now_ms),
        }
    }

    /// The state after a whole history of events, and all assignments made on
    /// the way, in the order in which they were made.
    pub open spec fn run(self, events: Seq<AssignerEventView>) -> (AssignerView, Seq<AssignView>)
        decreases events.len(),
    {
        if events.len() == 0 {
            (self, Seq::empty())
        } else {
            let (before, made) = self.run(events.drop_last());
            let (after, new) = before.step(events.last());
            (after, made + new)
        }
    }
}

/// The arbitration authority.
pub struct Assigner {
    policy: ArbitrationPolicy,
    deadline_s: u64,
    pending: Vec<PendingJob>,
    claims: Vec<Claim>,
}

impl View for Assigner {
    type V = AssignerView;

    closed spec fn view(&self) -> AssignerView {
        AssignerView {
            policy: self.policy,
            deadline_s: self.deadline_s,
            pending: self.pending.deep_view(),
            claims: self.claims.deep_view(),
        }
    }
}

impl Assigner {
    /// An assigner that has observed nothing yet and gives every assignee
    /// the default deadline.
    pub fn new(policy: ArbitrationPolicy) -> (assigner: Assigner)
        ensures
            assigner@ == AssignerView::init(policy, DEFAULT_DEADLINE_S),
    {
        Assigner::with_deadline(policy, DEFAULT_DEADLINE_S)
    }

    /// An assigner that has observed nothing yet and gives every assignee
    /// `deadline_s` seconds.
    pub fn with_deadline(policy: ArbitrationPolicy, deadline_s: u64) -> (assigner: Assigner)
        ensures
            assigner@ == AssignerView::init(policy, deadline_s),
    {
        let assigner = Assigner { policy, deadline_s, pending: Vec::new(), claims: Vec::new() };
        assert(assigner.pending.deep_view() =~= Seq::empty());
        assert(assigner.claims.deep_view() =~= Seq::empty());
        assigner
    }

    /// The policy that this assigner arbitrates by.
    pub fn policy(&self) -> (policy: ArbitrationPolicy)
        ensures
            policy == self@.policy,
    {
        self.policy
    }

    /// How many jobs await their decision.
    pub fn pending_count(&self) -> (count: usize)
        ensures
            count == self@.pending.len(),
    {
        self.pending.len()
    }

    /// How many claims have been received, for whatever task.
    pub fn claim_count(&self) -> (count: usize)
        ensures
            count == self@.claims.len(),
    {
        self.claims.len()
    }

    /// Whether a job with this identifier awaits its decision.
    pub fn is_pending(&self, task_id: &String) -> (pending: bool)
        ensures
            pending == self@.is_pending(task_id@),
    {
        self.find_pending(task_id).is_some()
    }

    fn find_pending(&self, task_id: &String) -> (found: Option<usize>)
        ensures
            found is Some <==> pending_position(self@.pending, task_id@) is Some,
            found matches Some(i) ==> pending_position(self@.pending, task_id@) == Some(i as int)
                && i < self.pending.len(),
    {
        let ghost pending = self.pending.deep_view();
        let mut found: Option<usize> = None;
        let mut i: usize = 0;
        while i < self.pending.len()
            invariant
                i <= self.pending.len(),
                pending == self.pending.deep_view(),
                found is Some <==> pending_position(pending.take(i as int), task_id@) is Some,
                found matches Some(k) ==> pending_position(pending.take(i as int), task_id@)
                    == Some(k as int) && k < i,
            decreases self.pending.len() - i,
        {
            proof {
                assert(pending.take(i + 1).drop_last() =~= pending.take(i as int));
            }
            if found.is_none() && self.pending[i].job.task_id == *task_id {
                found = Some(i);
            }
            i += 1;
        }
        proof {
            assert(pending.take(i as int) =~= pending);
        }
        found
    }

    fn find_first_claim(&self, task_id: &String) -> (found: Option<usize>)
        ensures
            found is Some <==> first_claim(self@.claims, task_id@) is Some,
            found matches Some(i) ==> first_claim(self@.claims, task_id@) == Some(i as int) && i
                < self.claims.len(),
    {
        let ghost claims = self.claims.deep_view();
        let mut found: Option<usize> = None;
        let mut i: usize = 0;
        while i < self.claims.len()
            invariant
                i <= self.claims.len(),
                claims == self.claims.deep_view(),
                found is Some <==> first_claim(claims.take(i as int), task_id@) is Some,
                found matches Some(k) ==> first_claim(claims.take(i as int), task_id@) == Some(
                    k as int,
                ) && k < i,
            decreases self.claims.len() - i,
        {
            proof {
                assert(claims.take(i + 1).drop_last() =~= claims.take(i as int));
            }
            if found.is_none() && self.claims[i].task_id == *task_id {
                found = Some(i);
            }
            i += 1;
        }
        proof {
            assert(claims.take(i as int) =~= claims);
        }
        found
    }

    fn find_best_claim(&self, task_id: &String) -> (found: Option<usize>)
        ensures
            found is Some <==> best_claim(self@.claims, task_id@) is Some,
            found matches Some(i) ==> best_claim(self@.claims, task_id@) == Some(i as int) && i
                < self.claims.len(),
    {
        let ghost claims = self.claims.deep_view();
        let mut found: Option<usize> = None;
        let mut i: usize = 0;
        while i < self.claims.len()
            invariant
                i <= self.claims.len(),
                claims == self.claims.deep_view(),
                found is Some <==> best_claim(claims.take(i as int), task_id@) is Some,
                found matches Some(k) ==> best_claim(claims.take(i as int), task_id@) == Some(
                    k as int,
                ) && k < i,
            decreases self.claims.len() - i,
        {
            proof {
                assert(claims.take(i + 1).drop_last() =~= claims.take(i as int));
            }
            let candidate = &self.claims[i];
            if candidate.task_id == *task_id {
                match found {
                    None => {
                        found = Some(i);
                    },
                    Some(b) => {
                        let best = &self.claims[b];
                        if candidate.eta_ms < best.eta_ms || (candidate.eta_ms == best.eta_ms
                            && candidate.claimed_at_ms < best.claimed_at_ms) {
                            found = Some(i);
                        }
                    },
                }
            }
            i += 1;
        }
        proof {
            assert(claims.take(i as int) =~= claims);
        }
        found
    }

    /// Observes the announcement of `job` at `now_ms`.
    pub fn on_job(&mut self, job: Job, now_ms: u64)
        ensures
            final(self)@ == old(self)@.announce(job@, now_ms),
    {
        let found = self.find_pending(&job.task_id);
        let entry = PendingJob { job, received_at_ms: now_ms };
        match found {
            Some(i) => {
                self.pending.set(i, entry);
                assert(self.pending.deep_view() =~= old(self).pending.deep_view().update(
                    i as int,
                    entry@,
                ));
            },
            None => {
                self.pending.push(entry);
                assert(self.pending.deep_view() =~= old(self).pending.deep_view().push(entry@));
            },
        }
    }

    /// Observes `claim` at `now_ms` and returns the assignment that it brings
    /// about, if any.
    pub fn on_claim(&mut self, claim: Claim, now_ms: u64) -> (decisions: Vec<Assign>)
        ensures
            (final(self)@, decisions.deep_view()) == old(self)@.claim(claim@, now_ms),
    {
        let task_id = claim.task_id.clone();
        self.claims.push(claim);
        assert(self.claims.deep_view() =~= old(self).claims.deep_view().push(claim@));
        let mut decisions: Vec<Assign> = Vec::new();
        match self.policy {
            ArbitrationPolicy::Windowed { .. } => {},
            ArbitrationPolicy::Immediate => {
                let pending = self.find_pending(&task_id);
                let first = self.find_first_claim(&task_id);
                match (pending, first) {
                    (Some(i), Some(f)) => {
                        self.pending.remove(i);
                        assert(self.pending.deep_view() =~= old(self).pending.deep_view().remove(
                            i as int,
                        ));
                        let assign = Assign {
                            task_id,
                            worker_id: self.claims[f].worker_id.clone(),
                            assigned_at_ms: now_ms,
                            deadline_s: self.deadline_s,
                        };
                        decisions.push(assign);
                    },
                    _ => {},
                }
            },
        }
        decisions
    }

    /// Observes that it is `now_ms` and returns the assignments that are due.
    pub fn on_tick(&mut self, now_ms: u64) -> (decisions: Vec<Assign>)
        ensures
            (final(self)@, decisions.deep_view()) == old(self)@.tick(now_ms),
    {
        let mut decisions: Vec<Assign> = Vec::new();
        match self.policy {
            ArbitrationPolicy::Immediate => {},
            ArbitrationPolicy::Windowed { window_ms } => {
                let ghost before = self.pending.deep_view();
                let ghost claims = self.claims.deep_view();
                let ghost deadline_s = self.deadline_s;
                let ghost done: int = 0;
                let mut i: usize = 0;
                while i < self.pending.len()
                    invariant
                        0 <= done <= before.len(),
                        i <= self.pending.len(),
                        self.policy == old(self).policy,
                        self.deadline_s == deadline_s,
                        self.claims.deep_view() == claims,
                        self.pending.deep_view().take(i as int) == sweep_keeps(
                            before.take(done),
                            window_ms,
                            now_ms,
                        ),
                        self.pending.deep_view().skip(i as int) == before.skip(done),
                        decisions.deep_view() == sweep_decides(
                            before.take(done),
                            claims,
                            window_ms,
                            now_ms,
                            deadline_s,
                        ),
                    decreases self.pending.len() - i,
                {
                    let ghost current = self.pending.deep_view();
                    proof {
                        assert(current.skip(i as int).len() == before.skip(done).len());
                        assert(before.take(done + 1).drop_last() =~= before.take(done));
                        assert(current.skip(i as int)[0] == before.skip(done)[0]);
                    }
                    let received_at_ms = self.pending[i].received_at_ms;
                    if now_ms > received_at_ms && now_ms - received_at_ms > window_ms {
                        let entry = self.pending.remove(i);
                        proof {
                            assert(self.pending.deep_view().skip(i as int) =~= current.skip(
                                i as int,
                            ).skip(1));
                        }
                        match self.find_best_claim(&entry.job.task_id) {
                            Some(b) => {
                                let assign = Assign {
                                    task_id: entry.job.task_id,
                                    worker_id: self.claims[b].worker_id.clone(),
                                    assigned_at_ms: now_ms,
                                    deadline_s: self.deadline_s,
                                };
                                decisions.push(assign);
                            },
                            None => {},
                        }
                    } else {
                        proof {
                            assert(current.skip(i as int).skip(1) =~= current.skip(i + 1));
                        }
                        i += 1;
                    }
                    proof {
                        done = done + 1;
                    }
                }
                proof {
                    assert(self.pending.deep_view().take(i as int) =~= self.pending.deep_view());
                    assert(before.take(done) =~= before);
                }
            },
        }
        decisions
    }

    /// Observes `event` and returns the assignments that it brings about.
    pub fn step(&mut self, event: AssignerEvent) -> (decisions: Vec<Assign>)
        ensures
            (final(self)@, decisions.deep_view()) == old(self)@.step(event@),
    {
        match event {
            AssignerEvent::JobAnnounced { job, now_ms } => {
                self.on_job(job, now_ms);
                Vec::new()
            },
            AssignerEvent::ClaimReceived { claim, now_ms } => self.on_claim(claim, now_ms),
            AssignerEvent::Tick { now_ms } => self.on_tick(now_ms),
        }
    }
}

} // verus!
