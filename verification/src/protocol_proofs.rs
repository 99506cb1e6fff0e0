//! The handshake as a whole: what the assigner upholds and what every worker
//! upholds, taken together.

use vstd::prelude::*;
use crate::assigner::assigned_status;
use crate::assigner_proofs::one_assignment_each;
use crate::executor::ExecutionOutcomeView;
use crate::schema::AssignView;
use crate::schema::JobView;
use crate::schema::TaskStatus;
use crate::worker::assignment_matches;
use crate::worker::WorkerActionView;
use crate::worker::WorkerEventView;
use crate::worker::WorkerSettingsView;
use crate::worker::WorkerView;
use crate::worker_proofs::assignment_observed;
use crate::worker_proofs::assigns_to;
use crate::worker_proofs::law_execution_follows_assignment;

verus! {

/// Every assignment that the history shows is one of `made`.
pub open spec fn observes_only(events: Seq<WorkerEventView>, made: Seq<AssignView>) -> bool {
    forall|k: int|
        0 <= k < events.len() ==> (#[trigger] events[k] matches WorkerEventView::AssignObserved {
            assign,
            ..
        } ==> exists|m: int| 0 <= m < made.len() && #[trigger] made[m] == assign)
}

/// The worker asks for the execution of `job` somewhere in its history.
pub open spec fn executes(
    settings: WorkerSettingsView,
    events: Seq<WorkerEventView>,
    job: JobView,
) -> bool {
    exists|i: int|
        0 <= i < WorkerView::init(settings).run(events).1.len() && #[trigger] WorkerView::init(
            settings,
        ).run(events).1[i] == (WorkerActionView::Execute { job })
}

/// A worker that executes `job` has observed an assignment from `made` that
/// gives the task of `job` to it.
proof fn lemma_executed_job_was_assigned(
    made: Seq<AssignView>,
    settings: WorkerSettingsView,
    events: Seq<WorkerEventView>,
    job: JobView,
) -> (m: int)
    requires
        observes_only(events, made),
        executes(settings, events, job),
    ensures
        0 <= m < made.len(),
        made[m].task_id == job.task_id,
        made[m].worker_id == settings.worker_id,
{
    law_execution_follows_assignment(settings, events);
    let i = choose|i: int|
        0 <= i < WorkerView::init(settings).run(events).1.len() && #[trigger] WorkerView::init(
            settings,
        ).run(events).1[i] == (WorkerActionView::Execute { job });
    assert(assignment_observed(events, job, settings.worker_id));
    let k = choose|k: int|
        0 <= k < events.len() && assigns_to(#[trigger] events[k], job, settings.worker_id);
    match events[k] {
        WorkerEventView::AssignObserved { assign, .. } => {
            let m = choose|m: int| 0 <= m < made.len() && #[trigger] made[m] == assign;
            assert(assignment_matches(assign, job, settings.worker_id));
            m
        },
        _ => 0,
    }
}

/// A task is executed by one worker at most. Let the assignments on the bus
/// name no task twice, as the assigner guarantees, and let two workers with
/// different names observe no assignments but those. Then, whatever else
/// they observe and however they race, they never execute the same task.
pub proof fn law_one_worker_per_task(
    made: Seq<AssignView>,
    first: WorkerSettingsView,
    first_events: Seq<WorkerEventView>,
    second: WorkerSettingsView,
    second_events: Seq<WorkerEventView>,
    first_job: JobView,
    second_job: JobView,
)
    requires
        one_assignment_each(made),
        first.worker_id != second.worker_id,
        observes_only(first_events, made),
        observes_only(second_events, made),
        executes(first, first_events, first_job),
        executes(second, second_events, second_job),
    ensures
        first_job.task_id != second_job.task_id,
{
    let a = lemma_executed_job_was_assigned(made, first, first_events, first_job);
    let b = lemma_executed_job_was_assigned(made, second, second_events, second_job);
    if first_job.task_id == second_job.task_id {
        if a < b {
            assert(made[a].task_id != made[b].task_id);
        } else if b < a {
            assert(made[b].task_id != made[a].task_id);
        }
    }
}

/// The timeline of a task only moves forward: the record of its assignment
/// may be followed by the record that it runs, and that by the record that
/// closes it, whatever the outcome; and after a closing record nothing may
/// follow. The progress that each of the three records reports is a
/// percentage.
pub proof fn law_timeline_moves_forward(
    assign: AssignView,
    worker: WorkerView,
    job: JobView,
    outcome: ExecutionOutcomeView,
    started_at_ms: u64,
    ended_at_ms: u64,
)
    ensures
        ({
            let assigned = assigned_status(assign).status;
            let running = worker.running_status(job, started_at_ms).status;
            let closing = worker.closing_status(job, outcome, ended_at_ms).status;
            &&& assigned.may_precede(running)
            &&& running.may_precede(closing)
            &&& closing.terminal()
            &&& forall|next: TaskStatus| !closing.may_precede(next)
            &&& assigned_status(assign).well_formed()
            &&& worker.running_status(job, started_at_ms).well_formed()
            &&& worker.closing_status(job, outcome, ended_at_ms).well_formed()
        }),
{
}

} // verus!
