//! What holds of every history of a worker: it executes only what was
//! assigned to it, and what it reports is sound.

use vstd::prelude::*;
use crate::executor::ExecutionOutcomeView;
use crate::schema::JobView;
use crate::worker::assignment_matches;
use crate::worker::WorkerActionView;
use crate::worker::WorkerEventView;
use crate::worker::WorkerPhaseView;
use crate::worker::WorkerSettingsView;
use crate::worker::WorkerView;

verus! {

/// `event` is an assignment of the task of `job` to `worker_id`.
pub open spec fn assigns_to(event: WorkerEventView, job: JobView, worker_id: Seq<char>) -> bool {
    event matches WorkerEventView::AssignObserved { assign, .. } && assignment_matches(
        assign,
        job,
        worker_id,
    )
}

/// Some event of the history is an assignment of the task of `job` to `worker_id`.
pub open spec fn assignment_observed(
    events: Seq<WorkerEventView>,
    job: JobView,
    worker_id: Seq<char>,
) -> bool {
    exists|k: int| 0 <= k < events.len() && assigns_to(#[trigger] events[k], job, worker_id)
}

/// `event` announces `job`.
pub open spec fn announces_job(event: WorkerEventView, job: JobView) -> bool {
    event matches WorkerEventView::JobAnnounced { job: announced, .. } && announced == job
}

/// Some event of the history announces `job`.
pub open spec fn announcement_observed(events: Seq<WorkerEventView>, job: JobView) -> bool {
    exists|k: int| 0 <= k < events.len() && announces_job(#[trigger] events[k], job)
}

/// A worker asks for an execution in one situation only: it has claimed the
/// job, and the event at hand is an assignment of that job's task to this
/// very worker.
pub proof fn law_executes_only_when_assigned(state: WorkerView, event: WorkerEventView)
    ensures
        forall|i: int|
            0 <= i < state.step(event).1.len() ==> (
            #[trigger] state.step(event).1[i] matches WorkerActionView::Execute { job } ==> {
                &&& state.phase matches WorkerPhaseView::Claimed { job: claimed, .. } && claimed
                    == job
                &&& assigns_to(event, job, state.settings.worker_id)
            }),
{
}

proof fn lemma_run_traced(settings: WorkerSettingsView, events: Seq<WorkerEventView>)
    ensures
        WorkerView::init(settings).run(events).0.settings == settings,
        WorkerView::init(settings).run(events).0.phase matches WorkerPhaseView::Claimed { job, .. }
            ==> announcement_observed(events, job),
        forall|i: int|
            0 <= i < WorkerView::init(settings).run(events).1.len() ==> (
            #[trigger] WorkerView::init(settings).run(events).1[i] matches WorkerActionView::Execute {
                job,
            } ==> announcement_observed(events, job) && assignment_observed(
                events,
                job,
                settings.worker_id,
            )),
    decreases events.len(),
{
    let start = WorkerView::init(settings);
    if events.len() > 0 {
        let front = events.drop_last();
        let event = events.last();
        lemma_run_traced(settings, front);
        let (before, asked) = start.run(front);
        let (after, new) = before.step(event);
        let all = asked + new;
        assert(forall|k: int| 0 <= k < front.len() ==> front[k] == events[k]);
        assert(forall|job: JobView| #[trigger]
            announcement_observed(front, job) ==> announcement_observed(events, job)) by {
            assert forall|job: JobView| #[trigger]
                announcement_observed(front, job) implies announcement_observed(events, job) by {
                let k = choose|k: int| 0 <= k < front.len() && announces_job(#[trigger] front[k], job);
                assert(announces_job(events[k], job));
            }
        }
        assert forall|job: JobView| #[trigger]
            assignment_observed(front, job, settings.worker_id) implies assignment_observed(
            events,
            job,
            settings.worker_id,
        ) by {
            let k = choose|k: int|
                0 <= k < front.len() && assigns_to(#[trigger] front[k], job, settings.worker_id);
            assert(assigns_to(events[k], job, settings.worker_id));
        }
        match after.phase {
            WorkerPhaseView::Claimed { job, .. } => {
                match before.phase {
                    WorkerPhaseView::Claimed { job: held, .. } => {
                        assert(held == job);
                    },
                    _ => {
                        assert(announces_job(events[events.len() - 1], job));
                    },
                }
            },
            _ => {},
        }
        assert forall|i: int| 0 <= i < all.len() implies (
        #[trigger] all[i] matches WorkerActionView::Execute { job } ==> announcement_observed(
            events,
            job,
        ) && assignment_observed(events, job, settings.worker_id)) by {
            if i < asked.len() {
                assert(all[i] == asked[i]);
            } else {
                assert(all[i] == new[i - asked.len()]);
                law_executes_only_when_assigned(before, event);
                match all[i] {
                    WorkerActionView::Execute { job } => {
                        assert(assigns_to(events[events.len() - 1], job, settings.worker_id));
                        assert(announcement_observed(front, job));
                    },
                    _ => {},
                }
            }
        }
    }
}

/// A worker never executes a job for which it did not observe a matching
/// assignment: in every history that starts with an idle worker, each
/// execution that the worker asks for is of a job that was announced to it
/// and whose task an observed assignment gave to this worker.
pub proof fn law_execution_follows_assignment(
    settings: WorkerSettingsView,
    events: Seq<WorkerEventView>,
)
    ensures
        forall|i: int|
            0 <= i < WorkerView::init(settings).run(events).1.len() ==> (
            #[trigger] WorkerView::init(settings).run(events).1[i] matches WorkerActionView::Execute {
                job,
            } ==> announcement_observed(events, job) && assignment_observed(
                events,
                job,
                settings.worker_id,
            )),
{
    lemma_run_traced(settings, events);
}

/// A result closes the timeline: its status is terminal, it carries an error
/// exactly where the task did not complete, and outputs only where it did.
pub proof fn law_results_are_well_formed(
    state: WorkerView,
    job: JobView,
    outcome: ExecutionOutcomeView,
    started_at_ms: u64,
    now_ms: u64,
)
    ensures
        state.result_for(job, outcome, started_at_ms, now_ms).well_formed(),
        state.closing_status(job, outcome, now_ms).well_formed(),
        state.closing_status(job, outcome, now_ms).status == state.result_for(
            job,
            outcome,
            started_at_ms,
            now_ms,
        ).status,
        state.running_status(job, now_ms).status.may_precede(
            state.closing_status(job, outcome, now_ms).status,
        ),
{
}

/// How many executions are asked for among `actions`.
pub open spec fn executions_asked(actions: Seq<WorkerActionView>) -> nat
    decreases actions.len(),
{
    if actions.len() == 0 {
        0
    } else {
        executions_asked(actions.drop_last()) + if actions.last() is Execute {
            1nat
        } else {
            0nat
        }
    }
}

/// `action` publishes a result.
pub open spec fn publishes_result(action: WorkerActionView) -> bool {
    action matches WorkerActionView::Publish(publication) && publication.message is Result
}

/// How many results are published among `actions`.
pub open spec fn results_published(actions: Seq<WorkerActionView>) -> nat
    decreases actions.len(),
{
    if actions.len() == 0 {
        0
    } else {
        results_published(actions.drop_last()) + if publishes_result(actions.last()) {
            1nat
        } else {
            0nat
        }
    }
}

proof fn lemma_counts_add_up(first: Seq<WorkerActionView>, second: Seq<WorkerActionView>)
    ensures
        executions_asked(first + second) == executions_asked(first) + executions_asked(second),
        results_published(first + second) == results_published(first) + results_published(second),
    decreases second.len(),
{
    if second.len() == 0 {
        assert(first + second =~= first);
    } else {
        lemma_counts_add_up(first, second.drop_last());
        assert((first + second).drop_last() =~= first + second.drop_last());
        assert((first + second).last() == second.last());
    }
}

proof fn lemma_step_counts(state: WorkerView, event: WorkerEventView)
    ensures
        ({
            let (next, actions) = state.step(event);
            let was = if state.phase is Executing {
                1nat
            } else {
                0nat
            };
            let is = if next.phase is Executing {
                1nat
            } else {
                0nat
            };
            executions_asked(actions) + was == results_published(actions) + is
        }),
{
    let (next, actions) = state.step(event);
    reveal_with_fuel(executions_asked, 3);
    reveal_with_fuel(results_published, 3);
    if actions.len() == 2 {
        let front = actions.drop_last();
        assert(front.len() == 1);
        assert(front.drop_last().len() == 0);
        assert(front.last() == actions[0]);
        assert(actions.last() == actions[1]);
    } else {
        assert(actions.len() == 0);
    }
}

/// Every execution is reported once: in every history that starts with an
/// idle worker, as many results are published as executions were asked for,
/// but for the execution that is still under way, if there is one.
pub proof fn law_one_result_per_execution(
    settings: WorkerSettingsView,
    events: Seq<WorkerEventView>,
)
    ensures
        ({
            let (end, actions) = WorkerView::init(settings).run(events);
            executions_asked(actions) == results_published(actions) + if end.phase is Executing {
                1nat
            } else {
                0nat
            }
        }),
    decreases events.len(),
{
    let start = WorkerView::init(settings);
    if events.len() > 0 {
        law_one_result_per_execution(settings, events.drop_last());
        let (before, asked) = start.run(events.drop_last());
        let (after, new) = before.step(events.last());
        lemma_step_counts(before, events.last());
        lemma_counts_add_up(asked, new);
    }
}

} // verus!
