//! What holds of every execution: it ends, it ends only after the working
//! directory was given up, a timeout is no failure, and the sources that the
//! executor does not support are refused in so many words.

use vstd::prelude::*;
use crate::executor::ExecutionOutcomeView;
use crate::executor::ExecutorActionView;
use crate::executor::ExecutorEventView;
use crate::executor::ExecutorPhaseView;
use crate::schema::TaskDefinitionView;
use crate::schema::TaskSourceView;

verus! {

/// In this phase the execution owns a working directory.
pub open spec fn holds_work_dir(phase: ExecutorPhaseView) -> bool {
    phase.in_flight() && !(phase is CreatingWorkDir)
}

/// How many reports the execution can still take before it is over, at most.
pub open spec fn reports_left(phase: ExecutorPhaseView) -> nat {
    match phase {
        ExecutorPhaseView::Ready => 0,
        ExecutorPhaseView::CreatingWorkDir { .. } => 7,
        ExecutorPhaseView::Cloning { .. } => 6,
        ExecutorPhaseView::Fetching { .. } => 5,
        ExecutorPhaseView::Reading { .. } => 5,
        ExecutorPhaseView::WritingScript { .. } => 4,
        ExecutorPhaseView::WritingInputs { .. } => 3,
        ExecutorPhaseView::Running { .. } => 2,
        ExecutorPhaseView::Cleaning { .. } => 1,
        ExecutorPhaseView::Finished { .. } => 0,
    }
}

/// The phase after a whole sequence of reports, with the action that
/// answered each of them.
pub open spec fn run(phase: ExecutorPhaseView, events: Seq<ExecutorEventView>) -> (
    ExecutorPhaseView,
    Seq<ExecutorActionView>,
)
    decreases events.len(),
{
    if events.len() == 0 {
        (phase, Seq::empty())
    } else {
        let (before, asked) = run(phase, events.drop_last());
        let (after, action) = before.step(events.last());
        (after, asked.push(action))
    }
}

/// Among `actions` the removal of the working directory is asked for, and
/// nothing is asked for after it.
pub open spec fn ends_with_removal(actions: Seq<ExecutorActionView>) -> bool {
    exists|k: int|
        0 <= k < actions.len() && #[trigger] actions[k] is RemoveWorkDir && forall|j: int|
            k < j < actions.len() ==> #[trigger] actions[j] is Nothing
}

/// The working directory is accounted for at every step. It comes into being
/// only when its creation is reported as done, it is given up only by the
/// step that follows the request to remove it, and that request is made at
/// the very step at which the outcome becomes known.
pub proof fn law_work_dir_is_accounted_for(phase: ExecutorPhaseView, event: ExecutorEventView)
    ensures
        ({
            let (next, action) = phase.step(event);
            &&& holds_work_dir(next) && !holds_work_dir(phase) ==> phase is CreatingWorkDir
                && !(event is Failed)
            &&& holds_work_dir(phase) && !holds_work_dir(next) ==> phase is Cleaning
                && next is Finished
            &&& action is RemoveWorkDir <==> next is Cleaning
            &&& next is Finished ==> phase is Finished || phase is Cleaning || (
            phase is CreatingWorkDir && event is Failed)
        }),
{
}

/// Every report brings an execution that is under way closer to its end: it
/// is over after seven reports at the latest.
pub proof fn law_every_report_advances(phase: ExecutorPhaseView, event: ExecutorEventView)
    requires
        phase.in_flight(),
    ensures
        reports_left(phase.step(event).0) < reports_left(phase),
        !(phase.step(event).0 is Ready),
{
}

/// A run that is stopped for taking too long ends as timed out, not as failed.
pub proof fn law_timeout_is_not_failure(phase: ExecutorPhaseView)
    requires
        phase is Running,
    ensures
        phase.step(ExecutorEventView::TimedOut) == (
            ExecutorPhaseView::Cleaning { outcome: ExecutionOutcomeView::TimedOut },
            ExecutorActionView::RemoveWorkDir,
        ),
{
}

/// A WebAssembly module or a container image is never run and never passes
/// for a success: once the working directory is there, the execution fails
/// with a message that says that the capability is not implemented.
pub proof fn law_unsupported_sources_fail(
    source: TaskSourceView,
    inputs: Seq<char>,
    timeout_seconds: u64,
)
    requires
        source is Wasm || source is Docker,
    ensures
        ({
            let phase = ExecutorPhaseView::CreatingWorkDir { source, inputs, timeout_seconds };
            let (next, action) = phase.step(ExecutorEventView::Done);
            &&& action is RemoveWorkDir
            &&& next matches ExecutorPhaseView::Cleaning {
                outcome: ExecutionOutcomeView::Failed { message },
            } && message == (if source is Wasm {
                "WASM execution not yet implemented"@
            } else {
                "Docker execution not yet implemented"@
            })
        }),
{
}

/// The timeout that an execution was begun with, as far as the phase still
/// knows it.
spec fn keeps_timeout(phase: ExecutorPhaseView, timeout_seconds: u64) -> bool {
    match phase {
        ExecutorPhaseView::CreatingWorkDir { timeout_seconds: kept, .. } => kept == timeout_seconds,
        ExecutorPhaseView::Fetching { timeout_seconds: kept, .. } => kept == timeout_seconds,
        ExecutorPhaseView::Cloning { timeout_seconds: kept, .. } => kept == timeout_seconds,
        ExecutorPhaseView::Reading { timeout_seconds: kept, .. } => kept == timeout_seconds,
        ExecutorPhaseView::WritingScript { timeout_seconds: kept, .. } => kept == timeout_seconds,
        ExecutorPhaseView::WritingInputs { timeout_seconds: kept, .. } => kept == timeout_seconds,
        _ => true,
    }
}

spec fn runs_under(actions: Seq<ExecutorActionView>, timeout_seconds: u64) -> bool {
    forall|k: int|
        0 <= k < actions.len() ==> (#[trigger] actions[k] matches ExecutorActionView::Run {
            timeout_seconds: given,
            ..
        } ==> given == timeout_seconds)
}

proof fn lemma_run_from_creation(
    source: TaskSourceView,
    inputs: Seq<char>,
    timeout_seconds: u64,
    events: Seq<ExecutorEventView>,
)
    ensures
        ({
            let start = ExecutorPhaseView::CreatingWorkDir { source, inputs, timeout_seconds };
            let (end, actions) = run(start, events);
            &&& actions.len() == events.len()
            &&& !(end is Ready)
            &&& keeps_timeout(end, timeout_seconds)
            &&& runs_under(actions, timeout_seconds)
            &&& reports_left(end) + events.len() <= 7 || end is Finished
            &&& events.len() > 0 ==> !(end is CreatingWorkDir)
            &&& events.len() > 0 && !(events[0] is Failed) ==> {
                &&& end is Cleaning ==> actions.last() is RemoveWorkDir
                &&& end is Finished ==> ends_with_removal(actions)
                &&& !(end is Cleaning) && !(end is Finished) ==> forall|k: int|
                    0 <= k < actions.len() ==> !(#[trigger] actions[k] is RemoveWorkDir)
            }
        }),
    decreases events.len(),
{
    let start = ExecutorPhaseView::CreatingWorkDir { source, inputs, timeout_seconds };
    if events.len() > 0 {
        let front = events.drop_last();
        let event = events.last();
        lemma_run_from_creation(source, inputs, timeout_seconds, front);
        let (before, asked) = run(start, front);
        let (end, action) = before.step(event);
        let actions = asked.push(action);
        assert(run(start, events) == (end, actions));
        law_work_dir_is_accounted_for(before, event);
        if before.in_flight() {
            law_every_report_advances(before, event);
        }
        assert(runs_under(actions, timeout_seconds)) by {
            assert forall|k: int| 0 <= k < actions.len() implies (
            #[trigger] actions[k] matches ExecutorActionView::Run { timeout_seconds: given, .. }
                ==> given == timeout_seconds) by {
                if k < asked.len() {
                    assert(actions[k] == asked[k]);
                }
            }
        }
        if front.len() > 0 {
            assert(front[0] == events[0]);
        }
        if !(events[0] is Failed) {
            if end is Finished {
                if before is Cleaning {
                    let k = asked.len() - 1;
                    assert(actions[k] is RemoveWorkDir);
                    assert forall|j: int| k < j < actions.len() implies #[trigger] actions[j] is Nothing by {
                        assert(j == asked.len());
                    }
                } else {
                    assert(before is Finished);
                    let k = choose|k: int|
                        0 <= k < asked.len() && #[trigger] asked[k] is RemoveWorkDir && forall|j: int|
                            k < j < asked.len() ==> #[trigger] asked[j] is Nothing;
                    assert(actions[k] is RemoveWorkDir);
                    assert forall|j: int| k < j < actions.len() implies #[trigger] actions[j] is Nothing by {
                        if j < asked.len() {
                            assert(actions[j] == asked[j]);
                        }
                    }
                }
            } else if !(end is Cleaning) {
                assert forall|k: int| 0 <= k < actions.len() implies !(
                #[trigger] actions[k] is RemoveWorkDir) by {
                    if k < asked.len() {
                        assert(actions[k] == asked[k]);
                    }
                }
            }
        }
    }
}

/// After an execution the working directory is gone: whatever the driver
/// reports, an execution that has come to its end either never had a
/// directory, because its creation failed, or it has asked for the removal
/// of the directory and for nothing after that.
pub proof fn law_finished_execution_has_cleaned_up(
    definition: TaskDefinitionView,
    inputs: Seq<char>,
    timeout_seconds: u64,
    events: Seq<ExecutorEventView>,
)
    requires
        events.len() > 0,
        !(events[0] is Failed),
    ensures
        ({
            let start = ExecutorPhaseView::Ready.begin(definition, inputs, timeout_seconds).0;
            let (end, actions) = run(start, events);
            end is Finished ==> ends_with_removal(actions)
        }),
{
    lemma_run_from_creation(definition.source, inputs, timeout_seconds, events);
}

/// Every execution ends: after seven reports, whatever they are, it is over.
pub proof fn law_execution_ends(
    definition: TaskDefinitionView,
    inputs: Seq<char>,
    timeout_seconds: u64,
    events: Seq<ExecutorEventView>,
)
    requires
        events.len() >= 7,
    ensures
        run(
            ExecutorPhaseView::Ready.begin(definition, inputs, timeout_seconds).0,
            events,
        ).0 is Finished,
{
    lemma_run_from_creation(definition.source, inputs, timeout_seconds, events);
}

/// The code never runs longer than the task allows: every run that an
/// execution asks for carries the timeout that the execution was begun with.
pub proof fn law_runs_carry_the_timeout(
    definition: TaskDefinitionView,
    inputs: Seq<char>,
    timeout_seconds: u64,
    events: Seq<ExecutorEventView>,
)
    ensures
        forall|k: int|
            0 <= k < run(
                ExecutorPhaseView::Ready.begin(definition, inputs, timeout_seconds).0,
                events,
            ).1.len() ==> (#[trigger] run(
                ExecutorPhaseView::Ready.begin(definition, inputs, timeout_seconds).0,
                events,
            ).1[k] matches ExecutorActionView::Run { timeout_seconds: given, .. } ==> given
                == timeout_seconds),
{
    lemma_run_from_creation(definition.source, inputs, timeout_seconds, events);
}

} // verus!
