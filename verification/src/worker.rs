//! The worker's side of the handshake: claim an announced job, wait a bounded
//! time for the assignment, execute only if the assignment names this worker,
//! and report.
//!
//! The agent is a state machine. Its driver feeds it what it observes on the
//! bus, the passing of time and the end of an execution, and carries out the
//! actions that come back.

use vstd::prelude::*;
use vstd::string::*;
use crate::bus::claim_publication;
use crate::bus::result_publication;
use crate::bus::status_publication;
use crate::bus::Publication;
use crate::bus::PublicationView;
use crate::executor::ExecutionOutcome;
use crate::executor::ExecutionOutcomeView;
use crate::keyspace::assign_topic;
use crate::keyspace::k_assign;
use crate::schema::Assign;
use crate::schema::AssignView;
use crate::schema::Claim;
use crate::schema::ClaimView;
use crate::schema::Job;
use crate::schema::JobView;
use crate::schema::OutputValue;
use crate::schema::Status;
use crate::schema::StatusView;
use crate::schema::Result;
use crate::schema::ResultView;
use crate::schema::TaskStatus;

verus! {

/// How long a worker waits for its assignment where nothing else is configured.
pub const DEFAULT_ASSIGNMENT_WINDOW_MS: u64 = 2000;

/// How long a claim's lease runs where nothing else is configured.
pub const DEFAULT_LEASE_MS: u64 = 200;

/// Progress, in percent, reported when execution starts.
pub const RUNNING_PROGRESS: u8 = 30;

/// Progress, in percent, reported with the final status.
pub const FINAL_PROGRESS: u8 = 100;

/// What a worker is configured with.
#[derive(Debug, PartialEq, Eq)]
pub struct WorkerSettings {
    pub worker_id: String,
    /// The estimate that the worker's claims carry, in milliseconds.
    pub eta_ms: u64,
    pub lease_ms: u64,
    pub assignment_window_ms: u64,
}

/// The mathematical view of `WorkerSettings`.
pub struct WorkerSettingsView {
    pub worker_id: Seq<char>,
    pub eta_ms: u64,
    pub lease_ms: u64,
    pub assignment_window_ms: u64,
}

impl DeepView for WorkerSettings {
    type V = WorkerSettingsView;

    open spec fn deep_view(&self) -> WorkerSettingsView {
        WorkerSettingsView {
            worker_id: self.worker_id@,
            eta_ms: self.eta_ms,
            lease_ms: self.lease_ms,
            assignment_window_ms: self.assignment_window_ms,
        }
    }
}

impl View for WorkerSettings {
    type V = WorkerSettingsView;

    open spec fn view(&self) -> WorkerSettingsView {
        self.deep_view()
    }
}

/// Where the worker stands with the job it has taken up, if any.
#[derive(Debug, PartialEq, Eq)]
pub enum WorkerPhase {
    /// Listening for announcements.
    Idle,
    /// A claim for `job` is out; the assignment is awaited since `claimed_at_ms`.
    Claimed { job: Job, claimed_at_ms: u64 },
    /// `job` was assigned to this worker and is being executed.
    Executing { job: Job, started_at_ms: u64 },
}

/// The mathematical view of `WorkerPhase`.
pub enum WorkerPhaseView {
    Idle,
    Claimed { job: JobView, claimed_at_ms: u64 },
    Executing { job: JobView, started_at_ms: u64 },
}

impl DeepView for WorkerPhase {
    type V = WorkerPhaseView;

    open spec fn deep_view(&self) -> WorkerPhaseView {
        match self {
            WorkerPhase::Idle => WorkerPhaseView::Idle,
            WorkerPhase::Claimed { job, claimed_at_ms } => WorkerPhaseView::Claimed {
                job: job@,
                claimed_at_ms: *claimed_at_ms,
            },
            WorkerPhase::Executing { job, started_at_ms } => WorkerPhaseView::Executing {
                job: job@,
                started_at_ms: *started_at_ms,
            },
        }
    }
}

impl View for WorkerPhase {
    type V = WorkerPhaseView;

    open spec fn view(&self) -> WorkerPhaseView {
        self.deep_view()
    }
}

/// What a worker observes.
#[derive(Debug, PartialEq, Eq)]
pub enum WorkerEvent {
    JobAnnounced { job: Job, now_ms: u64 },
    AssignObserved { assign: Assign, now_ms: u64 },
    /// Time has passed; `now_ms` is the current instant.
    Tick { now_ms: u64 },
    /// The execution that the worker asked for has ended.
    ExecutionFinished { outcome: ExecutionOutcome, now_ms: u64 },
}

/// The mathematical view of `WorkerEvent`.
pub enum WorkerEventView {
    JobAnnounced { job: JobView, now_ms: u64 },
    AssignObserved { assign: AssignView, now_ms: u64 },
    Tick { now_ms: u64 },
    ExecutionFinished { outcome: ExecutionOutcomeView, now_ms: u64 },
}

impl DeepView for WorkerEvent {
    type V = WorkerEventView;

    open spec fn deep_view(&self) -> WorkerEventView {
        match self {
            WorkerEvent::JobAnnounced { job, now_ms } => WorkerEventView::JobAnnounced {
                job: job@,
                now_ms: *now_ms,
            },
            WorkerEvent::AssignObserved { assign, now_ms } => WorkerEventView::AssignObserved {
                assign: assign@,
                now_ms: *now_ms,
            },
            WorkerEvent::Tick { now_ms } => WorkerEventView::Tick { now_ms: *now_ms },
            WorkerEvent::ExecutionFinished { outcome, now_ms } => {
                WorkerEventView::ExecutionFinished { outcome: outcome@, now_ms: *now_ms }
            },
        }
    }
}

impl View for WorkerEvent {
    type V = WorkerEventView;

    open spec fn view(&self) -> WorkerEventView {
        self.deep_view()
    }
}

/// What a worker asks its driver to do.
#[derive(Debug, PartialEq, Eq)]
pub enum WorkerAction {
    Publish(Publication),
    /// Listen on `topic` for the assignment of the claimed job.
    AwaitAssignment { topic: String },
    /// Run the task executor on `job` and report how it ended.
    Execute { job: Job },
}

/// The mathematical view of `WorkerAction`.
pub enum WorkerActionView {
    Publish(PublicationView),
    AwaitAssignment { topic: Seq<char> },
    Execute { job: JobView },
}

impl DeepView for WorkerAction {
    type V = WorkerActionView;

    open spec fn deep_view(&self) -> WorkerActionView {
        match self {
            WorkerAction::Publish(publication) => WorkerActionView::Publish(publication@),
            WorkerAction::AwaitAssignment { topic } => WorkerActionView::AwaitAssignment {
                topic: topic@,
            },
            WorkerAction::Execute { job } => WorkerActionView::Execute { job: job@ },
        }
    }
}

impl View for WorkerAction {
    type V = WorkerActionView;

    open spec fn view(&self) -> WorkerActionView {
        self.deep_view()
    }
}

/// `later - earlier`, or 0 where the clock went backwards.
pub open spec fn elapsed_ms(earlier: u64, later: u64) -> u64 {
    if later >= earlier {
        (later - earlier) as u64
    } else {
        0
    }
}

/// `now_ms + lease_ms`, held at the largest instant that can be written.
pub open spec fn lease_end(now_ms: u64, lease_ms: u64) -> u64 {
    if now_ms + lease_ms > u64::MAX {
        u64::MAX
    } else {
        (now_ms + lease_ms) as u64
    }
}

/// The assignment `assign` is the one that a worker `worker_id` waits for
/// after claiming `job`.
pub open spec fn assignment_matches(assign: AssignView, job: JobView, worker_id: Seq<char>)
    -> bool {
    assign.task_id == job.task_id && assign.worker_id == worker_id
}

/// The status that an outcome closes the timeline with.
pub open spec fn final_status(outcome: ExecutionOutcomeView) -> TaskStatus {
    match outcome {
        ExecutionOutcomeView::Completed { .. } => TaskStatus::Completed,
        ExecutionOutcomeView::Failed { .. } => TaskStatus::Failed,
        ExecutionOutcomeView::TimedOut => TaskStatus::Timeout,
    }
}

/// The error that a result carries: none for a completed task, the failure's
/// message or a note of the timeout otherwise.
pub open spec fn final_error(outcome: ExecutionOutcomeView) -> Option<Seq<char>> {
    match outcome {
        ExecutionOutcomeView::Completed { .. } => None,
        ExecutionOutcomeView::Failed { message } => Some(message),
        ExecutionOutcomeView::TimedOut => Some("Task exceeded its timeout"@),
    }
}

/// The message of the final status record.
pub open spec fn final_message(outcome: ExecutionOutcomeView) -> Seq<char> {
    match outcome {
        ExecutionOutcomeView::Completed { .. } => "Task completed successfully"@,
        ExecutionOutcomeView::Failed { message } => message,
        ExecutionOutcomeView::TimedOut => "Task exceeded its timeout"@,
    }
}

/// The state of a worker.
pub struct WorkerView {
    pub settings: WorkerSettingsView,
    pub phase: WorkerPhaseView,
}

impl WorkerView {
    /// An idle worker.
    pub open spec fn init(settings: WorkerSettingsView) -> WorkerView {
        WorkerView { settings, phase: WorkerPhaseView::Idle }
    }

    /// The claim that this worker makes for `job` at `now_ms`.
    pub open spec fn claim_for(self, job: JobView, now_ms: u64) -> ClaimView {
        ClaimView {
            task_id: job.task_id,
            worker_id: self.settings.worker_id,
            eta_ms: self.settings.eta_ms,
            lease_until_ms: lease_end(now_ms, self.settings.lease_ms),
            claimed_at_ms: now_ms,
        }
    }

    /// The record that opens the execution of `job`.
    pub open spec fn running_status(self, job: JobView, now_ms: u64) -> StatusView {
        StatusView {
            task_id: job.task_id,
            worker_id: self.settings.worker_id,
            status: TaskStatus::Running,
            message: Some("Task is running"@),
            progress_percent: Some(RUNNING_PROGRESS),
            timestamp_ms: now_ms,
        }
    }

    /// The result of `job`, whose execution began at `started_at_ms` and
    /// ended at `now_ms` with `outcome`.
    pub open spec fn result_for(
        self,
        job: JobView,
        outcome: ExecutionOutcomeView,
        started_at_ms: u64,
        now_ms: u64,
    ) -> ResultView {
        ResultView {
            task_id: job.task_id,
            worker_id: self.settings.worker_id,
            status: final_status(outcome),
            outputs: match outcome {
                ExecutionOutcomeView::Completed { outputs } => outputs,
                _ => Seq::empty(),
            },
            error: final_error(outcome),
            execution_time_ms: Some(elapsed_ms(started_at_ms, now_ms)),
            completed_at_ms: now_ms,
        }
    }

    /// The record that closes the timeline of `job`.
    pub open spec fn closing_status(self, job: JobView, outcome: ExecutionOutcomeView, now_ms: u64)
        -> StatusView {
        StatusView {
            task_id: job.task_id,
            worker_id: self.settings.worker_id,
            status: final_status(outcome),
            message: Some(final_message(outcome)),
            progress_percent: Some(FINAL_PROGRESS),
            timestamp_ms: now_ms,
        }
    }

    /// The assignment window of a claim made at `claimed_at_ms` is over at `now_ms`.
    pub open spec fn window_over(self, claimed_at_ms: u64, now_ms: u64) -> bool {
        elapsed_ms(claimed_at_ms, now_ms) >= self.settings.assignment_window_ms
    }

    /// The state after `event` and what the worker asks for in response.
    ///
    /// - Idle, a job is announced: claim it and await the assignment.
    /// - Claimed, the window is over (seen on a tick or on a late
    ///   assignment): back to idle, silently.
    /// - Claimed, a matching assignment is observed in time: report that the
    ///   task is running and execute it.
    /// - Executing, the execution has ended: publish the result and the
    ///   closing status, back to idle.
    /// - Anything else leaves the worker as it is.
    pub open spec fn step(self, event: WorkerEventView) -> (WorkerView, Seq<WorkerActionView>) {
        match (self.phase, event) {
            (WorkerPhaseView::Idle, WorkerEventView::JobAnnounced { job, now_ms }) => (
                WorkerView {
                    phase: WorkerPhaseView::Claimed { job, claimed_at_ms: now_ms },
                    ..self
                },
                seq![
                    WorkerActionView::Publish(claim_publication(self.claim_for(job, now_ms))),
                    WorkerActionView::AwaitAssignment { topic: assign_topic(job.task_id) },
                ],
            ),
            (
                WorkerPhaseView::Claimed { job, claimed_at_ms },
                WorkerEventView::AssignObserved { assign, now_ms },
            ) => if self.window_over(claimed_at_ms, now_ms) {
                (WorkerView { phase: WorkerPhaseView::Idle, ..self }, Seq::empty())
            } else if assignment_matches(assign, job, self.settings.worker_id) {
                (
                    WorkerView {
                        phase: WorkerPhaseView::Executing { job, started_at_ms: now_ms },
                        ..self
                    },
                    seq![
                        WorkerActionView::Publish(
                            status_publication(self.running_status(job, now_ms)),
                        ),
                        WorkerActionView::Execute { job },
                    ],
                )
            } else {
                (self, Seq::empty())
            },
            (WorkerPhaseView::Claimed { job, claimed_at_ms }, WorkerEventView::Tick { now_ms }) => {
                if self.window_over(claimed_at_ms, now_ms) {
                    (WorkerView { phase: WorkerPhaseView::Idle, ..self }, Seq::empty())
                } else {
                    (self, Seq::empty())
                }
            },
            (
                WorkerPhaseView::Executing { job, started_at_ms },
                WorkerEventView::ExecutionFinished { outcome, now_ms },
            ) => (
                WorkerView { phase: WorkerPhaseView::Idle, ..self },
                seq![
                    WorkerActionView::Publish(
                        result_publication(self.result_for(job, outcome, started_at_ms, now_ms)),
                    ),
                    WorkerActionView::Publish(
                        status_publication(self.closing_status(job, outcome, now_ms)),
                    ),
                ],
            ),
            _ => (self, Seq::empty()),
        }
    }

    /// The state after a whole history of events, and everything asked for on
    /// the way.
    pub open spec fn run(self, events: Seq<WorkerEventView>) -> (WorkerView, Seq<WorkerActionView>)
        decreases events.len(),
    {
        if events.len() == 0 {
            (self, Seq::empty())
        } else {
            let (before, asked) = self.run(events.drop_last());
            let (after, new) = before.step(events.last());
            (after, asked + new)
        }
    }
}

/// A worker of the pool.
pub struct WorkerAgent {
    settings: WorkerSettings,
    phase: WorkerPhase,
}

impl View for WorkerAgent {
    type V = WorkerView;

    closed spec fn view(&self) -> WorkerView {
        WorkerView { settings: self.settings@, phase: self.phase@ }
    }
}

fn saturating_elapsed(earlier: u64, later: u64) -> (elapsed: u64)
    ensures
        elapsed == elapsed_ms(earlier, later),
{
    if later >= earlier {
        later - earlier
    } else {
        0
    }
}

fn no_actions() -> (actions: Vec<WorkerAction>)
    ensures
        actions.deep_view() == Seq::<WorkerActionView>::empty(),
{
    let actions: Vec<WorkerAction> = Vec::new();
    actions
}

fn two_actions(first: WorkerAction, second: WorkerAction) -> (actions: Vec<WorkerAction>)
    ensures
        actions.deep_view() == seq![first@, second@],
{
    let mut actions: Vec<WorkerAction> = Vec::new();
    actions.push(first);
    actions.push(second);
    actions
}

impl WorkerAgent {
    /// An idle worker `worker_id` whose claims carry the estimate `eta_ms`,
    /// with the default lease and assignment window.
    pub fn new(worker_id: String, eta_ms: u64) -> (worker: WorkerAgent)
        ensures
            worker@ == WorkerView::init(
                WorkerSettingsView {
                    worker_id: worker_id@,
                    eta_ms,
                    lease_ms: DEFAULT_LEASE_MS,
                    assignment_window_ms: DEFAULT_ASSIGNMENT_WINDOW_MS,
                },
            ),
    {
        WorkerAgent::with_settings(
            WorkerSettings {
                worker_id,
                eta_ms,
                lease_ms: DEFAULT_LEASE_MS,
                assignment_window_ms: DEFAULT_ASSIGNMENT_WINDOW_MS,
            },
        )
    }

    /// An idle worker with the given settings.
    pub fn with_settings(settings: WorkerSettings) -> (worker: WorkerAgent)
        ensures
            worker@ == WorkerView::init(settings@),
    {
        WorkerAgent { settings, phase: WorkerPhase::Idle }
    }

    /// The name under which this worker claims and reports.
    pub fn worker_id(&self) -> (worker_id: &String)
        ensures
            worker_id@ == self@.settings.worker_id,
    {
        &self.settings.worker_id
    }

    /// Whether the worker listens for announcements.
    pub fn is_idle(&self) -> (idle: bool)
        ensures
            idle == (self@.phase is Idle),
    {
        match &self.phase {
            WorkerPhase::Idle => true,
            _ => false,
        }
    }

    /// Whether the worker has a claim out and waits for the assignment.
    pub fn is_awaiting_assignment(&self) -> (waiting: bool)
        ensures
            waiting == (self@.phase is Claimed),
    {
        match &self.phase {
            WorkerPhase::Claimed { .. } => true,
            _ => false,
        }
    }

    /// Whether an execution is under way.
    pub fn is_executing(&self) -> (executing: bool)
        ensures
            executing == (self@.phase is Executing),
    {
        match &self.phase {
            WorkerPhase::Executing { .. } => true,
            _ => false,
        }
    }

    fn make_claim(settings: &WorkerSettings, job: &Job, now_ms: u64) -> (claim: Claim)
        ensures
            claim@ == (WorkerView { settings: settings@, phase: WorkerPhaseView::Idle }).claim_for(
                job@,
                now_ms,
            ),
    {
        let lease_until_ms = if now_ms > u64::MAX - settings.lease_ms {
            u64::MAX
        } else {
            now_ms + settings.lease_ms
        };
        Claim {
            task_id: job.task_id.clone(),
            worker_id: settings.worker_id.clone(),
            eta_ms: settings.eta_ms,
            lease_until_ms,
            claimed_at_ms: now_ms,
        }
    }

    fn make_result(
        settings: &WorkerSettings,
        job: &Job,
        outcome: ExecutionOutcome,
        started_at_ms: u64,
        now_ms: u64,
    ) -> (made: (Result, Status))
        ensures
            made.0@ == (WorkerView { settings: settings@, phase: WorkerPhaseView::Idle }).result_for(
                job@,
                outcome@,
                started_at_ms,
                now_ms,
            ),
            made.1@ == (WorkerView {
                settings: settings@,
                phase: WorkerPhaseView::Idle,
            }).closing_status(job@, outcome@, now_ms),
    {
        let execution_time_ms = Some(saturating_elapsed(started_at_ms, now_ms));
        match outcome {
            ExecutionOutcome::Completed { outputs } => {
                let result = Result {
                    task_id: job.task_id.clone(),
                    worker_id: settings.worker_id.clone(),
                    status: TaskStatus::Completed,
                    outputs,
                    error: None,
                    execution_time_ms,
                    completed_at_ms: now_ms,
                };
                let status = Status {
                    task_id: job.task_id.clone(),
                    worker_id: settings.worker_id.clone(),
                    status: TaskStatus::Completed,
                    message: Some(String::from_str("Task completed successfully")),
                    progress_percent: Some(FINAL_PROGRESS),
                    timestamp_ms: now_ms,
                };
                (result, status)
            },
            ExecutionOutcome::Failed { message } => {
                let outputs: Vec<OutputValue> = Vec::new();
                assert(outputs.deep_view() =~= Seq::empty());
                let result = Result {
                    task_id: job.task_id.clone(),
                    worker_id: settings.worker_id.clone(),
                    status: TaskStatus::Failed,
                    outputs,
                    error: Some(message.clone()),
                    execution_time_ms,
                    completed_at_ms: now_ms,
                };
                let status = Status {
                    task_id: job.task_id.clone(),
                    worker_id: settings.worker_id.clone(),
                    status: TaskStatus::Failed,
                    message: Some(message),
                    progress_percent: Some(FINAL_PROGRESS),
                    timestamp_ms: now_ms,
                };
                (result, status)
            },
            ExecutionOutcome::TimedOut => {
                let outputs: Vec<OutputValue> = Vec::new();
                assert(outputs.deep_view() =~= Seq::empty());
                let result = Result {
                    task_id: job.task_id.clone(),
                    worker_id: settings.worker_id.clone(),
                    status: TaskStatus::Timeout,
                    outputs,
                    error: Some(String::from_str("Task exceeded its timeout")),
                    execution_time_ms,
                    completed_at_ms: now_ms,
                };
                let status = Status {
                    task_id: job.task_id.clone(),
                    worker_id: settings.worker_id.clone(),
                    status: TaskStatus::Timeout,
                    message: Some(String::from_str("Task exceeded its timeout")),
                    progress_percent: Some(FINAL_PROGRESS),
                    timestamp_ms: now_ms,
                };
                (result, status)
            },
        }
    }

    /// Takes in `event` and returns the worker as it is afterwards, with the
    /// actions that it asks for, in the order in which they are to be done.
    pub fn step(self, event: WorkerEvent) -> (next: (WorkerAgent, Vec<WorkerAction>))
        ensures
            (next.0@, next.1.deep_view()) == self@.step(event@),
    {
        let WorkerAgent { settings, phase } = self;
        match (phase, event) {
            (WorkerPhase::Idle, WorkerEvent::JobAnnounced { job, now_ms }) => {
                let claim = WorkerAgent::make_claim(&settings, &job, now_ms);
                let topic = k_assign(job.task_id.as_str());
                let actions = two_actions(
                    WorkerAction::Publish(Publication::of_claim(claim)),
                    WorkerAction::AwaitAssignment { topic },
                );
                (
                    WorkerAgent {
                        settings,
                        phase: WorkerPhase::Claimed { job, claimed_at_ms: now_ms },
                    },
                    actions,
                )
            },
            (
                WorkerPhase::Claimed { job, claimed_at_ms },
                WorkerEvent::AssignObserved { assign, now_ms },
            ) => {
                if saturating_elapsed(claimed_at_ms, now_ms) >= settings.assignment_window_ms {
                    (WorkerAgent { settings, phase: WorkerPhase::Idle }, no_actions())
                } else if assign.task_id == job.task_id && assign.worker_id == settings.worker_id {
                    let status = Status {
                        task_id: job.task_id.clone(),
                        worker_id: settings.worker_id.clone(),
                        status: TaskStatus::Running,
                        message: Some(String::from_str("Task is running")),
                        progress_percent: Some(RUNNING_PROGRESS),
                        timestamp_ms: now_ms,
                    };
                    let actions = two_actions(
                        WorkerAction::Publish(Publication::of_status(status)),
                        WorkerAction::Execute { job: job.clone() },
                    );
                    (
                        WorkerAgent {
                            settings,
                            phase: WorkerPhase::Executing { job, started_at_ms: now_ms },
                        },
                        actions,
                    )
                } else {
                    (
                        WorkerAgent { settings, phase: WorkerPhase::Claimed { job, claimed_at_ms } },
                        no_actions(),
                    )
                }
            },
            (WorkerPhase::Claimed { job, claimed_at_ms }, WorkerEvent::Tick { now_ms }) => {
                if saturating_elapsed(claimed_at_ms, now_ms) >= settings.assignment_window_ms {
                    (WorkerAgent { settings, phase: WorkerPhase::Idle }, no_actions())
                } else {
                    (
                        WorkerAgent { settings, phase: WorkerPhase::Claimed { job, claimed_at_ms } },
                        no_actions(),
                    )
                }
            },
            (
                WorkerPhase::Executing { job, started_at_ms },
                WorkerEvent::ExecutionFinished { outcome, now_ms },
            ) => {
                let (result, status) = WorkerAgent::make_result(
                    &settings,
                    &job,
                    outcome,
                    started_at_ms,
                    now_ms,
                );
                let actions = two_actions(
                    WorkerAction::Publish(Publication::of_result(result)),
                    WorkerAction::Publish(Publication::of_status(status)),
                );
                (WorkerAgent { settings, phase: WorkerPhase::Idle }, actions)
            },
            (phase, _) => (WorkerAgent { settings, phase }, no_actions()),
        }
    }
}

} // verus!
