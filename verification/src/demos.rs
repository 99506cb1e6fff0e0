//! The deployments that the library is shipped with: each names the
//! arbitration policy and the timing of the handshake that it runs with, and
//! holds the shutdown signal of its loops.

use vstd::prelude::*;
use crate::assigner::ArbitrationPolicy;
use crate::assigner::Assigner;
use crate::assigner::AssignerView;
use crate::assigner::DEFAULT_DEADLINE_S;
use crate::executor::DynamicTaskExecutor;
use crate::executor::ExecutorPhaseView;
use crate::schema::TaskDefinition;
use crate::signal::RunFlag;
use crate::tasks::factorial_definition;
use crate::tasks::factorial_task_definition;
use crate::tasks::fibonacci_definition;
use crate::tasks::fibonacci_task_definition;
use crate::worker::WorkerAgent;
use crate::worker::WorkerSettings;
use crate::worker::WorkerSettingsView;
use crate::worker::WorkerView;
use crate::worker::DEFAULT_ASSIGNMENT_WINDOW_MS;
use crate::worker::DEFAULT_LEASE_MS;

verus! {

/// The policy and the timing that a deployment runs with.
#[derive(Clone, Copy, Debug)]
pub struct Profile {
    pub policy: ArbitrationPolicy,
    /// Seconds that an assignee is given.
    pub deadline_s: u64,
    /// How long a worker waits for its assignment.
    pub assignment_window_ms: u64,
    /// How long the lease of a claim runs.
    pub lease_ms: u64,
    /// How long a worker lets its subscription to the assign topic settle
    /// before it starts to wait.
    pub settle_ms: u64,
    /// How long a worker waits on one receive before it looks at the clock
    /// again; 0 where it waits without a bound.
    pub poll_ms: u64,
    /// How long the assigner holds an assignment back, so that the worker's
    /// subscription is in place when it arrives.
    pub assign_delay_ms: u64,
    /// The estimate that every claim carries, where it is not the worker's
    /// own latency.
    pub fixed_eta_ms: Option<u64>,
}

impl Profile {
    /// The estimate that the claims of a worker with latency `latency_ms` carry.
    pub open spec fn eta_for(self, latency_ms: u32) -> u64 {
        match self.fixed_eta_ms {
            Some(eta_ms) => eta_ms,
            None => latency_ms as u64,
        }
    }

    /// The settings of the worker `worker_id` with latency `latency_ms`.
    pub open spec fn settings_for(self, worker_id: Seq<char>, latency_ms: u32)
        -> WorkerSettingsView {
        WorkerSettingsView {
            worker_id,
            eta_ms: self.eta_for(latency_ms),
            lease_ms: self.lease_ms,
            assignment_window_ms: self.assignment_window_ms,
        }
    }

    /// An assigner that arbitrates as this profile says.
    pub fn assigner(&self) -> (assigner: Assigner)
        ensures
            assigner@ == AssignerView::init(self.policy, self.deadline_s),
    {
        Assigner::with_deadline(self.policy, self.deadline_s)
    }

    /// An idle worker that claims and waits as this profile says.
    pub fn worker(&self, worker_id: String, latency_ms: u32) -> (worker: WorkerAgent)
        ensures
            worker@ == WorkerView::init(self.settings_for(worker_id@, latency_ms)),
    {
        let eta_ms = match self.fixed_eta_ms {
            Some(eta_ms) => eta_ms,
            None => latency_ms as u64,
        };
        WorkerAgent::with_settings(
            WorkerSettings {
                worker_id,
                eta_ms,
                lease_ms: self.lease_ms,
                assignment_window_ms: self.assignment_window_ms,
            },
        )
    }
}

/// Immediate arbitration, a one-second assignment window, no pacing.
pub open spec fn direct_profile() -> Profile {
    Profile {
        policy: ArbitrationPolicy::Immediate,
        deadline_s: DEFAULT_DEADLINE_S,
        assignment_window_ms: 1000,
        lease_ms: DEFAULT_LEASE_MS,
        settle_ms: 0,
        poll_ms: 0,
        assign_delay_ms: 0,
        fixed_eta_ms: None,
    }
}

/// Immediate arbitration, the default assignment window polled every 100 ms,
/// and an assigner that holds each assignment back for 200 ms.
pub open spec fn paced_profile() -> Profile {
    Profile {
        policy: ArbitrationPolicy::Immediate,
        deadline_s: DEFAULT_DEADLINE_S,
        assignment_window_ms: DEFAULT_ASSIGNMENT_WINDOW_MS,
        lease_ms: DEFAULT_LEASE_MS,
        settle_ms: 100,
        poll_ms: 100,
        assign_delay_ms: 200,
        fixed_eta_ms: None,
    }
}

/// Windowed arbitration over 100 ms, a one-second assignment window, and
/// claims that all carry an estimate of five seconds.
pub open spec fn windowed_profile() -> Profile {
    Profile {
        policy: ArbitrationPolicy::Windowed { window_ms: 100 },
        deadline_s: DEFAULT_DEADLINE_S,
        assignment_window_ms: 1000,
        lease_ms: DEFAULT_LEASE_MS,
        settle_ms: 0,
        poll_ms: 10,
        assign_delay_ms: 0,
        fixed_eta_ms: Some(5000u64),
    }
}

fn make_direct_profile() -> (profile: Profile)
    ensures
        profile == direct_profile(),
{
    Profile {
        policy: ArbitrationPolicy::Immediate,
        deadline_s: DEFAULT_DEADLINE_S,
        assignment_window_ms: 1000,
        lease_ms: DEFAULT_LEASE_MS,
        settle_ms: 0,
        poll_ms: 0,
        assign_delay_ms: 0,
        fixed_eta_ms: None,
    }
}

fn make_paced_profile() -> (profile: Profile)
    ensures
        profile == paced_profile(),
{
    Profile {
        policy: ArbitrationPolicy::Immediate,
        deadline_s: DEFAULT_DEADLINE_S,
        assignment_window_ms: DEFAULT_ASSIGNMENT_WINDOW_MS,
        lease_ms: DEFAULT_LEASE_MS,
        settle_ms: 100,
        poll_ms: 100,
        assign_delay_ms: 200,
        fixed_eta_ms: None,
    }
}

fn make_windowed_profile() -> (profile: Profile)
    ensures
        profile == windowed_profile(),
{
    Profile {
        policy: ArbitrationPolicy::Windowed { window_ms: 100 },
        deadline_s: DEFAULT_DEADLINE_S,
        assignment_window_ms: 1000,
        lease_ms: DEFAULT_LEASE_MS,
        settle_ms: 0,
        poll_ms: 10,
        assign_delay_ms: 0,
        fixed_eta_ms: Some(5000),
    }
}

/// Immediate arbitration with a one-second assignment window; workers wait on
/// the assign topic without polling and nothing is held back.
pub struct FixedUserDefinedDemo {
    running: RunFlag,
    profile: Profile,
}

impl View for FixedUserDefinedDemo {
    type V = Profile;

    closed spec fn view(&self) -> Profile {
        self.profile
    }
}

impl FixedUserDefinedDemo {
    /// A deployment whose loops are free to run.
    pub fn new() -> (demo: Self)
        ensures
            demo@ == direct_profile(),
    {
        FixedUserDefinedDemo { running: RunFlag::new(), profile: make_direct_profile() }
    }

    /// The policy and the timing that this deployment runs with.
    pub fn profile(&self) -> (profile: Profile)
        ensures
            profile == self@,
    {
        self.profile
    }

    /// Whether no shutdown has been asked for yet.
    pub fn is_running(&self) -> bool {
        self.running.is_up()
    }

    /// Asks every loop of the deployment to end.
    pub fn stop(&self) {
        self.running.lower();
    }

    /// Another handle on the same deployment, for a loop of its own.
    pub fn share(&self) -> (demo: Self)
        ensures
            demo@ == self@,
    {
        FixedUserDefinedDemo { running: self.running.share(), profile: self.profile }
    }

    /// The sample task that computes the factorial of `number`.
    pub fn create_factorial_task_definition(number: u64) -> (definition: TaskDefinition)
        ensures
            definition@ == factorial_definition(number),
    {
        factorial_task_definition(number)
    }

    /// The sample task that lists the first `terms` Fibonacci numbers.
    pub fn create_fibonacci_task_definition(terms: u64) -> (definition: TaskDefinition)
        ensures
            definition@ == fibonacci_definition(terms),
    {
        fibonacci_task_definition(terms)
    }
}

/// Immediate arbitration with a two-second assignment window, polled every
/// 100 ms; the assigner holds each assignment back for 200 ms.
pub struct FixedZenohDemo {
    running: RunFlag,
    profile: Profile,
}

impl View for FixedZenohDemo {
    type V = Profile;

    closed spec fn view(&self) -> Profile {
        self.profile
    }
}

impl FixedZenohDemo {
    /// A deployment whose loops are free to run.
    pub fn new() -> (demo: Self)
        ensures
            demo@ == paced_profile(),
    {
        FixedZenohDemo { running: RunFlag::new(), profile: make_paced_profile() }
    }

    /// The policy and the timing that this deployment runs with.
    pub fn profile(&self) -> (profile: Profile)
        ensures
            profile == self@,
    {
        self.profile
    }

    /// Whether no shutdown has been asked for yet.
    pub fn is_running(&self) -> bool {
        self.running.is_up()
    }

    /// Asks every loop of the deployment to end.
    pub fn stop(&self) {
        self.running.lower();
    }

    /// Another handle on the same deployment, for a loop of its own.
    pub fn share(&self) -> (demo: Self)
        ensures
            demo@ == self@,
    {
        FixedZenohDemo { running: self.running.share(), profile: self.profile }
    }

    /// The sample task that computes the factorial of `number`.
    pub fn create_factorial_task_definition(number: u64) -> (definition: TaskDefinition)
        ensures
            definition@ == factorial_definition(number),
    {
        factorial_task_definition(number)
    }
}

/// The paced handshake around a job that carries no task definition.
pub struct SimpleZenohDemo {
    running: RunFlag,
    profile: Profile,
}

impl View for SimpleZenohDemo {
    type V = Profile;

    closed spec fn view(&self) -> Profile {
        self.profile
    }
}

impl SimpleZenohDemo {
    /// A deployment whose loops are free to run.
    pub fn new() -> (demo: Self)
        ensures
            demo@ == paced_profile(),
    {
        SimpleZenohDemo { running: RunFlag::new(), profile: make_paced_profile() }
    }

    /// The policy and the timing that this deployment runs with.
    pub fn profile(&self) -> (profile: Profile)
        ensures
            profile == self@,
    {
        self.profile
    }

    /// Whether no shutdown has been asked for yet.
    pub fn is_running(&self) -> bool {
        self.running.is_up()
    }

    /// Asks every loop of the deployment to end.
    pub fn stop(&self) {
        self.running.lower();
    }

    /// Another handle on the same deployment, for a loop of its own.
    pub fn share(&self) -> (demo: Self)
        ensures
            demo@ == self@,
    {
        SimpleZenohDemo { running: self.running.share(), profile: self.profile }
    }
}

/// The paced handshake for task definitions that are loaded from files.
pub struct WorkingUserZenohDemo {
    running: RunFlag,
    profile: Profile,
}

impl View for WorkingUserZenohDemo {
    type V = Profile;

    closed spec fn view(&self) -> Profile {
        self.profile
    }
}

impl WorkingUserZenohDemo {
    /// A deployment whose loops are free to run.
    pub fn new() -> (demo: Self)
        ensures
            demo@ == paced_profile(),
    {
        WorkingUserZenohDemo { running: RunFlag::new(), profile: make_paced_profile() }
    }

    /// The policy and the timing that this deployment runs with.
    pub fn profile(&self) -> (profile: Profile)
        ensures
            profile == self@,
    {
        self.profile
    }

    /// Whether no shutdown has been asked for yet.
    pub fn is_running(&self) -> bool {
        self.running.is_up()
    }

    /// Asks every loop of the deployment to end.
    pub fn stop(&self) {
        self.running.lower();
    }

    /// Another handle on the same deployment, for a loop of its own.
    pub fn share(&self) -> (demo: Self)
        ensures
            demo@ == self@,
    {
        WorkingUserZenohDemo { running: self.running.share(), profile: self.profile }
    }
}

/// Windowed arbitration: a job is held for 100 ms and goes to the lowest
/// estimate; every claim carries the same estimate of five seconds.
pub struct UserDefinedDemo {
    running: RunFlag,
    profile: Profile,
}

impl View for UserDefinedDemo {
    type V = Profile;

    closed spec fn view(&self) -> Profile {
        self.profile
    }
}

impl UserDefinedDemo {
    /// A deployment whose loops are free to run.
    pub fn new() -> (demo: Self)
        ensures
            demo@ == windowed_profile(),
    {
        UserDefinedDemo { running: RunFlag::new(), profile: make_windowed_profile() }
    }

    /// The policy and the timing that this deployment runs with.
    pub fn profile(&self) -> (profile: Profile)
        ensures
            profile == self@,
    {
        self.profile
    }

    /// Whether no shutdown has been asked for yet.
    pub fn is_running(&self) -> bool {
        self.running.is_up()
    }

    /// Asks every loop of the deployment to end.
    pub fn stop(&self) {
        self.running.lower();
    }

    /// Another handle on the same deployment, for a loop of its own.
    pub fn share(&self) -> (demo: Self)
        ensures
            demo@ == self@,
    {
        UserDefinedDemo { running: self.running.share(), profile: self.profile }
    }

    /// The sample task that computes the factorial of `number`.
    pub fn create_factorial_task_definition(number: u64) -> (definition: TaskDefinition)
        ensures
            definition@ == factorial_definition(number),
    {
        factorial_task_definition(number)
    }

    /// The sample task that lists the first `terms` Fibonacci numbers.
    pub fn create_fibonacci_task_definition(terms: u64) -> (definition: TaskDefinition)
        ensures
            definition@ == fibonacci_definition(terms),
    {
        fibonacci_task_definition(terms)
    }
}

/// Execution without the bus: tasks are handed straight to an executor.
pub struct SimpleUserDefinedDemo {
    running: RunFlag,
}

impl SimpleUserDefinedDemo {
    /// A deployment that is free to run.
    pub fn new() -> Self {
        SimpleUserDefinedDemo { running: RunFlag::new() }
    }

    /// Whether no shutdown has been asked for yet.
    pub fn is_running(&self) -> bool {
        self.running.is_up()
    }

    /// Asks the deployment to end.
    pub fn stop(&self) {
        self.running.lower();
    }

    /// An executor that has nothing to do yet.
    pub fn executor(&self) -> (executor: DynamicTaskExecutor)
        ensures
            executor@ == ExecutorPhaseView::Ready,
    {
        DynamicTaskExecutor::new()
    }

    /// The sample task that computes the factorial of `number`.
    pub fn create_factorial_task_definition(number: u64) -> (definition: TaskDefinition)
        ensures
            definition@ == factorial_definition(number),
    {
        factorial_task_definition(number)
    }

    /// The sample task that lists the first `terms` Fibonacci numbers.
    pub fn create_fibonacci_task_definition(terms: u64) -> (definition: TaskDefinition)
        ensures
            definition@ == fibonacci_definition(terms),
    {
        fibonacci_task_definition(terms)
    }
}

} // verus!
