//! Records exchanged by the dispatch protocol, each with its mathematical view.
//!
//! Text fields are viewed as `Seq<char>`, lists as `Seq`. Instants are
//! milliseconds since the Unix epoch, and structured payloads (task inputs,
//! default values, output values) are carried as JSON text.

use vstd::prelude::*;
use crate::system::now_ms;
use crate::system::random_task_id;

verus! {

/// Timeout given to a job that is built by `Job::new_user_task`, in seconds.
pub const DEFAULT_TIMEOUT_SECONDS: u64 = 300;

/// Where a task stands on its timeline.
#[derive(Clone, Copy, Debug, PartialEq, Eq, Structural)]
pub enum TaskStatus {
    Pending,
    Claimed,
    Assigned,
    Running,
    Completed,
    Failed,
    Timeout,
    Cancelled,
}

impl TaskStatus {
    /// Position on the timeline `Pending → Claimed → Assigned → Running → terminal`.
    pub open spec fn rank(self) -> nat {
        match self {
            TaskStatus::Pending => 0,
            TaskStatus::Claimed => 1,
            TaskStatus::Assigned => 2,
            TaskStatus::Running => 3,
            TaskStatus::Completed => 4,
            TaskStatus::Failed => 4,
            TaskStatus::Timeout => 4,
            TaskStatus::Cancelled => 4,
        }
    }

    /// The timeline ends here.
    pub open spec fn terminal(self) -> bool {
        self.rank() == 4
    }

    /// A timeline may move from `self` to `next`: forward only, and never out
    /// of a terminal state.
    pub open spec fn may_precede(self, next: TaskStatus) -> bool {
        self.rank() < next.rank()
    }

    /// Completed, Failed, Timeout or Cancelled.
    pub fn is_terminal(&self) -> (res: bool)
        ensures
            res == self.terminal(),
    {
        match self {
            TaskStatus::Completed => true,
            TaskStatus::Failed => true,
            TaskStatus::Timeout => true,
            TaskStatus::Cancelled => true,
            _ => false,
        }
    }

    /// Whether a status record `next` may follow a record `self` for the same task.
    pub fn can_advance_to(&self, next: &TaskStatus) -> (res: bool)
        ensures
            res == self.may_precede(*next),
    {
        self.position() < next.position()
    }

    fn position(&self) -> (res: u8)
        ensures
            res == self.rank(),
    {
        match self {
            TaskStatus::Pending => 0,
            TaskStatus::Claimed => 1,
            TaskStatus::Assigned => 2,
            TaskStatus::Running => 3,
            _ => 4,
        }
    }
}

/// Availability that a worker reports of itself.
#[derive(Clone, Copy, Debug, PartialEq, Eq, Structural)]
pub enum WorkerStatus {
    Available,
    Busy,
    Offline,
}

/// Where the code of a task comes from.
#[derive(Debug, PartialEq, Eq)]
pub enum TaskSource {
    Inline { code: String, language: String },
    Url { url: String },
    Git { repo: String, path: String, branch: Option<String> },
    Gist { id: String, filename: String },
    Wasm { wasm_bytes: Vec<u8> },
    Docker { image: String, command: Vec<String> },
}

/// The mathematical view of `TaskSource`.
pub enum TaskSourceView {
    Inline { code: Seq<char>, language: Seq<char> },
    Url { url: Seq<char> },
    Git { repo: Seq<char>, path: Seq<char>, branch: Option<Seq<char>> },
    Gist { id: Seq<char>, filename: Seq<char> },
    Wasm { wasm_bytes: Seq<u8> },
    Docker { image: Seq<char>, command: Seq<Seq<char>> },
}

impl DeepView for TaskSource {
    type V = TaskSourceView;

    open spec fn deep_view(&self) -> TaskSourceView {
        match self {
            TaskSource::Inline { code, language } => TaskSourceView::Inline {
                code: code@,
                language: language@,
            },
            TaskSource::Url { url } => TaskSourceView::Url { url: url@ },
            TaskSource::Git { repo, path, branch } => TaskSourceView::Git {
                repo: repo@,
                path: path@,
                branch: branch.deep_view(),
            },
            TaskSource::Gist { id, filename } => TaskSourceView::Gist {
                id: id@,
                filename: filename@,
            },
            TaskSource::Wasm { wasm_bytes } => TaskSourceView::Wasm { wasm_bytes: wasm_bytes@ },
            TaskSource::Docker { image, command } => TaskSourceView::Docker {
                image: image@,
                command: command.deep_view(),
            },
        }
    }
}

impl View for TaskSource {
    type V = TaskSourceView;

    open spec fn view(&self) -> TaskSourceView {
        self.deep_view()
    }
}

impl Clone for TaskSource {
    fn clone(&self) -> (res: Self)
        ensures
            res@ == self@,
    {
        match self {
            TaskSource::Inline { code, language } => TaskSource::Inline {
                code: code.clone(),
                language: language.clone(),
            },
            TaskSource::Url { url } => TaskSource::Url { url: url.clone() },
            TaskSource::Git { repo, path, branch } => TaskSource::Git {
                repo: repo.clone(),
                path: path.clone(),
                branch: branch.clone(),
            },
            TaskSource::Gist { id, filename } => TaskSource::Gist {
                id: id.clone(),
                filename: filename.clone(),
            },
            TaskSource::Wasm { wasm_bytes } => TaskSource::Wasm { wasm_bytes: wasm_bytes.clone() },
            TaskSource::Docker { image, command } => TaskSource::Docker {
                image: image.clone(),
                command: command.clone(),
            },
        }
    }
}

/// A declared input of a task.
#[derive(Debug, PartialEq, Eq)]
pub struct TaskInput {
    pub name: String,
    pub data_type: String,
    pub description: Option<String>,
    pub required: bool,
    /// JSON text of the default, if one is declared.
    pub default_value: Option<String>,
}

/// The mathematical view of `TaskInput`.
pub struct TaskInputView {
    pub name: Seq<char>,
    pub data_type: Seq<char>,
    pub description: Option<Seq<char>>,
    pub required: bool,
    pub default_value: Option<Seq<char>>,
}

impl DeepView for TaskInput {
    type V = TaskInputView;

    open spec fn deep_view(&self) -> TaskInputView {
        TaskInputView {
            name: self.name@,
            data_type: self.data_type@,
            description: self.description.deep_view(),
            required: self.required,
            default_value: self.default_value.deep_view(),
        }
    }
}

impl View for TaskInput {
    type V = TaskInputView;

    open spec fn view(&self) -> TaskInputView {
        self.deep_view()
    }
}

impl Clone for TaskInput {
    fn clone(&self) -> (res: Self)
        ensures
            res@ == self@,
    {
        TaskInput {
            name: self.name.clone(),
            data_type: self.data_type.clone(),
            description: self.description.clone(),
            required: self.required,
            default_value: self.default_value.clone(),
        }
    }
}

/// A declared output of a task.
#[derive(Debug, PartialEq, Eq)]
pub struct TaskOutput {
    pub name: String,
    pub description: Option<String>,
    pub data_type: String,
}

/// The mathematical view of `TaskOutput`.
pub struct TaskOutputView {
    pub name: Seq<char>,
    pub description: Option<Seq<char>>,
    pub data_type: Seq<char>,
}

impl DeepView for TaskOutput {
    type V = TaskOutputView;

    open spec fn deep_view(&self) -> TaskOutputView {
        TaskOutputView {
            name: self.name@,
            description: self.description.deep_view(),
            data_type: self.data_type@,
        }
    }
}

impl View for TaskOutput {
    type V = TaskOutputView;

    open spec fn view(&self) -> TaskOutputView {
        self.deep_view()
    }
}

impl Clone for TaskOutput {
    fn clone(&self) -> (res: Self)
        ensures
            res@ == self@,
    {
        TaskOutput {
            name: self.name.clone(),
            description: self.description.clone(),
            data_type: self.data_type.clone(),
        }
    }
}

/// Resources that a task asks for.
#[derive(Debug, PartialEq, Eq)]
pub struct TaskRequirements {
    pub memory_mb: Option<u64>,
    pub cpu_cores: Option<u32>,
    pub timeout_seconds: Option<u64>,
    pub dependencies: Option<Vec<String>>,
}

/// The mathematical view of `TaskRequirements`.
pub struct TaskRequirementsView {
    pub memory_mb: Option<u64>,
    pub cpu_cores: Option<u32>,
    pub timeout_seconds: Option<u64>,
    pub dependencies: Option<Seq<Seq<char>>>,
}

impl DeepView for TaskRequirements {
    type V = TaskRequirementsView;

    open spec fn deep_view(&self) -> TaskRequirementsView {
        TaskRequirementsView {
            memory_mb: self.memory_mb,
            cpu_cores: self.cpu_cores,
            timeout_seconds: self.timeout_seconds,
            dependencies: self.dependencies.deep_view(),
        }
    }
}

impl View for TaskRequirements {
    type V = TaskRequirementsView;

    open spec fn view(&self) -> TaskRequirementsView {
        self.deep_view()
    }
}

impl Clone for TaskRequirements {
    fn clone(&self) -> (res: Self)
        ensures
            res@ == self@,
    {
        let dependencies = match &self.dependencies {
            Some(list) => Some(list.clone()),
            None => None,
        };
        TaskRequirements {
            memory_mb: self.memory_mb,
            cpu_cores: self.cpu_cores,
            timeout_seconds: self.timeout_seconds,
            dependencies,
        }
    }
}

/// What a client asks to have computed.
#[derive(Debug, PartialEq, Eq)]
pub struct TaskDefinition {
    pub name: String,
    pub version: String,
    pub description: Option<String>,
    pub inputs: Vec<TaskInput>,
    pub outputs: Vec<TaskOutput>,
    pub source: TaskSource,
    pub requirements: Option<TaskRequirements>,
}

/// The mathematical view of `TaskDefinition`.
pub struct TaskDefinitionView {
    pub name: Seq<char>,
    pub version: Seq<char>,
    pub description: Option<Seq<char>>,
    pub inputs: Seq<TaskInputView>,
    pub outputs: Seq<TaskOutputView>,
    pub source: TaskSourceView,
    pub requirements: Option<TaskRequirementsView>,
}

impl DeepView for TaskDefinition {
    type V = TaskDefinitionView;

    open spec fn deep_view(&self) -> TaskDefinitionView {
        TaskDefinitionView {
            name: self.name@,
            version: self.version@,
            description: self.description.deep_view(),
            inputs: self.inputs.deep_view(),
            outputs: self.outputs.deep_view(),
            source: self.source@,
            requirements: self.requirements.deep_view(),
        }
    }
}

impl View for TaskDefinition {
    type V = TaskDefinitionView;

    open spec fn view(&self) -> TaskDefinitionView {
        self.deep_view()
    }
}

impl Clone for TaskDefinition {
    fn clone(&self) -> (res: Self)
        ensures
            res@ == self@,
    {
        let inputs = self.inputs.clone();
        let outputs = self.outputs.clone();
        let requirements = match &self.requirements {
            Some(r) => Some(r.clone()),
            None => None,
        };
        TaskDefinition {
            name: self.name.clone(),
            version: self.version.clone(),
            description: self.description.clone(),
            inputs,
            outputs,
            source: self.source.clone(),
            requirements,
        }
    }
}

/// A task as it is announced on a queue.
#[derive(Debug, PartialEq, Eq)]
pub struct Job {
    pub task_id: String,
    pub queue: String,
    pub task_definition: Option<TaskDefinition>,
    /// JSON text of the input payload.
    pub inputs: String,
    pub priority: Option<i32>,
    pub created_at_ms: u64,
    pub timeout_seconds: Option<u64>,
}

/// The mathematical view of `Job`.
pub struct JobView {
    pub task_id: Seq<char>,
    pub queue: Seq<char>,
    pub task_definition: Option<TaskDefinitionView>,
    pub inputs: Seq<char>,
    pub priority: Option<i32>,
    pub created_at_ms: u64,
    pub timeout_seconds: Option<u64>,
}

impl DeepView for Job {
    type V = JobView;

    open spec fn deep_view(&self) -> JobView {
        JobView {
            task_id: self.task_id@,
            queue: self.queue@,
            task_definition: self.task_definition.deep_view(),
            inputs: self.inputs@,
            priority: self.priority,
            created_at_ms: self.created_at_ms,
            timeout_seconds: self.timeout_seconds,
        }
    }
}

impl View for Job {
    type V = JobView;

    open spec fn view(&self) -> JobView {
        self.deep_view()
    }
}

impl Clone for Job {
    fn clone(&self) -> (res: Self)
        ensures
            res@ == self@,
    {
        let task_definition = match &self.task_definition {
            Some(d) => Some(d.clone()),
            None => None,
        };
        Job {
            task_id: self.task_id.clone(),
            queue: self.queue.clone(),
            task_definition,
            inputs: self.inputs.clone(),
            priority: self.priority,
            created_at_ms: self.created_at_ms,
            timeout_seconds: self.timeout_seconds,
        }
    }
}

impl Job {
    /// The job that submits `task_definition` with `inputs` to `queue` under
    /// the identifier `task_id`: priority 0, the default timeout.
    pub fn user_task(
        task_id: String,
        created_at_ms: u64,
        queue: String,
        task_definition: TaskDefinition,
        inputs: String,
    ) -> (job: Job)
        ensures
            job@ == (JobView {
                task_id: task_id@,
                queue: queue@,
                task_definition: Some(task_definition@),
                inputs: inputs@,
                priority: Some(0i32),
                created_at_ms,
                timeout_seconds: Some(DEFAULT_TIMEOUT_SECONDS),
            }),
    {
        Job {
            task_id,
            queue,
            task_definition: Some(task_definition),
            inputs,
            priority: Some(0),
            created_at_ms,
            timeout_seconds: Some(DEFAULT_TIMEOUT_SECONDS),
        }
    }

    /// The job that hands `inputs` to the workers of `queue` under the
    /// identifier `task_id`, without a task definition: what is to be done
    /// with the inputs is the workers' to know. Priority 0, the default timeout.
    pub fn plain(task_id: String, created_at_ms: u64, queue: String, inputs: String) -> (job: Job)
        ensures
            job@ == (JobView {
                task_id: task_id@,
                queue: queue@,
                task_definition: None,
                inputs: inputs@,
                priority: Some(0i32),
                created_at_ms,
                timeout_seconds: Some(DEFAULT_TIMEOUT_SECONDS),
            }),
    {
        Job {
            task_id,
            queue,
            task_definition: None,
            inputs,
            priority: Some(0),
            created_at_ms,
            timeout_seconds: Some(DEFAULT_TIMEOUT_SECONDS),
        }
    }

    /// A job without a task definition under a fresh random identifier,
    /// created now.
    ///
    /// The identifier and the creation time are whatever the generator and
    /// the clock give; everything else is fixed by the arguments.
    pub fn new(queue: String, inputs: String) -> (job: Job)
        ensures
            job@ == (JobView {
                task_id: job@.task_id,
                queue: queue@,
                task_definition: None,
                inputs: inputs@,
                priority: Some(0i32),
                created_at_ms: job@.created_at_ms,
                timeout_seconds: Some(DEFAULT_TIMEOUT_SECONDS),
            }),
            job@.task_id.len() == 36,
    {
        let task_id = random_task_id();
        let created_at_ms = now_ms();
        Job::plain(task_id, created_at_ms, queue, inputs)
    }

    /// A job for `task_definition` under a fresh random identifier, created now.
    ///
    /// The identifier and the creation time are whatever the generator and
    /// the clock give; everything else is fixed by the arguments.
    pub fn new_user_task(queue: String, task_definition: TaskDefinition, inputs: String) -> (job:
        Job)
        ensures
            job@ == (JobView {
                task_id: job@.task_id,
                queue: queue@,
                task_definition: Some(task_definition@),
                inputs: inputs@,
                priority: Some(0i32),
                created_at_ms: job@.created_at_ms,
                timeout_seconds: Some(DEFAULT_TIMEOUT_SECONDS),
            }),
            job@.task_id.len() == 36,
    {
        let task_id = random_task_id();
        let created_at_ms = now_ms();
        Job::user_task(task_id, created_at_ms, queue, task_definition, inputs)
    }
}

/// A worker's bid for a task.
#[derive(Debug, PartialEq, Eq)]
pub struct Claim {
    pub task_id: String,
    pub worker_id: String,
    /// Estimated time to completion, in milliseconds.
    pub eta_ms: u64,
    pub lease_until_ms: u64,
    pub claimed_at_ms: u64,
}

/// The mathematical view of `Claim`.
pub struct ClaimView {
    pub task_id: Seq<char>,
    pub worker_id: Seq<char>,
    pub eta_ms: u64,
    pub lease_until_ms: u64,
    pub claimed_at_ms: u64,
}

impl DeepView for Claim {
    type V = ClaimView;

    open spec fn deep_view(&self) -> ClaimView {
        ClaimView {
            task_id: self.task_id@,
            worker_id: self.worker_id@,
            eta_ms: self.eta_ms,
            lease_until_ms: self.lease_until_ms,
            claimed_at_ms: self.claimed_at_ms,
        }
    }
}

impl View for Claim {
    type V = ClaimView;

    open spec fn view(&self) -> ClaimView {
        self.deep_view()
    }
}

impl Clone for Claim {
    fn clone(&self) -> (res: Self)
        ensures
            res@ == self@,
    {
        Claim {
            task_id: self.task_id.clone(),
            worker_id: self.worker_id.clone(),
            eta_ms: self.eta_ms,
            lease_until_ms: self.lease_until_ms,
            claimed_at_ms: self.claimed_at_ms,
        }
    }
}

/// The binding decision that names the one worker of a task.
#[derive(Debug, PartialEq, Eq)]
pub struct Assign {
    pub task_id: String,
    pub worker_id: String,
    pub assigned_at_ms: u64,
    /// Seconds that the assignee is given.
    pub deadline_s: u64,
}

/// The mathematical view of `Assign`.
pub struct AssignView {
    pub task_id: Seq<char>,
    pub worker_id: Seq<char>,
    pub assigned_at_ms: u64,
    pub deadline_s: u64,
}

impl DeepView for Assign {
    type V = AssignView;

    open spec fn deep_view(&self) -> AssignView {
        AssignView {
            task_id: self.task_id@,
            worker_id: self.worker_id@,
            assigned_at_ms: self.assigned_at_ms,
            deadline_s: self.deadline_s,
        }
    }
}

impl View for Assign {
    type V = AssignView;

    open spec fn view(&self) -> AssignView {
        self.deep_view()
    }
}

impl Clone for Assign {
    fn clone(&self) -> (res: Self)
        ensures
            res@ == self@,
    {
        Assign {
            task_id: self.task_id.clone(),
            worker_id: self.worker_id.clone(),
            assigned_at_ms: self.assigned_at_ms,
            deadline_s: self.deadline_s,
        }
    }
}

/// One record of a task's timeline.
#[derive(Debug, PartialEq, Eq)]
pub struct Status {
    pub task_id: String,
    pub worker_id: String,
    pub status: TaskStatus,
    pub message: Option<String>,
    /// Progress in percent, 0 to 100.
    pub progress_percent: Option<u8>,
    pub timestamp_ms: u64,
}

/// The mathematical view of `Status`.
pub struct StatusView {
    pub task_id: Seq<char>,
    pub worker_id: Seq<char>,
    pub status: TaskStatus,
    pub message: Option<Seq<char>>,
    pub progress_percent: Option<u8>,
    pub timestamp_ms: u64,
}

impl StatusView {
    /// The progress, where there is one, is a percentage.
    pub open spec fn well_formed(self) -> bool {
        self.progress_percent matches Some(p) ==> p <= 100
    }
}

impl DeepView for Status {
    type V = StatusView;

    open spec fn deep_view(&self) -> StatusView {
        StatusView {
            task_id: self.task_id@,
            worker_id: self.worker_id@,
            status: self.status,
            message: self.message.deep_view(),
            progress_percent: self.progress_percent,
            timestamp_ms: self.timestamp_ms,
        }
    }
}

impl View for Status {
    type V = StatusView;

    open spec fn view(&self) -> StatusView {
        self.deep_view()
    }
}

impl Clone for Status {
    fn clone(&self) -> (res: Self)
        ensures
            res@ == self@,
    {
        Status {
            task_id: self.task_id.clone(),
            worker_id: self.worker_id.clone(),
            status: self.status,
            message: self.message.clone(),
            progress_percent: self.progress_percent,
            timestamp_ms: self.timestamp_ms,
        }
    }
}

/// One named output of a task, its value as JSON text.
#[derive(Debug, PartialEq, Eq)]
pub struct OutputValue {
    pub name: String,
    pub value: String,
}

/// The mathematical view of `OutputValue`.
pub struct OutputValueView {
    pub name: Seq<char>,
    pub value: Seq<char>,
}

impl DeepView for OutputValue {
    type V = OutputValueView;

    open spec fn deep_view(&self) -> OutputValueView {
        OutputValueView { name: self.name@, value: self.value@ }
    }
}

impl View for OutputValue {
    type V = OutputValueView;

    open spec fn view(&self) -> OutputValueView {
        self.deep_view()
    }
}

impl Clone for OutputValue {
    fn clone(&self) -> (res: Self)
        ensures
            res@ == self@,
    {
        OutputValue { name: self.name.clone(), value: self.value.clone() }
    }
}

/// The final outcome of a task.
#[derive(Debug, PartialEq, Eq)]
pub struct Result {
    pub task_id: String,
    pub worker_id: String,
    pub status: TaskStatus,
    pub outputs: Vec<OutputValue>,
    pub error: Option<String>,
    pub execution_time_ms: Option<u64>,
    pub completed_at_ms: u64,
}

/// The mathematical view of `Result`.
pub struct ResultView {
    pub task_id: Seq<char>,
    pub worker_id: Seq<char>,
    pub status: TaskStatus,
    pub outputs: Seq<OutputValueView>,
    pub error: Option<Seq<char>>,
    pub execution_time_ms: Option<u64>,
    pub completed_at_ms: u64,
}

impl ResultView {
    /// A result closes a timeline; it carries outputs only if the task
    /// completed, and an error message otherwise.
    pub open spec fn well_formed(self) -> bool {
        &&& self.status.terminal()
        &&& self.status == TaskStatus::Completed <==> self.error is None
        &&& self.status != TaskStatus::Completed ==> self.outputs.len() == 0
    }
}

impl DeepView for Result {
    type V = ResultView;

    open spec fn deep_view(&self) -> ResultView {
        ResultView {
            task_id: self.task_id@,
            worker_id: self.worker_id@,
            status: self.status,
            outputs: self.outputs.deep_view(),
            error: self.error.deep_view(),
            execution_time_ms: self.execution_time_ms,
            completed_at_ms: self.completed_at_ms,
        }
    }
}

impl View for Result {
    type V = ResultView;

    open spec fn view(&self) -> ResultView {
        self.deep_view()
    }
}

impl Clone for Result {
    fn clone(&self) -> (res: Self)
        ensures
            res@ == self@,
    {
        let outputs = self.outputs.clone();
        Result {
            task_id: self.task_id.clone(),
            worker_id: self.worker_id.clone(),
            status: self.status,
            outputs,
            error: self.error.clone(),
            execution_time_ms: self.execution_time_ms,
            completed_at_ms: self.completed_at_ms,
        }
    }
}

/// What a worker tells of itself.
#[derive(Debug, PartialEq, Eq)]
pub struct WorkerInfo {
    pub worker_id: String,
    pub capabilities: Vec<String>,
    pub status: WorkerStatus,
    pub last_heartbeat_ms: u64,
}

/// The mathematical view of `WorkerInfo`.
pub struct WorkerInfoView {
    pub worker_id: Seq<char>,
    pub capabilities: Seq<Seq<char>>,
    pub status: WorkerStatus,
    pub last_heartbeat_ms: u64,
}

impl DeepView for WorkerInfo {
    type V = WorkerInfoView;

    open spec fn deep_view(&self) -> WorkerInfoView {
        WorkerInfoView {
            worker_id: self.worker_id@,
            capabilities: self.capabilities.deep_view(),
            status: self.status,
            last_heartbeat_ms: self.last_heartbeat_ms,
        }
    }
}

impl View for WorkerInfo {
    type V = WorkerInfoView;

    open spec fn view(&self) -> WorkerInfoView {
        self.deep_view()
    }
}

impl Clone for WorkerInfo {
    fn clone(&self) -> (res: Self)
        ensures
            res@ == self@,
    {
        let capabilities = self.capabilities.clone();
        WorkerInfo {
            worker_id: self.worker_id.clone(),
            capabilities,
            status: self.status,
            last_heartbeat_ms: self.last_heartbeat_ms,
        }
    }
}

} // verus!
