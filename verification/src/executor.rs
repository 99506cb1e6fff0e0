//! The task executor's decisions.
//!
//! An execution obtains a private working directory, resolves the task's
//! source into a script, runs the script on the inputs under the task's
//! timeout, reads the outputs, and removes the directory again. The executor
//! is a state machine over that course: it says which action comes next, its
//! driver performs the action and reports how it went.

use vstd::prelude::*;
use vstd::string::*;
use vstd::utf8::decode_utf8;
use vstd::utf8::valid_utf8;
use crate::schema::Job;
use crate::schema::JobView;
use crate::schema::OutputValue;
use crate::schema::OutputValueView;
use crate::schema::TaskDefinition;
use crate::schema::TaskDefinitionView;
use crate::schema::TaskSource;
use crate::schema::TaskSourceView;
use crate::schema::DEFAULT_TIMEOUT_SECONDS;

verus! {

/// Name of the file that holds the inputs of a run, inside the working directory.
pub const INPUTS_FILE: &'static str = "inputs.json";

/// Directory that a repository is cloned into, inside the working directory.
pub const REPOSITORY_DIR: &'static str = "repo";

/// How an execution ended.
#[derive(Debug, PartialEq, Eq)]
pub enum ExecutionOutcome {
    /// The code ran and reported these outputs.
    Completed { outputs: Vec<OutputValue> },
    /// The code could not be obtained or run, or it reported a failure.
    Failed { message: String },
    /// The code was stopped because it ran longer than allowed.
    TimedOut,
}

/// The mathematical view of `ExecutionOutcome`.
pub enum ExecutionOutcomeView {
    Completed { outputs: Seq<OutputValueView> },
    Failed { message: Seq<char> },
    TimedOut,
}

impl DeepView for ExecutionOutcome {
    type V = ExecutionOutcomeView;

    open spec fn deep_view(&self) -> ExecutionOutcomeView {
        match self {
            ExecutionOutcome::Completed { outputs } => ExecutionOutcomeView::Completed {
                outputs: outputs.deep_view(),
            },
            ExecutionOutcome::Failed { message } => ExecutionOutcomeView::Failed {
                message: message@,
            },
            ExecutionOutcome::TimedOut => ExecutionOutcomeView::TimedOut,
        }
    }
}

impl View for ExecutionOutcome {
    type V = ExecutionOutcomeView;

    open spec fn view(&self) -> ExecutionOutcomeView {
        self.deep_view()
    }
}

impl Clone for ExecutionOutcome {
    fn clone(&self) -> (res: Self)
        ensures
            res@ == self@,
    {
        match self {
            ExecutionOutcome::Completed { outputs } => ExecutionOutcome::Completed {
                outputs: outputs.clone(),
            },
            ExecutionOutcome::Failed { message } => ExecutionOutcome::Failed {
                message: message.clone(),
            },
            ExecutionOutcome::TimedOut => ExecutionOutcome::TimedOut,
        }
    }
}

/// `text` ends with `suffix`.
pub open spec fn ends_with(text: Seq<char>, suffix: Seq<char>) -> bool {
    suffix.len() <= text.len() && text.subrange(text.len() - suffix.len(), text.len() as int)
        == suffix
}

/// A scripting language that the executor can run.
#[derive(Clone, Copy, Debug, PartialEq, Eq, Structural)]
pub enum Language {
    Python,
    JavaScript,
}

impl Language {
    /// The language that a tag names: `python`, or `javascript` or `js`.
    pub open spec fn of_tag(tag: Seq<char>) -> Option<Language> {
        if tag == "python"@ {
            Some(Language::Python)
        } else if tag == "javascript"@ || tag == "js"@ {
            Some(Language::JavaScript)
        } else {
            None
        }
    }

    /// The language that the name of a file or the end of a URL suggests:
    /// JavaScript for `.js`, Python for `.py` and for everything else.
    pub open spec fn of_file_name(name: Seq<char>) -> Language {
        if ends_with(name, ".py"@) {
            Language::Python
        } else if ends_with(name, ".js"@) {
            Language::JavaScript
        } else {
            Language::Python
        }
    }

    /// Name of the script file inside the working directory.
    pub open spec fn script_file(self) -> Seq<char> {
        match self {
            Language::Python => "script.py"@,
            Language::JavaScript => "script.js"@,
        }
    }

    /// Program that runs a script of this language.
    pub open spec fn interpreter(self) -> Seq<char> {
        match self {
            Language::Python => "python3"@,
            Language::JavaScript => "node"@,
        }
    }

    /// Name of the language in messages.
    pub open spec fn label(self) -> Seq<char> {
        match self {
            Language::Python => "Python"@,
            Language::JavaScript => "JavaScript"@,
        }
    }

    /// The language that `tag` names, if the executor knows it.
    pub fn from_tag(tag: &String) -> (language: Option<Language>)
        ensures
            language == Language::of_tag(tag@),
    {
        if *tag == String::from_str("python") {
            Some(Language::Python)
        } else if *tag == String::from_str("javascript") || *tag == String::from_str("js") {
            Some(Language::JavaScript)
        } else {
            None
        }
    }

    /// The language that the end of `name` suggests.
    pub fn from_file_name(name: &str) -> (language: Language)
        ensures
            language == Language::of_file_name(name@),
    {
        if has_suffix(name, ".py") {
            Language::Python
        } else if has_suffix(name, ".js") {
            Language::JavaScript
        } else {
            Language::Python
        }
    }

    /// The name of the script file inside the working directory.
    pub fn script_name(&self) -> (name: String)
        ensures
            name@ == self.script_file(),
    {
        match self {
            Language::Python => String::from_str("script.py"),
            Language::JavaScript => String::from_str("script.js"),
        }
    }

    /// The program that runs a script of this language.
    pub fn program(&self) -> (name: String)
        ensures
            name@ == self.interpreter(),
    {
        match self {
            Language::Python => String::from_str("python3"),
            Language::JavaScript => String::from_str("node"),
        }
    }

    /// The name of the language as messages write it.
    pub fn display_name(&self) -> (name: String)
        ensures
            name@ == self.label(),
    {
        match self {
            Language::Python => String::from_str("Python"),
            Language::JavaScript => String::from_str("JavaScript"),
        }
    }
}

/// Whether `text` ends with `suffix`.
pub fn has_suffix(text: &str, suffix: &str) -> (res: bool)
    ensures
        res == ends_with(text@, suffix@),
{
    let n = text.unicode_len();
    let m = suffix.unicode_len();
    if m > n {
        return false;
    }
    let start = n - m;
    let mut i: usize = 0;
    while i < m
        invariant
            n == text@.len(),
            m == suffix@.len(),
            m <= n,
            start == n - m,
            i <= m,
            forall|j: int| 0 <= j < i ==> text@[start + j] == suffix@[j],
        decreases m - i,
    {
        if text.get_char(start + i) != suffix.get_char(i) {
            return false;
        }
        i += 1;
    }
    assert(text@.subrange(n - m, n as int) =~= suffix@);
    true
}

fn join2(first: &str, second: &str) -> (joined: String)
    ensures
        joined@ == first@ + second@,
{
    let mut joined = String::from_str(first);
    joined.append(second);
    joined
}

/// The members of the JSON object that `text` holds, in ascending order of
/// their names and each with its value as JSON text, as serde_json reads
/// them; `None` where serde_json does not read `text` as an object.
pub uninterp spec fn json_object_entries(text: Seq<char>) -> Option<Seq<OutputValueView>>;

/// Reads `text` with `serde_json::from_str` as a map from names to JSON
/// values, and hands out its entries in the order of the map, each value
/// written back as JSON text by the value's `Display`.
///
/// Trusted: the outcome depends on `text` alone. What it is on a given text
/// is serde_json's business and is not stated here.
#[verifier::external_body]
pub(crate) fn parse_json_object(text: &str) -> (entries: Option<Vec<OutputValue>>)
    ensures
        entries.deep_view() == json_object_entries(text@),
{
    match serde_json::from_str::<std::collections::BTreeMap<String, serde_json::Value>>(text) {
        Ok(object) => Some(
            object.into_iter().map(|(name, value)| OutputValue { name, value: value.to_string() })
                .collect(),
        ),
        Err(_) => None,
    }
}

/// The text that `bytes` encode, by `String::from_utf8`.
///
/// Trusted: the conversion succeeds exactly on well-formed UTF-8 and then
/// gives the characters that the bytes encode.
#[verifier::external_body]
pub(crate) fn text_of_bytes(bytes: Vec<u8>) -> (text: Option<String>)
    ensures
        text is Some <==> valid_utf8(bytes@),
        text matches Some(t) ==> t@ == decode_utf8(bytes@),
{
    String::from_utf8(bytes).ok()
}

/// The URL under which a file of a gist is served raw.
pub open spec fn gist_url(id: Seq<char>, filename: Seq<char>) -> Seq<char> {
    "https://gist.githubusercontent.com/"@ + id + "/raw/"@ + filename
}

/// Where a file of a cloned repository lies, relative to the working directory.
pub open spec fn repository_file(path: Seq<char>) -> Seq<char> {
    REPOSITORY_DIR@ + "/"@ + path
}

/// The outputs that a script printed, if what it printed is UTF-8 text that
/// holds one JSON object.
pub open spec fn printed_outputs(stdout: Seq<u8>) -> Option<Seq<OutputValueView>> {
    if valid_utf8(stdout) {
        json_object_entries(decode_utf8(stdout))
    } else {
        None
    }
}

/// How a run that printed `outputs` (if it printed any that can be read) and
/// `stderr` is judged: it completed with those outputs, or it failed with the
/// diagnostics in the message.
pub open spec fn output_outcome(
    language: Language,
    outputs: Option<Seq<OutputValueView>>,
    stderr: Seq<char>,
) -> ExecutionOutcomeView {
    match outputs {
        Some(outputs) => ExecutionOutcomeView::Completed { outputs },
        None => ExecutionOutcomeView::Failed {
            message: language.label() + " produced malformed output: "@ + stderr,
        },
    }
}

/// How a run that has ended is judged: a run that reports failure has failed,
/// with its diagnostics in the message; otherwise its output decides.
pub open spec fn exit_outcome(
    language: Language,
    success: bool,
    stdout: Seq<u8>,
    stderr: Seq<char>,
) -> ExecutionOutcomeView {
    if success {
        output_outcome(language, printed_outputs(stdout), stderr)
    } else {
        ExecutionOutcomeView::Failed {
            message: language.label() + " execution failed: "@ + stderr,
        }
    }
}

/// The time that a job's execution is allowed, in seconds: the tighter of the
/// job's own timeout and the one that its task definition asks for, or the
/// default where neither is given.
pub open spec fn effective_timeout(job: JobView) -> u64 {
    let declared = match job.task_definition {
        Some(definition) => match definition.requirements {
            Some(requirements) => requirements.timeout_seconds,
            None => None,
        },
        None => None,
    };
    match (job.timeout_seconds, declared) {
        (Some(a), Some(b)) => if a <= b {
            a
        } else {
            b
        },
        (Some(a), None) => a,
        (None, Some(b)) => b,
        (None, None) => DEFAULT_TIMEOUT_SECONDS,
    }
}

/// What the driver reports of the action it was asked to perform.
#[derive(Debug, PartialEq, Eq)]
pub enum ExecutorEvent {
    /// The action succeeded and has nothing to hand back.
    Done,
    /// The action succeeded and hands back text: the body that was fetched,
    /// the file that was read.
    Text { content: String },
    /// The process ran to its end.
    Exited { success: bool, stdout: Vec<u8>, stderr: String },
    /// The process ran longer than allowed and was stopped.
    TimedOut,
    /// The action could not be carried out.
    Failed { message: String },
}

/// The mathematical view of `ExecutorEvent`.
pub enum ExecutorEventView {
    Done,
    Text { content: Seq<char> },
    Exited { success: bool, stdout: Seq<u8>, stderr: Seq<char> },
    TimedOut,
    Failed { message: Seq<char> },
}

impl DeepView for ExecutorEvent {
    type V = ExecutorEventView;

    open spec fn deep_view(&self) -> ExecutorEventView {
        match self {
            ExecutorEvent::Done => ExecutorEventView::Done,
            ExecutorEvent::Text { content } => ExecutorEventView::Text { content: content@ },
            ExecutorEvent::Exited { success, stdout, stderr } => ExecutorEventView::Exited {
                success: *success,
                stdout: stdout@,
                stderr: stderr@,
            },
            ExecutorEvent::TimedOut => ExecutorEventView::TimedOut,
            ExecutorEvent::Failed { message } => ExecutorEventView::Failed { message: message@ },
        }
    }
}

impl View for ExecutorEvent {
    type V = ExecutorEventView;

    open spec fn view(&self) -> ExecutorEventView {
        self.deep_view()
    }
}

/// What the executor asks its driver to do next. File names are relative to
/// the working directory, and processes run inside it.
#[derive(Debug, PartialEq, Eq)]
pub enum ExecutorAction {
    /// Create a fresh, private working directory.
    CreateWorkDir,
    /// Fetch the content behind `url`.
    Fetch { url: String },
    /// Clone `repo`, at `branch` if one is given, into `directory`.
    GitClone { repo: String, branch: Option<String>, directory: String },
    /// Read the file `path` as text.
    ReadFile { path: String },
    /// Write `content` to the file `name`.
    WriteFile { name: String, content: String },
    /// Run `program` on `arguments`, and stop it after `timeout_seconds`.
    Run { program: String, arguments: Vec<String>, timeout_seconds: u64 },
    /// Remove the working directory with all that is in it.
    RemoveWorkDir,
    /// There is nothing to do.
    Nothing,
}

/// The mathematical view of `ExecutorAction`.
pub enum ExecutorActionView {
    CreateWorkDir,
    Fetch { url: Seq<char> },
    GitClone { repo: Seq<char>, branch: Option<Seq<char>>, directory: Seq<char> },
    ReadFile { path: Seq<char> },
    WriteFile { name: Seq<char>, content: Seq<char> },
    Run { program: Seq<char>, arguments: Seq<Seq<char>>, timeout_seconds: u64 },
    RemoveWorkDir,
    Nothing,
}

impl DeepView for ExecutorAction {
    type V = ExecutorActionView;

    open spec fn deep_view(&self) -> ExecutorActionView {
        match self {
            ExecutorAction::CreateWorkDir => ExecutorActionView::CreateWorkDir,
            ExecutorAction::Fetch { url } => ExecutorActionView::Fetch { url: url@ },
            ExecutorAction::GitClone { repo, branch, directory } => ExecutorActionView::GitClone {
                repo: repo@,
                branch: branch.deep_view(),
                directory: directory@,
            },
            ExecutorAction::ReadFile { path } => ExecutorActionView::ReadFile { path: path@ },
            ExecutorAction::WriteFile { name, content } => ExecutorActionView::WriteFile {
                name: name@,
                content: content@,
            },
            ExecutorAction::Run { program, arguments, timeout_seconds } => {
                ExecutorActionView::Run {
                    program: program@,
                    arguments: arguments.deep_view(),
                    timeout_seconds: *timeout_seconds,
                }
            },
            ExecutorAction::RemoveWorkDir => ExecutorActionView::RemoveWorkDir,
            ExecutorAction::Nothing => ExecutorActionView::Nothing,
        }
    }
}

impl View for ExecutorAction {
    type V = ExecutorActionView;

    open spec fn view(&self) -> ExecutorActionView {
        self.deep_view()
    }
}

/// How far an execution has come.
#[derive(Debug, PartialEq, Eq)]
pub enum ExecutorPhase {
    /// No execution has been asked for.
    Ready,
    /// The working directory has been asked for.
    CreatingWorkDir { source: TaskSource, inputs: String, timeout_seconds: u64 },
    /// The code is being fetched from a URL.
    Fetching { language: Language, inputs: String, timeout_seconds: u64 },
    /// The repository that holds the code is being cloned.
    Cloning { path: String, inputs: String, timeout_seconds: u64 },
    /// The code is being read from the cloned repository.
    Reading { language: Language, inputs: String, timeout_seconds: u64 },
    /// The script is being written.
    WritingScript { language: Language, inputs: String, timeout_seconds: u64 },
    /// The inputs are being written.
    WritingInputs { language: Language, timeout_seconds: u64 },
    /// The script runs.
    Running { language: Language },
    /// The outcome is known and the working directory is being removed.
    Cleaning { outcome: ExecutionOutcome },
    /// The execution is over.
    Finished { outcome: ExecutionOutcome },
}

/// The mathematical view of `ExecutorPhase`.
pub enum ExecutorPhaseView {
    Ready,
    CreatingWorkDir { source: TaskSourceView, inputs: Seq<char>, timeout_seconds: u64 },
    Fetching { language: Language, inputs: Seq<char>, timeout_seconds: u64 },
    Cloning { path: Seq<char>, inputs: Seq<char>, timeout_seconds: u64 },
    Reading { language: Language, inputs: Seq<char>, timeout_seconds: u64 },
    WritingScript { language: Language, inputs: Seq<char>, timeout_seconds: u64 },
    WritingInputs { language: Language, timeout_seconds: u64 },
    Running { language: Language },
    Cleaning { outcome: ExecutionOutcomeView },
    Finished { outcome: ExecutionOutcomeView },
}

impl DeepView for ExecutorPhase {
    type V = ExecutorPhaseView;

    open spec fn deep_view(&self) -> ExecutorPhaseView {
        match self {
            ExecutorPhase::Ready => ExecutorPhaseView::Ready,
            ExecutorPhase::CreatingWorkDir { source, inputs, timeout_seconds } => {
                ExecutorPhaseView::CreatingWorkDir {
                    source: source@,
                    inputs: inputs@,
                    timeout_seconds: *timeout_seconds,
                }
            },
            ExecutorPhase::Fetching { language, inputs, timeout_seconds } => {
                ExecutorPhaseView::Fetching {
                    language: *language,
                    inputs: inputs@,
                    timeout_seconds: *timeout_seconds,
                }
            },
            ExecutorPhase::Cloning { path, inputs, timeout_seconds } => {
                ExecutorPhaseView::Cloning {
                    path: path@,
                    inputs: inputs@,
                    timeout_seconds: *timeout_seconds,
                }
            },
            ExecutorPhase::Reading { language, inputs, timeout_seconds } => {
                ExecutorPhaseView::Reading {
                    language: *language,
                    inputs: inputs@,
                    timeout_seconds: *timeout_seconds,
                }
            },
            ExecutorPhase::WritingScript { language, inputs, timeout_seconds } => {
                ExecutorPhaseView::WritingScript {
                    language: *language,
                    inputs: inputs@,
                    timeout_seconds: *timeout_seconds,
                }
            },
            ExecutorPhase::WritingInputs { language, timeout_seconds } => {
                ExecutorPhaseView::WritingInputs {
                    language: *language,
                    timeout_seconds: *timeout_seconds,
                }
            },
            ExecutorPhase::Running { language } => ExecutorPhaseView::Running {
                language: *language,
            },
            ExecutorPhase::Cleaning { outcome } => ExecutorPhaseView::Cleaning {
                outcome: outcome@,
            },
            ExecutorPhase::Finished { outcome } => ExecutorPhaseView::Finished {
                outcome: outcome@,
            },
        }
    }
}

impl View for ExecutorPhase {
    type V = ExecutorPhaseView;

    open spec fn view(&self) -> ExecutorPhaseView {
        self.deep_view()
    }
}

/// The execution has failed with `message`; the working directory goes.
pub open spec fn give_up(message: Seq<char>) -> (ExecutorPhaseView, ExecutorActionView) {
    conclude(ExecutionOutcomeView::Failed { message })
}

/// The outcome is known; the working directory goes.
pub open spec fn conclude(outcome: ExecutionOutcomeView) -> (ExecutorPhaseView, ExecutorActionView) {
    (ExecutorPhaseView::Cleaning { outcome }, ExecutorActionView::RemoveWorkDir)
}

/// The script of a task is at hand: it is written to its file next.
pub open spec fn write_script(
    language: Language,
    code: Seq<char>,
    inputs: Seq<char>,
    timeout_seconds: u64,
) -> (ExecutorPhaseView, ExecutorActionView) {
    (
        ExecutorPhaseView::WritingScript { language, inputs, timeout_seconds },
        ExecutorActionView::WriteFile { name: language.script_file(), content: code },
    )
}

/// What an event means that the phase at hand does not expect.
pub open spec fn out_of_order() -> Seq<char> {
    "Executor was driven out of order"@
}

/// The first step inside the working directory, by the kind of the source:
/// inline code of a known language is written out as it is; a URL and a gist
/// are fetched, a repository is cloned; WebAssembly modules and container
/// images are refused.
pub open spec fn resolve(source: TaskSourceView, inputs: Seq<char>, timeout_seconds: u64) -> (
    ExecutorPhaseView,
    ExecutorActionView,
) {
    match source {
        TaskSourceView::Inline { code, language } => match Language::of_tag(language) {
            Some(known) => write_script(known, code, inputs, timeout_seconds),
            None => give_up("Unsupported language: "@ + language),
        },
        TaskSourceView::Url { url } => (
            ExecutorPhaseView::Fetching {
                language: Language::of_file_name(url),
                inputs,
                timeout_seconds,
            },
            ExecutorActionView::Fetch { url },
        ),
        TaskSourceView::Gist { id, filename } => (
            ExecutorPhaseView::Fetching {
                language: Language::of_file_name(gist_url(id, filename)),
                inputs,
                timeout_seconds,
            },
            ExecutorActionView::Fetch { url: gist_url(id, filename) },
        ),
        TaskSourceView::Git { repo, path, branch } => (
            ExecutorPhaseView::Cloning { path, inputs, timeout_seconds },
            ExecutorActionView::GitClone { repo, branch, directory: REPOSITORY_DIR@ },
        ),
        TaskSourceView::Wasm { .. } => give_up("WASM execution not yet implemented"@),
        TaskSourceView::Docker { .. } => give_up("Docker execution not yet implemented"@),
    }
}

impl ExecutorPhaseView {
    /// An execution is under way: it has begun and is not over.
    pub open spec fn in_flight(self) -> bool {
        !(self is Ready) && !(self is Finished)
    }

    /// The phase after an execution of `definition` on `inputs` is asked for,
    /// and the first action. An executor that is in the middle of an
    /// execution stays with it.
    pub open spec fn begin(self, definition: TaskDefinitionView, inputs: Seq<char>, timeout_seconds: u64)
        -> (ExecutorPhaseView, ExecutorActionView) {
        if self.in_flight() {
            (self, ExecutorActionView::Nothing)
        } else {
            (
                ExecutorPhaseView::CreatingWorkDir {
                    source: definition.source,
                    inputs,
                    timeout_seconds,
                },
                ExecutorActionView::CreateWorkDir,
            )
        }
    }

    /// The phase after an execution of `job` is asked for, and the first
    /// action. A job without a task definition fails on the spot.
    pub open spec fn begin_job(self, job: JobView) -> (ExecutorPhaseView, ExecutorActionView) {
        if self.in_flight() {
            (self, ExecutorActionView::Nothing)
        } else {
            match job.task_definition {
                Some(definition) => self.begin(definition, job.inputs, effective_timeout(job)),
                None => (
                    ExecutorPhaseView::Finished {
                        outcome: ExecutionOutcomeView::Failed {
                            message: "No task definition found"@,
                        },
                    },
                    ExecutorActionView::Nothing,
                ),
            }
        }
    }

    /// The phase after the driver reports `event`, and the next action.
    pub open spec fn step(self, event: ExecutorEventView) -> (ExecutorPhaseView, ExecutorActionView) {
        match self {
            ExecutorPhaseView::Ready => (self, ExecutorActionView::Nothing),
            ExecutorPhaseView::CreatingWorkDir { source, inputs, timeout_seconds } => match event {
                ExecutorEventView::Done => resolve(source, inputs, timeout_seconds),
                ExecutorEventView::Failed { .. } => (
                    ExecutorPhaseView::Finished {
                        outcome: ExecutionOutcomeView::Failed {
                            message: "Failed to create temporary directory"@,
                        },
                    },
                    ExecutorActionView::Nothing,
                ),
                _ => give_up(out_of_order()),
            },
            ExecutorPhaseView::Fetching { language, inputs, timeout_seconds } => match event {
                ExecutorEventView::Text { content } => write_script(
                    language,
                    content,
                    inputs,
                    timeout_seconds,
                ),
                ExecutorEventView::Failed { message } => give_up(message),
                _ => give_up(out_of_order()),
            },
            ExecutorPhaseView::Cloning { path, inputs, timeout_seconds } => match event {
                ExecutorEventView::Exited { success, stdout, stderr } => if success {
                    (
                        ExecutorPhaseView::Reading {
                            language: Language::of_file_name(path),
                            inputs,
                            timeout_seconds,
                        },
                        ExecutorActionView::ReadFile { path: repository_file(path) },
                    )
                } else {
                    give_up("Git clone failed: "@ + stderr)
                },
                ExecutorEventView::Failed { message } => give_up(message),
                _ => give_up(out_of_order()),
            },
            ExecutorPhaseView::Reading { language, inputs, timeout_seconds } => match event {
                ExecutorEventView::Text { content } => write_script(
                    language,
                    content,
                    inputs,
                    timeout_seconds,
                ),
                ExecutorEventView::Failed { message } => give_up(message),
                _ => give_up(out_of_order()),
            },
            ExecutorPhaseView::WritingScript { language, inputs, timeout_seconds } => match event {
                ExecutorEventView::Done => (
                    ExecutorPhaseView::WritingInputs { language, timeout_seconds },
                    ExecutorActionView::WriteFile { name: INPUTS_FILE@, content: inputs },
                ),
                ExecutorEventView::Failed { message } => give_up(message),
                _ => give_up(out_of_order()),
            },
            ExecutorPhaseView::WritingInputs { language, timeout_seconds } => match event {
                ExecutorEventView::Done => (
                    ExecutorPhaseView::Running { language },
                    ExecutorActionView::Run {
                        program: language.interpreter(),
                        arguments: seq![language.script_file(), INPUTS_FILE@],
                        timeout_seconds,
                    },
                ),
                ExecutorEventView::Failed { message } => give_up(message),
                _ => give_up(out_of_order()),
            },
            ExecutorPhaseView::Running { language } => match event {
                ExecutorEventView::Exited { success, stdout, stderr } => conclude(
                    exit_outcome(language, success, stdout, stderr),
                ),
                ExecutorEventView::TimedOut => conclude(ExecutionOutcomeView::TimedOut),
                ExecutorEventView::Failed { message } => give_up(message),
                _ => give_up(out_of_order()),
            },
            ExecutorPhaseView::Cleaning { outcome } => (
                ExecutorPhaseView::Finished { outcome },
                ExecutorActionView::Nothing,
            ),
            ExecutorPhaseView::Finished { .. } => (self, ExecutorActionView::Nothing),
        }
    }
}

/// The time that the execution of `job` is allowed, in seconds.
pub fn job_timeout(job: &Job) -> (seconds: u64)
    ensures
        seconds == effective_timeout(job@),
{
    let declared = match &job.task_definition {
        Some(definition) => match &definition.requirements {
            Some(requirements) => requirements.timeout_seconds,
            None => None,
        },
        None => None,
    };
    match (job.timeout_seconds, declared) {
        (Some(a), Some(b)) => if a <= b {
            a
        } else {
            b
        },
        (Some(a), None) => a,
        (None, Some(b)) => b,
        (None, None) => DEFAULT_TIMEOUT_SECONDS,
    }
}

/// Judges a run by the outputs that were read from what it printed.
pub fn outcome_of_output(language: Language, outputs: Option<Vec<OutputValue>>, stderr: &str) -> (outcome:
    ExecutionOutcome)
    ensures
        outcome@ == output_outcome(language, outputs.deep_view(), stderr@),
{
    match outputs {
        Some(outputs) => ExecutionOutcome::Completed { outputs },
        None => {
            let mut message = language.display_name();
            message.append(" produced malformed output: ");
            message.append(stderr);
            ExecutionOutcome::Failed { message }
        },
    }
}

/// Reads the outputs that a script printed.
pub fn read_outputs(stdout: Vec<u8>) -> (outputs: Option<Vec<OutputValue>>)
    ensures
        outputs.deep_view() == printed_outputs(stdout@),
{
    match text_of_bytes(stdout) {
        Some(text) => parse_json_object(text.as_str()),
        None => None,
    }
}

/// Judges a run that has ended.
pub fn outcome_of_exit(language: Language, success: bool, stdout: Vec<u8>, stderr: String) -> (outcome:
    ExecutionOutcome)
    ensures
        outcome@ == exit_outcome(language, success, stdout@, stderr@),
{
    if success {
        outcome_of_output(language, read_outputs(stdout), stderr.as_str())
    } else {
        let mut message = language.display_name();
        message.append(" execution failed: ");
        message.append(stderr.as_str());
        ExecutionOutcome::Failed { message }
    }
}

/// The executor of one task at a time.
pub struct DynamicTaskExecutor {
    phase: ExecutorPhase,
}

impl View for DynamicTaskExecutor {
    type V = ExecutorPhaseView;

    closed spec fn view(&self) -> ExecutorPhaseView {
        self.phase@
    }
}

fn failing(message: String) -> (next: (DynamicTaskExecutor, ExecutorAction))
    ensures
        (next.0@, next.1@) == give_up(message@),
{
    concluding(ExecutionOutcome::Failed { message })
}

fn concluding(outcome: ExecutionOutcome) -> (next: (DynamicTaskExecutor, ExecutorAction))
    ensures
        (next.0@, next.1@) == conclude(outcome@),
{
    (
        DynamicTaskExecutor { phase: ExecutorPhase::Cleaning { outcome } },
        ExecutorAction::RemoveWorkDir,
    )
}

fn misled() -> (next: (DynamicTaskExecutor, ExecutorAction))
    ensures
        (next.0@, next.1@) == give_up(out_of_order()),
{
    failing(String::from_str("Executor was driven out of order"))
}

fn writing_script(language: Language, code: String, inputs: String, timeout_seconds: u64) -> (next: (
    DynamicTaskExecutor,
    ExecutorAction,
))
    ensures
        (next.0@, next.1@) == write_script(language, code@, inputs@, timeout_seconds),
{
    (
        DynamicTaskExecutor {
            phase: ExecutorPhase::WritingScript { language, inputs, timeout_seconds },
        },
        ExecutorAction::WriteFile { name: language.script_name(), content: code },
    )
}

fn resolving(source: TaskSource, inputs: String, timeout_seconds: u64) -> (next: (
    DynamicTaskExecutor,
    ExecutorAction,
))
    ensures
        (next.0@, next.1@) == resolve(source@, inputs@, timeout_seconds),
{
    match source {
        TaskSource::Inline { code, language } => match Language::from_tag(&language) {
            Some(known) => writing_script(known, code, inputs, timeout_seconds),
            None => failing(join2("Unsupported language: ", language.as_str())),
        },
        TaskSource::Url { url } => {
            let language = Language::from_file_name(url.as_str());
            (
                DynamicTaskExecutor {
                    phase: ExecutorPhase::Fetching { language, inputs, timeout_seconds },
                },
                ExecutorAction::Fetch { url },
            )
        },
        TaskSource::Gist { id, filename } => {
            let mut url = String::from_str("https://gist.githubusercontent.com/");
            url.append(id.as_str());
            url.append("/raw/");
            url.append(filename.as_str());
            let language = Language::from_file_name(url.as_str());
            (
                DynamicTaskExecutor {
                    phase: ExecutorPhase::Fetching { language, inputs, timeout_seconds },
                },
                ExecutorAction::Fetch { url },
            )
        },
        TaskSource::Git { repo, path, branch } => (
            DynamicTaskExecutor { phase: ExecutorPhase::Cloning { path, inputs, timeout_seconds } },
            ExecutorAction::GitClone { repo, branch, directory: String::from_str(REPOSITORY_DIR) },
        ),
        TaskSource::Wasm { .. } => failing(String::from_str("WASM execution not yet implemented")),
        TaskSource::Docker { .. } => failing(
            String::from_str("Docker execution not yet implemented"),
        ),
    }
}

impl DynamicTaskExecutor {
    /// An executor that has nothing to do yet.
    pub fn new() -> (executor: DynamicTaskExecutor)
        ensures
            executor@ == ExecutorPhaseView::Ready,
    {
        DynamicTaskExecutor { phase: ExecutorPhase::Ready }
    }

    /// Whether an execution has begun and is not over.
    pub fn is_in_flight(&self) -> (busy: bool)
        ensures
            busy == self@.in_flight(),
    {
        match &self.phase {
            ExecutorPhase::Ready => false,
            ExecutorPhase::Finished { .. } => false,
            _ => true,
        }
    }

    /// Whether the execution is over and its outcome can be had.
    pub fn is_finished(&self) -> (finished: bool)
        ensures
            finished == (self@ is Finished),
    {
        match &self.phase {
            ExecutorPhase::Finished { .. } => true,
            _ => false,
        }
    }

    /// The outcome of the execution, once it is over.
    pub fn outcome(&self) -> (outcome: Option<ExecutionOutcome>)
        ensures
            match self@ {
                ExecutorPhaseView::Finished { outcome: reached } => outcome.deep_view() == Some(
                    reached,
                ),
                _ => outcome is None,
            },
    {
        match &self.phase {
            ExecutorPhase::Finished { outcome } => Some(outcome.clone()),
            _ => None,
        }
    }

    /// Begins the execution of `task_definition` on `inputs`, to be stopped
    /// after `timeout_seconds`, and says what to do first.
    pub fn execute_task(
        self,
        task_definition: &TaskDefinition,
        inputs: String,
        timeout_seconds: u64,
    ) -> (next: (DynamicTaskExecutor, ExecutorAction))
        ensures
            (next.0@, next.1@) == self@.begin(task_definition@, inputs@, timeout_seconds),
    {
        if self.is_in_flight() {
            (self, ExecutorAction::Nothing)
        } else {
            (
                DynamicTaskExecutor {
                    phase: ExecutorPhase::CreatingWorkDir {
                        source: task_definition.source.clone(),
                        inputs,
                        timeout_seconds,
                    },
                },
                ExecutorAction::CreateWorkDir,
            )
        }
    }

    /// Begins the execution of `job` and says what to do first.
    pub fn execute_job(self, job: &Job) -> (next: (DynamicTaskExecutor, ExecutorAction))
        ensures
            (next.0@, next.1@) == self@.begin_job(job@),
    {
        if self.is_in_flight() {
            (self, ExecutorAction::Nothing)
        } else {
            match &job.task_definition {
                Some(definition) => self.execute_task(
                    definition,
                    job.inputs.clone(),
                    job_timeout(job),
                ),
                None => (
                    DynamicTaskExecutor {
                        phase: ExecutorPhase::Finished {
                            outcome: ExecutionOutcome::Failed {
                                message: String::from_str("No task definition found"),
                            },
                        },
                    },
                    ExecutorAction::Nothing,
                ),
            }
        }
    }

    /// Takes in what the driver reports of the last action and says what to
    /// do next.
    pub fn advance(self, event: ExecutorEvent) -> (next: (DynamicTaskExecutor, ExecutorAction))
        ensures
            (next.0@, next.1@) == self@.step(event@),
    {
        let DynamicTaskExecutor { phase } = self;
        match phase {
            ExecutorPhase::Ready => (
                DynamicTaskExecutor { phase: ExecutorPhase::Ready },
                ExecutorAction::Nothing,
            ),
            ExecutorPhase::CreatingWorkDir { source, inputs, timeout_seconds } => match event {
                ExecutorEvent::Done => resolving(source, inputs, timeout_seconds),
                ExecutorEvent::Failed { .. } => (
                    DynamicTaskExecutor {
                        phase: ExecutorPhase::Finished {
                            outcome: ExecutionOutcome::Failed {
                                message: String::from_str("Failed to create temporary directory"),
                            },
                        },
                    },
                    ExecutorAction::Nothing,
                ),
                _ => misled(),
            },
            ExecutorPhase::Fetching { language, inputs, timeout_seconds } => match event {
                ExecutorEvent::Text { content } => writing_script(
                    language,
                    content,
                    inputs,
                    timeout_seconds,
                ),
                ExecutorEvent::Failed { message } => failing(message),
                _ => misled(),
            },
            ExecutorPhase::Cloning { path, inputs, timeout_seconds } => match event {
                ExecutorEvent::Exited { success, stdout, stderr } => {
                    if success {
                        let language = Language::from_file_name(path.as_str());
                        let mut file = String::from_str(REPOSITORY_DIR);
                        file.append("/");
                        file.append(path.as_str());
                        (
                            DynamicTaskExecutor {
                                phase: ExecutorPhase::Reading { language, inputs, timeout_seconds },
                            },
                            ExecutorAction::ReadFile { path: file },
                        )
                    } else {
                        failing(join2("Git clone failed: ", stderr.as_str()))
                    }
                },
                ExecutorEvent::Failed { message } => failing(message),
                _ => misled(),
            },
            ExecutorPhase::Reading { language, inputs, timeout_seconds } => match event {
                ExecutorEvent::Text { content } => writing_script(
                    language,
                    content,
                    inputs,
                    timeout_seconds,
                ),
                ExecutorEvent::Failed { message } => failing(message),
                _ => misled(),
            },
            ExecutorPhase::WritingScript { language, inputs, timeout_seconds } => match event {
                ExecutorEvent::Done => (
                    DynamicTaskExecutor {
                        phase: ExecutorPhase::WritingInputs { language, timeout_seconds },
                    },
                    ExecutorAction::WriteFile {
                        name: String::from_str(INPUTS_FILE),
                        content: inputs,
                    },
                ),
                ExecutorEvent::Failed { message } => failing(message),
                _ => misled(),
            },
            ExecutorPhase::WritingInputs { language, timeout_seconds } => match event {
                ExecutorEvent::Done => {
                    let mut arguments: Vec<String> = Vec::new();
                    arguments.push(language.script_name());
                    arguments.push(String::from_str(INPUTS_FILE));
                    assert(arguments.deep_view() =~= seq![language.script_file(), INPUTS_FILE@]);
                    (
                        DynamicTaskExecutor { phase: ExecutorPhase::Running { language } },
                        ExecutorAction::Run {
                            program: language.program(),
                            arguments,
                            timeout_seconds,
                        },
                    )
                },
                ExecutorEvent::Failed { message } => failing(message),
                _ => misled(),
            },
            ExecutorPhase::Running { language } => match event {
                ExecutorEvent::Exited { success, stdout, stderr } => concluding(
                    outcome_of_exit(language, success, stdout, stderr),
                ),
                ExecutorEvent::TimedOut => concluding(ExecutionOutcome::TimedOut),
                ExecutorEvent::Failed { message } => failing(message),
                _ => misled(),
            },
            ExecutorPhase::Cleaning { outcome } => (
                DynamicTaskExecutor { phase: ExecutorPhase::Finished { outcome } },
                ExecutorAction::Nothing,
            ),
            ExecutorPhase::Finished { outcome } => (
                DynamicTaskExecutor { phase: ExecutorPhase::Finished { outcome } },
                ExecutorAction::Nothing,
            ),
        }
    }
}

} // verus!
