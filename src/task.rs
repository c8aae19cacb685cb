//! Task and result records, the status labels, and the run configuration.
use vstd::prelude::*;
use vstd::string::StringExecFns;

verus! {

/// The only task kind that is executed; any other kind is skipped.
pub open spec fn supported_kind() -> Seq<char> {
    "process_data"@
}

/// The closed set of outcomes of one task.
#[derive(PartialEq, Eq, Structural, Clone, Copy, Debug)]
pub enum TaskStatus {
    /// The fetch succeeded and the delay elapsed.
    Completed,
    /// The fetch failed.
    Failed,
    /// The task kind is not supported; nothing was fetched.
    Skipped,
}

/// The label written in the result table for a status.
pub open spec fn status_label(s: TaskStatus) -> Seq<char> {
    match s {
        TaskStatus::Completed => "Completed"@,
        TaskStatus::Failed => "Failed"@,
        TaskStatus::Skipped => "Skipped"@,
    }
}

impl TaskStatus {
    /// The label of this status, as written in the result table.
    pub fn label(&self) -> (r: String)
        ensures
            r@ == status_label(*self),
    {
        match self {
            TaskStatus::Completed => String::from_str("Completed"),
            TaskStatus::Failed => String::from_str("Failed"),
            TaskStatus::Skipped => String::from_str("Skipped"),
        }
    }
}

/// One input row: an identifier and a kind tag.
#[derive(Clone, Debug)]
pub struct TaskInput {
    pub task_id: u64,
    pub task_type: String,
}

impl View for TaskInput {
    type V = (u64, Seq<char>);

    open spec fn view(&self) -> (u64, Seq<char>) {
        (self.task_id, self.task_type@)
    }
}

impl TaskInput {
    pub fn new(task_id: u64, task_type: String) -> (r: TaskInput)
        ensures
            r.task_id == task_id,
            r.task_type == task_type,
    {
        TaskInput { task_id, task_type }
    }

    /// True when the kind tag is `process_data`.
    pub fn is_supported(&self) -> (r: bool)
        ensures
            r == (self.task_type@ == supported_kind()),
    {
        let kind = String::from_str("process_data");
        self.task_type == kind
    }
}

/// One output row: the task's identifier, its status and a detail text
/// that is empty on success.
#[derive(Clone, Debug)]
pub struct TaskOutput {
    pub task_id: u64,
    pub final_status: TaskStatus,
    pub error_info: String,
}

impl View for TaskOutput {
    type V = (u64, TaskStatus, Seq<char>);

    open spec fn view(&self) -> (u64, TaskStatus, Seq<char>) {
        (self.task_id, self.final_status, self.error_info@)
    }
}

impl TaskOutput {
    /// A copy of this record with the same fields.
    pub fn duplicate(&self) -> (r: TaskOutput)
        ensures
            r == *self,
    {
        TaskOutput {
            task_id: self.task_id,
            final_status: self.final_status,
            error_info: self.error_info.clone(),
        }
    }
}

/// Where each fetch goes and how long a fetched task waits before it
/// completes.
#[derive(Clone, Debug)]
pub struct Config {
    pub endpoint: String,
    pub delay_ms: u64,
}

/// The endpoint that the standard configuration fetches.
pub const DEFAULT_ENDPOINT: &'static str = "https://httpbin.org/get";

/// The pause, in milliseconds, after a successful fetch in the standard
/// configuration.
pub const DEFAULT_DELAY_MS: u64 = 3000;

impl Config {
    pub fn new(endpoint: String, delay_ms: u64) -> (r: Config)
        ensures
            r.endpoint == endpoint,
            r.delay_ms == delay_ms,
    {
        Config { endpoint, delay_ms }
    }

    /// The standard configuration: the fixed endpoint and a three-second
    /// delay.
    pub fn standard() -> (r: Config)
        ensures
            r.endpoint@ == DEFAULT_ENDPOINT@,
            r.delay_ms == DEFAULT_DELAY_MS,
    {
        Config { endpoint: String::from_str(DEFAULT_ENDPOINT), delay_ms: DEFAULT_DELAY_MS }
    }
}

} // verus!
