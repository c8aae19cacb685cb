//! The per-task decision machine. The driver that owns the network and the
//! timer feeds it events and performs the actions it returns; every path
//! ends in exactly one result record.
use vstd::prelude::*;
use vstd::string::StringExecFns;

use crate::task::{supported_kind, Config, TaskInput, TaskOutput, TaskStatus};

verus! {

/// What the driver reports to the machine.
#[derive(Debug)]
pub enum TaskEvent {
    /// The task is about to run.
    Started,
    /// The fetch reached the endpoint; the response itself is ignored.
    FetchSucceeded,
    /// The fetch failed at the transport level, with the error's message.
    FetchFailed(String),
    /// The post-fetch delay has elapsed.
    DelayElapsed,
}

/// The model of an event.
pub enum EventModel {
    Started,
    FetchSucceeded,
    FetchFailed(Seq<char>),
    DelayElapsed,
}

impl View for TaskEvent {
    type V = EventModel;

    open spec fn view(&self) -> EventModel {
        match self {
            TaskEvent::Started => EventModel::Started,
            TaskEvent::FetchSucceeded => EventModel::FetchSucceeded,
            TaskEvent::FetchFailed(m) => EventModel::FetchFailed(m@),
            TaskEvent::DelayElapsed => EventModel::DelayElapsed,
        }
    }
}

/// What the machine asks the driver to do next.
#[derive(Debug)]
pub enum TaskAction {
    /// Issue one GET to this endpoint and report how it went.
    Fetch(String),
    /// Wait this many milliseconds, then report `DelayElapsed`.
    Sleep(u64),
    /// The task is over; this is its result.
    Finish(TaskOutput),
}

/// The model of an action.
pub enum ActionModel {
    Fetch(Seq<char>),
    Sleep(u64),
    Finish((u64, TaskStatus, Seq<char>)),
}

impl View for TaskAction {
    type V = ActionModel;

    open spec fn view(&self) -> ActionModel {
        match self {
            TaskAction::Fetch(url) => ActionModel::Fetch(url@),
            TaskAction::Sleep(ms) => ActionModel::Sleep(*ms),
            TaskAction::Finish(o) => ActionModel::Finish(o@),
        }
    }
}

/// The detail of a task whose kind is not supported.
pub open spec fn unsupported_detail(kind: Seq<char>) -> Seq<char> {
    "Unsupported task_type: "@ + kind
}

/// The detail of a task whose fetch failed with `msg`.
pub open spec fn fetch_failed_detail(msg: Seq<char>) -> Seq<char> {
    "fetch_data failed: "@ + msg
}

/// The next action of a task `(id, kind)` on an event, under a
/// configuration with endpoint `endpoint` and delay `delay_ms`.
pub open spec fn next_action(
    task: (u64, Seq<char>),
    endpoint: Seq<char>,
    delay_ms: u64,
    event: EventModel,
) -> ActionModel {
    if task.1 != supported_kind() {
        ActionModel::Finish((task.0, TaskStatus::Skipped, unsupported_detail(task.1)))
    } else {
        match event {
            EventModel::Started => ActionModel::Fetch(endpoint),
            EventModel::FetchSucceeded => ActionModel::Sleep(delay_ms),
            EventModel::FetchFailed(msg) => ActionModel::Finish(
                (task.0, TaskStatus::Failed, fetch_failed_detail(msg)),
            ),
            EventModel::DelayElapsed => ActionModel::Finish((task.0, TaskStatus::Completed, seq![])),
        }
    }
}

/// The result of a task run to its end, when every fetch it makes yields
/// `fetch`.
pub open spec fn task_outcome(task: (u64, Seq<char>), fetch: Result<(), Seq<char>>) -> (
    u64,
    TaskStatus,
    Seq<char>,
) {
    if task.1 != supported_kind() {
        (task.0, TaskStatus::Skipped, unsupported_detail(task.1))
    } else {
        match fetch {
            Ok(_) => (task.0, TaskStatus::Completed, seq![]),
            Err(msg) => (task.0, TaskStatus::Failed, fetch_failed_detail(msg)),
        }
    }
}

/// The model of a fetch result handed in by a caller.
pub open spec fn fetch_model(fetch: &Result<(), String>) -> Result<(), Seq<char>> {
    match fetch {
        Ok(_) => Ok(()),
        Err(m) => Err(m@),
    }
}

fn skipped_output(task: &TaskInput) -> (r: TaskOutput)
    ensures
        r@ == (task.task_id, TaskStatus::Skipped, unsupported_detail(task.task_type@)),
{
    let mut detail = String::from_str("Unsupported task_type: ");
    detail.append(task.task_type.as_str());
    TaskOutput { task_id: task.task_id, final_status: TaskStatus::Skipped, error_info: detail }
}

fn failed_output(task: &TaskInput, msg: &String) -> (r: TaskOutput)
    ensures
        r@ == (task.task_id, TaskStatus::Failed, fetch_failed_detail(msg@)),
{
    let mut detail = String::from_str("fetch_data failed: ");
    detail.append(msg.as_str());
    TaskOutput { task_id: task.task_id, final_status: TaskStatus::Failed, error_info: detail }
}

fn completed_output(task: &TaskInput) -> (r: TaskOutput)
    ensures
        r@ == (task.task_id, TaskStatus::Completed, Seq::<char>::empty()),
{
    TaskOutput { task_id: task.task_id, final_status: TaskStatus::Completed, error_info: String::new() }
}

/// Decides what a task does next. An unsupported kind finishes as skipped
/// on any event, so it never fetches; a supported one fetches on start,
/// sleeps after a successful fetch, fails with the transport's message
/// after a failed one, and completes, with an empty detail, only once the
/// delay has elapsed. An unsupported kind is reported as skipped rather
/// than failed: nothing was attempted for it.
pub fn step(task: &TaskInput, config: &Config, event: &TaskEvent) -> (r: TaskAction)
    ensures
        r@ == next_action(task@, config.endpoint@, config.delay_ms, event@),
        task.task_type@ != supported_kind() ==> !(r is Fetch),
        r matches TaskAction::Finish(o) ==> o.task_id == task.task_id,
        r matches TaskAction::Finish(o) ==> (o.final_status == TaskStatus::Completed ==> (
        event is DelayElapsed && o.error_info@.len() == 0)),
        r is Sleep ==> event is FetchSucceeded,
        r is Fetch ==> event is Started,
{
    if !task.is_supported() {
        return TaskAction::Finish(skipped_output(task));
    }
    match event {
        TaskEvent::Started => TaskAction::Fetch(config.endpoint.clone()),
        TaskEvent::FetchSucceeded => TaskAction::Sleep(config.delay_ms),
        TaskEvent::FetchFailed(msg) => TaskAction::Finish(failed_output(task, msg)),
        TaskEvent::DelayElapsed => TaskAction::Finish(completed_output(task)),
    }
}

/// Runs one task to its end against a network whose every fetch yields
/// `fetch`, and a timer that elapses at once: the events that the machine
/// is fed are those that such a driver would report.
pub fn run_task(task: &TaskInput, config: &Config, fetch: &Result<(), String>) -> (r: TaskOutput)
    ensures
        r@ == task_outcome(task@, fetch_model(fetch)),
{
    let first = step(task, config, &TaskEvent::Started);
    if let TaskAction::Finish(o) = first {
        return o;
    }
    let reported = match fetch {
        Ok(_) => TaskEvent::FetchSucceeded,
        Err(m) => TaskEvent::FetchFailed(m.clone()),
    };
    let second = step(task, config, &reported);
    if let TaskAction::Finish(o) = second {
        return o;
    }
    let third = step(task, config, &TaskEvent::DelayElapsed);
    match third {
        TaskAction::Finish(o) => o,
        _ => completed_output(task),
    }
}

} // verus!
