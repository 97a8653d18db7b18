//! What a task is: the command that asks for it, the state it is in, and the
//! report of one execution.

use crate::metrics::{GeometricMetrics, MetricsView};
use crate::operator::GeometricOperator;
use vstd::prelude::*;

verus! {

/// A request to apply one geometric operator. A command does not change once
/// it is submitted.
#[derive(Debug, PartialEq)]
pub struct GeometricTaskCommand {
    pub task_name: String,
    pub geometric_operator: GeometricOperator,
    /// The module that the task is meant for; the library does not read it.
    pub target_module: String,
    /// Free-form parameters, handed to the engine as they are.
    pub parameters: serde_json::Value,
    /// The name of the metric that the task is expected to move.
    pub expected_output_metric: String,
    /// The identifier to file the task under; without one, a fresh random
    /// identifier is drawn.
    pub task_id: Option<u128>,
}

/// The state of a task. A task is pending from its submission on; an
/// execution takes it through `InProgress` to `Completed`, which keeps the
/// metrics that the execution produced. `Failed` keeps the message of a
/// failure; no operation of the manager puts a task there.
#[derive(Clone, Debug, PartialEq)]
pub enum TaskStatus {
    Pending,
    InProgress,
    Completed(GeometricMetrics),
    Failed(String),
}

/// What a status holds.
pub enum StatusView {
    Pending,
    InProgress,
    Completed(MetricsView),
    Failed(Seq<char>),
}

impl View for TaskStatus {
    type V = StatusView;

    open spec fn view(&self) -> StatusView {
        match self {
            TaskStatus::Pending => StatusView::Pending,
            TaskStatus::InProgress => StatusView::InProgress,
            TaskStatus::Completed(metrics) => StatusView::Completed(metrics@),
            TaskStatus::Failed(message) => StatusView::Failed(message@),
        }
    }
}

impl TaskStatus {
    /// A copy that holds what this status holds.
    pub fn duplicate(&self) -> (copy: TaskStatus)
        ensures
            copy@ == self@,
    {
        match self {
            TaskStatus::Pending => TaskStatus::Pending,
            TaskStatus::InProgress => TaskStatus::InProgress,
            TaskStatus::Completed(metrics) => TaskStatus::Completed(metrics.duplicate()),
            TaskStatus::Failed(message) => TaskStatus::Failed(message.clone()),
        }
    }
}

/// One entry of the task table: a command and the state of its task.
#[derive(Debug, PartialEq)]
pub struct TaskInfo {
    pub command: GeometricTaskCommand,
    pub status: TaskStatus,
}

/// What an entry of the task table holds.
pub struct TaskView {
    pub command: GeometricTaskCommand,
    pub status: StatusView,
}

impl View for TaskInfo {
    type V = TaskView;

    open spec fn view(&self) -> TaskView {
        TaskView { command: self.command, status: self.status@ }
    }
}

/// The report of one execution. It is made once and not changed after.
#[derive(Debug, PartialEq)]
pub struct TaskExecutionResult {
    pub task_id: u128,
    pub success: bool,
    /// The metrics that the execution produced.
    pub metrics: GeometricMetrics,
    /// A payload for the caller; the library does not read it.
    pub output: serde_json::Value,
    pub error: Option<String>,
}

} // verus!
