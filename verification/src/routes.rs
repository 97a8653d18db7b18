//! What the transport layer asks of the manager, as plain functions: the
//! shape of each request and answer, and which failure is reported how.

use crate::error::Error;
use crate::ids::{parse_task_id, parsed_task_id};
use crate::metrics::GeometricMetrics;
use crate::operator::GeometricOperator;
use crate::processor::{is_completed_payload, is_listing_of, SemanticTaskProcessor};
use crate::task::{GeometricTaskCommand, StatusView, TaskExecutionResult, TaskStatus};
use vstd::prelude::*;

verus! {

/// A failure as the transport layer reports it.
#[derive(Clone, Debug, PartialEq, Eq)]
pub enum ApiError {
    /// The request is at fault.
    BadRequest(String),
    /// What was asked for does not exist.
    NotFound(String),
    /// The service is at fault.
    Internal(String),
}

/// What a reported failure holds.
pub enum ApiErrorView {
    BadRequest(Seq<char>),
    NotFound(Seq<char>),
    Internal(Seq<char>),
}

impl View for ApiError {
    type V = ApiErrorView;

    open spec fn view(&self) -> ApiErrorView {
        match self {
            ApiError::BadRequest(detail) => ApiErrorView::BadRequest(detail@),
            ApiError::NotFound(detail) => ApiErrorView::NotFound(detail@),
            ApiError::Internal(detail) => ApiErrorView::Internal(detail@),
        }
    }
}

/// A request to file a task and, unless it says otherwise, to execute it at
/// once.
#[derive(Debug, PartialEq)]
pub struct CreateTaskRequest {
    pub task: GeometricTaskCommand,
    pub execute: bool,
}

/// Whether a request that does not say so asks for execution: it does.
pub fn default_execute() -> (execute: bool)
    ensures
        execute,
{
    true
}

/// The answer to a request to file a task.
#[derive(Debug, PartialEq)]
pub struct CreateTaskResponse {
    pub task_id: u128,
    pub status: TaskStatus,
    pub execution_result: Option<TaskExecutionResult>,
}

/// One line of a listing: a task and its state.
#[derive(Clone, Debug, PartialEq)]
pub struct TaskListItem {
    pub task_id: u128,
    pub status: TaskStatus,
}

/// The current metrics together with the names of the rules that derive them.
#[derive(Clone, Debug, PartialEq)]
pub struct MetricsResponse {
    pub metrics: GeometricMetrics,
    pub rule_names: Vec<String>,
    pub rule_count: usize,
}

/// The answer to a health check.
#[derive(Clone, Debug, PartialEq)]
pub struct HealthResponse {
    pub status: &'static str,
    pub timestamp: String,
}

/// Files the request's task and, if the request asks for it, executes it with
/// `engine`. A task that was only filed is reported as pending; one that was
/// executed, as completed with the metrics of the execution, together with
/// the execution's report. A refused submission is a bad request, worded as
/// the refusal is; nothing changes then, and the engine is not asked.
pub fn create_task<F>(
    processor: &mut SemanticTaskProcessor,
    payload: CreateTaskRequest,
    engine: F,
) -> (answer: Result<CreateTaskResponse, ApiError>)
    where F: FnOnce(GeometricOperator, &serde_json::Value, &GeometricMetrics) -> GeometricMetrics
    requires
        payload.execute ==> engine.requires(
            (
                payload.task.geometric_operator,
                &payload.task.parameters,
                &old(processor).snapshot(),
            ),
        ),
    ensures
        payload.task.task_id matches Some(named) ==> {
            answer is Ok <==> !old(processor)@.tasks.contains_key(named)
        },
        match answer {
            Ok(response) => {
                &&& !old(processor)@.tasks.contains_key(response.task_id)
                &&& payload.task.task_id matches Some(named) ==> response.task_id == named
                &&& if payload.execute {
                    &&& response.execution_result matches Some(report)
                    &&& engine.ensures(
                        (
                            payload.task.geometric_operator,
                            &payload.task.parameters,
                            &old(processor).snapshot(),
                        ),
                        report.metrics,
                    )
                    &&& report.task_id == response.task_id
                    &&& report.success
                    &&& report.error is None
                    &&& is_completed_payload(report.output)
                    &&& response.status@ == StatusView::Completed(report.metrics@)
                    &&& final(processor)@ == old(processor)@.submitted(
                        response.task_id,
                        payload.task,
                    ).completed(response.task_id, report.metrics@)
                } else {
                    &&& response.execution_result is None
                    &&& response.status@ == StatusView::Pending
                    &&& final(processor)@ == old(processor)@.submitted(
                        response.task_id,
                        payload.task,
                    )
                }
            },
            Err(error) => (exists|id: u128|
                {
                    &&& old(processor)@.tasks.contains_key(id)
                    &&& payload.task.task_id matches Some(named) ==> id == named
                    &&& error@ == ApiErrorView::BadRequest(Error::DuplicateTaskId(id).message_of())
                    &&& final(processor)@ == old(processor)@
                    &&& final(processor).snapshot() == old(processor).snapshot()
                }),
        },
{
    let execute = payload.execute;
    let task_id = match processor.submit_task(payload.task) {
        Ok(task_id) => task_id,
        Err(error) => {
            return Err(ApiError::BadRequest(error.message()));
        },
    };
    if execute {
        match processor.execute_task(task_id, engine) {
            Ok(report) => Ok(
                CreateTaskResponse {
                    task_id,
                    status: TaskStatus::Completed(report.metrics.duplicate()),
                    execution_result: Some(report),
                },
            ),
            Err(error) => Err(ApiError::Internal(error.message())),
        }
    } else {
        Ok(CreateTaskResponse { task_id, status: TaskStatus::Pending, execution_result: None })
    }
}

/// Whether `items` shows the table of `processor`, line by line as a listing
/// does.
pub open spec fn items_list(items: Seq<TaskListItem>, processor: SemanticTaskProcessor) -> bool {
    is_listing_of(
        Seq::new(items.len(), |i: int| (items[i].task_id, items[i].status)),
        processor@.tasks,
    )
}

/// Every task with its state, one line each.
pub fn list_tasks(processor: &SemanticTaskProcessor) -> (items: Vec<TaskListItem>)
    ensures
        items_list(items@, *processor),
{
    let listing = processor.list_tasks();
    let mut items: Vec<TaskListItem> = Vec::new();
    let mut i: usize = 0;
    while i < listing.len()
        invariant
            i <= listing.len(),
            items@.len() == i,
            forall|j: int|
                0 <= j < i ==> {
                    &&& items@[j].task_id == listing@[j].0
                    &&& items@[j].status@ == listing@[j].1@
                },
        decreases listing.len() - i,
    {
        let (task_id, status) = &listing[i];
        items.push(TaskListItem { task_id: *task_id, status: status.duplicate() });
        i += 1;
    }
    proof {
        let shown = Seq::new(items@.len(), |i: int| (items@[i].task_id, items@[i].status));
        assert forall|id: u128| processor@.tasks.contains_key(id) implies {
            exists|i: int| 0 <= i < shown.len() && (#[trigger] shown[i]).0 == id
        } by {
            let i = choose|i: int| 0 <= i < listing@.len() && (#[trigger] listing@[i]).0 == id;
            assert(shown[i].0 == id);
        }
        assert forall|i: int, j: int| 0 <= i < j < shown.len() implies {
            (#[trigger] shown[i]).0 != (#[trigger] shown[j]).0
        } by {
            assert(listing@[i].0 != listing@[j].0);
        }
        assert forall|i: int| 0 <= i < shown.len() implies {
            &&& processor@.tasks.contains_key(#[trigger] shown[i].0)
            &&& shown[i].1@ == processor@.tasks[shown[i].0].status
        } by {
            assert(processor@.tasks.contains_key(listing@[i].0));
        }
    }
    items
}

/// The line for the task that a parsed identifier names: without an
/// identifier the request is bad, and an identifier that names no task finds
/// nothing.
pub fn task_status_item(
    processor: &SemanticTaskProcessor,
    parsed: Option<u128>,
) -> (answer: Result<TaskListItem, ApiError>)
    ensures
        match answer {
            Ok(item) => {
                &&& parsed == Some(item.task_id)
                &&& processor@.tasks.contains_key(item.task_id)
                &&& item.status@ == processor@.tasks[item.task_id].status
            },
            Err(error) => match parsed {
                None => error@ == ApiErrorView::BadRequest("Invalid task ID"@),
                Some(id) => {
                    &&& !processor@.tasks.contains_key(id)
                    &&& error@ == ApiErrorView::NotFound("Task not found"@)
                },
            },
        },
{
    let id = match parsed {
        Some(id) => id,
        None => {
            return Err(ApiError::BadRequest("Invalid task ID".to_owned()));
        },
    };
    match processor.get_task_status(id) {
        Ok(status) => Ok(TaskListItem { task_id: id, status }),
        Err(_) => Err(ApiError::NotFound("Task not found".to_owned())),
    }
}

/// The line for the task that `task_id` names, once it is read as an
/// identifier.
pub fn get_task_status(
    processor: &SemanticTaskProcessor,
    task_id: &str,
) -> (answer: Result<TaskListItem, ApiError>)
    ensures
        match answer {
            Ok(item) => {
                &&& parsed_task_id(task_id@) == Some(item.task_id)
                &&& processor@.tasks.contains_key(item.task_id)
                &&& item.status@ == processor@.tasks[item.task_id].status
            },
            Err(error) => match parsed_task_id(task_id@) {
                None => error@ == ApiErrorView::BadRequest("Invalid task ID"@),
                Some(id) => {
                    &&& !processor@.tasks.contains_key(id)
                    &&& error@ == ApiErrorView::NotFound("Task not found"@)
                },
            },
        },
{
    task_status_item(processor, parse_task_id(task_id))
}

/// The current metrics with the names of the rules, and how many there are.
pub fn get_metrics(
    processor: &SemanticTaskProcessor,
    rule_names: Vec<String>,
) -> (response: MetricsResponse)
    ensures
        response.metrics@ == processor@.metrics,
        response.rule_names == rule_names,
        response.rule_count == rule_names@.len(),
{
    let rule_count = rule_names.len();
    MetricsResponse { metrics: processor.get_metrics(), rule_names, rule_count }
}

/// The current metrics alone.
pub fn get_vectorized_metrics(processor: &SemanticTaskProcessor) -> (metrics: GeometricMetrics)
    ensures
        metrics@ == processor@.metrics,
{
    processor.get_metrics()
}

/// The answer to a health check at the given time: all is well.
pub fn health_check(timestamp: String) -> (response: HealthResponse)
    ensures
        response.status@ == "ok"@,
        response.timestamp == timestamp,
{
    HealthResponse { status: "ok", timestamp }
}

} // verus!
