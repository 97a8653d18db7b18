//! The task manager: a table of tasks and the one current record of metrics.
//! It owns both; callers get copies.

use crate::error::Error;
use crate::ids::{fresh_task_id, is_random_form};
use crate::json::{no_members, other_members, text_members, text_object};
use crate::metrics::{GeometricMetrics, MetricsView};
use crate::operator::GeometricOperator;
use crate::task::{
    GeometricTaskCommand, StatusView, TaskExecutionResult, TaskInfo, TaskStatus, TaskView,
};
use std::collections::HashMap;
use vstd::prelude::*;
use vstd::std_specs::hash::spec_hash_map_iter;
use vstd::std_specs::iter::IteratorSpec;

verus! {

broadcast use vstd::std_specs::hash::group_hash_axioms;

/// What a manager holds: the task table and the current metrics.
pub struct ManagerView {
    pub tasks: Map<u128, TaskView>,
    pub metrics: MetricsView,
}

impl ManagerView {
    /// The manager with `command` filed under `id` as a pending task.
    pub open spec fn submitted(self, id: u128, command: GeometricTaskCommand) -> ManagerView {
        ManagerView {
            tasks: self.tasks.insert(id, TaskView { command, status: StatusView::Pending }),
            metrics: self.metrics,
        }
    }

    /// The manager after the task under `id` has produced `produced`: the task
    /// is completed and keeps the record, and the record is the current one.
    pub open spec fn completed(self, id: u128, produced: MetricsView) -> ManagerView {
        ManagerView {
            tasks: self.tasks.insert(
                id,
                TaskView {
                    command: self.tasks[id].command,
                    status: StatusView::Completed(produced),
                },
            ),
            metrics: produced,
        }
    }

    /// What submitting `command` under `id` comes to: the manager after it,
    /// and the answer. An identifier that is taken is refused, and nothing
    /// changes.
    pub open spec fn submit(self, id: u128, command: GeometricTaskCommand) -> (
        ManagerView,
        Result<u128, Error>,
    ) {
        if self.tasks.contains_key(id) {
            (self, Err(Error::DuplicateTaskId(id)))
        } else {
            (self.submitted(id, command), Ok(id))
        }
    }

    /// What asking for the status of `id` comes to.
    pub open spec fn status(self, id: u128) -> Result<StatusView, Error> {
        if self.tasks.contains_key(id) {
            Ok(self.tasks[id].status)
        } else {
            Err(Error::TaskNotFound(id))
        }
    }
}

/// The table without tasks.
pub open spec fn no_tasks() -> Map<u128, TaskView> {
    Map::empty()
}

/// The payload of a report of success: one text member, `status`, which reads
/// `completed`.
pub open spec fn is_completed_payload(output: serde_json::Value) -> bool {
    &&& text_members(output) == map!["status"@ => "completed"@]
    &&& other_members(output) == no_members()
}

/// Whether `listing` shows the table `tasks`: every entry is a task of the
/// table with its state, every task of the table has an entry, and none has
/// two.
pub open spec fn is_listing_of(
    listing: Seq<(u128, TaskStatus)>,
    tasks: Map<u128, TaskView>,
) -> bool {
    &&& forall|i: int|
        0 <= i < listing.len() ==> {
            &&& tasks.contains_key(#[trigger] listing[i].0)
            &&& listing[i].1@ == tasks[listing[i].0].status
        }
    &&& forall|id: u128|
        tasks.contains_key(id) ==> exists|i: int|
            0 <= i < listing.len() && (#[trigger] listing[i]).0 == id
    &&& forall|i: int, j: int|
        0 <= i < j < listing.len() ==> (#[trigger] listing[i]).0 != (#[trigger] listing[j]).0
}

/// The task manager.
pub struct SemanticTaskProcessor {
    tasks: HashMap<u128, TaskInfo>,
    metrics: GeometricMetrics,
}

impl View for SemanticTaskProcessor {
    type V = ManagerView;

    open spec fn view(&self) -> ManagerView {
        ManagerView {
            tasks: self.table().map_values(|info: TaskInfo| info@),
            metrics: self.snapshot()@,
        }
    }
}

impl SemanticTaskProcessor {
    /// The task table as it is stored.
    pub closed spec fn table(&self) -> Map<u128, TaskInfo> {
        self.tasks@
    }

    /// The current record of metrics as it is stored.
    pub closed spec fn snapshot(&self) -> GeometricMetrics {
        self.metrics
    }

    /// A manager without tasks, whose current metrics are `baseline`.
    pub fn new(baseline: GeometricMetrics) -> (processor: SemanticTaskProcessor)
        ensures
            processor@.tasks == no_tasks(),
            processor.snapshot() == baseline,
    {
        let processor = SemanticTaskProcessor { tasks: HashMap::new(), metrics: baseline };
        assert(processor@.tasks =~= no_tasks());
        processor
    }

    /// Files `task` under `id` as a pending task, unless the table already
    /// holds a task under `id`: then the submission is refused as a duplicate
    /// and nothing changes.
    pub fn submit_task_as(&mut self, id: u128, task: GeometricTaskCommand) -> (answer: Result<u128, Error>)
        ensures
            (final(self)@, answer) == old(self)@.submit(id, task),
            final(self).snapshot() == old(self).snapshot(),
    {
        if self.tasks.contains_key(&id) {
            return Err(Error::DuplicateTaskId(id));
        }
        self.tasks.insert(id, TaskInfo { command: task, status: TaskStatus::Pending });
        assert(self@.tasks =~= old(self)@.submitted(id, task).tasks);
        Ok(id)
    }

    /// Files `task` as a pending task and returns its identifier: the one
    /// that the command names or, where it names none, a fresh random one. A
    /// named identifier that is taken is refused as a duplicate, and nothing
    /// changes; so is a random one, should it ever collide.
    pub fn submit_task(&mut self, task: GeometricTaskCommand) -> (answer: Result<u128, Error>)
        ensures
            match task.task_id {
                Some(id) => (final(self)@, answer) == old(self)@.submit(id, task),
                None => exists|id: u128|
                    is_random_form(id) && (final(self)@, answer) == old(self)@.submit(id, task),
            },
            final(self).snapshot() == old(self).snapshot(),
    {
        let id = match task.task_id {
            Some(id) => id,
            None => fresh_task_id(),
        };
        self.submit_task_as(id, task)
    }

    /// Puts the task under `id` in the given state; says whether there is one.
    fn set_status(&mut self, id: u128, status: TaskStatus) -> (known: bool)
        ensures
            known == old(self).table().contains_key(id),
            known ==> final(self).table() == old(self).table().insert(
                id,
                TaskInfo { command: old(self).table()[id].command, status },
            ),
            !known ==> final(self).table() == old(self).table(),
            final(self).snapshot() == old(self).snapshot(),
    {
        match self.tasks.remove(&id) {
            Some(info) => {
                self.tasks.insert(id, TaskInfo { command: info.command, status });
                assert(self.tasks@ =~= old(self).tasks@.insert(
                    id,
                    TaskInfo { command: old(self).tasks@[id].command, status },
                ));
                true
            },
            None => {
                assert(self.tasks@ =~= old(self).tasks@);
                false
            },
        }
    }

    /// Executes the task under `id`: puts it in progress, hands its operator,
    /// its parameters and the current metrics to `engine`, and makes what the
    /// engine returns both the current metrics and the task's completed
    /// state. The report names the task, says that it succeeded and carries
    /// the same metrics. An unknown identifier is an error, the engine is not
    /// asked, and nothing changes. A task that was executed before is executed
    /// again like any other.
    ///
    /// The manager is borrowed exclusively from the first step to the last,
    /// for as long as the engine takes: no two executions overlap, and none
    /// overlaps any other operation.
    pub fn execute_task<F>(&mut self, id: u128, engine: F) -> (answer: Result<TaskExecutionResult, Error>)
        where F: FnOnce(GeometricOperator, &serde_json::Value, &GeometricMetrics) -> GeometricMetrics
        requires
            old(self)@.tasks.contains_key(id) ==> engine.requires(
                (
                    old(self)@.tasks[id].command.geometric_operator,
                    &old(self)@.tasks[id].command.parameters,
                    &old(self).snapshot(),
                ),
            ),
        ensures
            match answer {
                Ok(report) => {
                    &&& old(self)@.tasks.contains_key(id)
                    &&& engine.ensures(
                        (
                            old(self)@.tasks[id].command.geometric_operator,
                            &old(self)@.tasks[id].command.parameters,
                            &old(self).snapshot(),
                        ),
                        report.metrics,
                    )
                    &&& final(self)@ == old(self)@.completed(id, report.metrics@)
                    &&& report.task_id == id
                    &&& report.success
                    &&& report.error is None
                    &&& is_completed_payload(report.output)
                },
                Err(error) => {
                    &&& !old(self)@.tasks.contains_key(id)
                    &&& error == Error::TaskNotFound(id)
                    &&& final(self)@ == old(self)@
                    &&& final(self).snapshot() == old(self).snapshot()
                },
            },
    {
        if !self.set_status(id, TaskStatus::InProgress) {
            assert(self@.tasks =~= old(self)@.tasks);
            return Err(Error::TaskNotFound(id));
        }
        let info = self.tasks.get(&id).unwrap();
        let produced = engine(
            info.command.geometric_operator,
            &info.command.parameters,
            &self.metrics,
        );
        let kept = produced.duplicate();
        self.metrics = produced.duplicate();
        self.set_status(id, TaskStatus::Completed(kept));
        assert(self@.tasks =~= old(self)@.completed(id, produced@).tasks);
        Ok(
            TaskExecutionResult {
                task_id: id,
                success: true,
                metrics: produced,
                output: text_object("status", "completed"),
                error: None,
            },
        )
    }

    /// A copy of the state of the task under `id`.
    pub fn get_task_status(&self, id: u128) -> (answer: Result<TaskStatus, Error>)
        ensures
            match answer {
                Ok(status) => self@.status(id) matches Ok(held) && held == status@,
                Err(error) => self@.status(id) matches Err(raised) && raised == error,
            },
    {
        match self.tasks.get(&id) {
            Some(info) => Ok(info.status.duplicate()),
            None => Err(Error::TaskNotFound(id)),
        }
    }

    /// A copy of the current metrics.
    pub fn get_metrics(&self) -> (metrics: GeometricMetrics)
        ensures
            metrics@ == self@.metrics,
    {
        self.metrics.duplicate()
    }

    /// Every task with a copy of its state, as the table stands at the call.
    /// The order is the table's own and may differ from call to call.
    pub fn list_tasks(&self) -> (listing: Vec<(u128, TaskStatus)>)
        ensures
            is_listing_of(listing@, self@.tasks),
    {
        let mut listing: Vec<(u128, TaskStatus)> = Vec::new();
        let ghost entries = spec_hash_map_iter(&self.tasks).remaining();
        for entry in it: self.tasks.iter()
            invariant
                it.seq() == entries,
                listing@.len() == it.index(),
                forall|j: int|
                    0 <= j < listing@.len() ==> {
                        &&& listing@[j].0 == *entries[j].0
                        &&& listing@[j].1@ == entries[j].1.status@
                    },
        {
            let (id, info) = entry;
            listing.push((*id, info.status.duplicate()));
        }
        proof {
            let tasks = self@.tasks;
            assert(listing@.len() == entries.len());
            assert(entries.no_duplicates());
            assert forall|i: int| 0 <= i < listing@.len() implies {
                &&& tasks.contains_key(#[trigger] listing@[i].0)
                &&& listing@[i].1@ == tasks[listing@[i].0].status
            } by {
                assert(self.tasks@.contains_key(*entries[i].0));
                assert(self.tasks@[*entries[i].0] == *entries[i].1);
            }
            assert forall|id: u128| tasks.contains_key(id) implies {
                exists|i: int| 0 <= i < listing@.len() && (#[trigger] listing@[i]).0 == id
            } by {
                let entry = (&id, &self.tasks@[id]);
                assert(entries.contains(entry));
                let i = choose|i: int| 0 <= i < entries.len() && entries[i] == entry;
                assert(listing@[i].0 == id);
            }
            assert forall|i: int, j: int| 0 <= i < j < listing@.len() implies {
                (#[trigger] listing@[i]).0 != (#[trigger] listing@[j]).0
            } by {
                if listing@[i].0 == listing@[j].0 {
                    assert(self.tasks@[*entries[i].0] == *entries[i].1);
                    assert(self.tasks@[*entries[j].0] == *entries[j].1);
                    assert(entries[i] == entries[j]);
                }
            }
        }
        listing
    }
}

/// An identifier is taken once and for all: after a submission under `id`,
/// whether accepted or not, a second submission under `id` is refused as a
/// duplicate and changes nothing; and where the first was accepted, its task
/// is pending and holds the first command.
pub proof fn lemma_second_submission_is_refused(
    before: ManagerView,
    id: u128,
    first: GeometricTaskCommand,
    second: GeometricTaskCommand,
)
    ensures
        ({
            let (between, first_answer) = before.submit(id, first);
            let (after, second_answer) = between.submit(id, second);
            &&& second_answer matches Err(refusal) && refusal == Error::DuplicateTaskId(id)
            &&& after == between
            &&& first_answer is Ok ==> between.tasks[id] == (TaskView {
                command: first,
                status: StatusView::Pending,
            })
        }),
{
}

/// An identifier that the table does not hold has no status: asking for it
/// gives the unknown-identifier error.
pub proof fn lemma_unknown_id_has_no_status(manager: ManagerView, id: u128)
    requires
        !manager.tasks.contains_key(id),
    ensures
        manager.status(id) matches Err(raised) && raised == Error::TaskNotFound(id),
{
}

/// A submission or an execution touches one entry of the table: every other
/// task keeps its command and its state. A completed task thus keeps the
/// metrics of its own execution, whatever later executions produce.
pub proof fn lemma_other_tasks_are_untouched(
    before: ManagerView,
    id: u128,
    other: u128,
    command: GeometricTaskCommand,
    produced: MetricsView,
)
    requires
        id != other,
    ensures
        before.submitted(id, command).tasks.contains_key(other) == before.tasks.contains_key(
            other,
        ),
        before.submitted(id, command).tasks[other] == before.tasks[other],
        before.completed(id, produced).tasks.contains_key(other) == before.tasks.contains_key(
            other,
        ),
        before.completed(id, produced).tasks[other] == before.tasks[other],
{
}

/// A task only moves forward. No submission changes a task that the table
/// holds, and an execution completes its task and changes no other: a task
/// that has left the pending state never returns to it, a completed task
/// stays completed, and no task ever leaves the table or gets another
/// command.
pub proof fn lemma_tasks_only_move_forward(
    before: ManagerView,
    id: u128,
    acted_on: u128,
    command: GeometricTaskCommand,
    produced: MetricsView,
)
    requires
        before.tasks.contains_key(id),
    ensures
        before.submit(acted_on, command).0.tasks.contains_key(id),
        before.submit(acted_on, command).0.tasks[id] == before.tasks[id],
        before.completed(acted_on, produced).tasks.contains_key(id),
        before.completed(acted_on, produced).tasks[id].command == before.tasks[id].command,
        before.completed(acted_on, produced).tasks[id].status != StatusView::Pending
            || before.tasks[id].status == StatusView::Pending,
        before.tasks[id].status is Completed ==> before.completed(
            acted_on,
            produced,
        ).tasks[id].status is Completed,
{
}

/// End to end: on a manager without tasks, a task that is submitted and then
/// executed is the only task, it is completed, and the metrics it holds are
/// the current metrics; every listing of the table shows just this.
pub proof fn lemma_single_task_end_to_end(
    fresh: ManagerView,
    id: u128,
    command: GeometricTaskCommand,
    produced: MetricsView,
    listing: Seq<(u128, TaskStatus)>,
)
    requires
        fresh.tasks == no_tasks(),
        is_listing_of(listing, fresh.submitted(id, command).completed(id, produced).tasks),
    ensures
        ({
            let done = fresh.submitted(id, command).completed(id, produced);
            &&& done.status(id) matches Ok(held) && held == StatusView::Completed(done.metrics)
            &&& done.metrics == produced
            &&& listing.len() == 1
            &&& listing[0].0 == id
            &&& listing[0].1@ == StatusView::Completed(done.metrics)
        }),
{
    let done = fresh.submitted(id, command).completed(id, produced);
    assert(done.tasks.contains_key(id));
    let at = choose|i: int| 0 <= i < listing.len() && (#[trigger] listing[i]).0 == id;
    if listing.len() > 1 {
        let other = if at == 0 { 1int } else { 0int };
        assert(done.tasks.contains_key(listing[other].0));
        assert(listing[other].0 == id);
        if at < other {
            assert(listing[at].0 != listing[other].0);
        } else {
            assert(listing[other].0 != listing[at].0);
        }
    }
    assert(done.tasks.contains_key(listing[0].0));
}

} // verus!
