//! The scheduler as a state machine over sequences of task values.
//!
//! A state is the sequence of tasks in the order in which they were created.
//! Each operation of the scheduler is given here as a pair of functions: what
//! it answers, and the state it leaves. The executable scheduler is proved
//! against these, and the laws of the scheduler are proved about them.

use vstd::prelude::*;
use crate::error::SchedulerError;
use crate::events::{DispatchView, ReminderView};
use crate::task::{task_info, TaskInfoView, TaskStatus, TaskView};

verus! {

/// Whether some task in `tasks` is named `id`.
pub open spec fn has_id(tasks: Seq<TaskView>, id: Seq<char>) -> bool {
    exists|i: int| 0 <= i < tasks.len() && (#[trigger] tasks[i]).id == id
}

/// Whether no two tasks in `tasks` share an id.
pub open spec fn distinct_ids(tasks: Seq<TaskView>) -> bool {
    forall|i: int, j: int|
        0 <= i < j < tasks.len() ==> (#[trigger] tasks[i]).id != (#[trigger] tasks[j]).id
}

/// The place of a task named `id` in `tasks`. Meaningful where there is one.
pub open spec fn position_of(tasks: Seq<TaskView>, id: Seq<char>) -> int {
    choose|i: int| 0 <= i < tasks.len() && (#[trigger] tasks[i]).id == id
}

/// The task named `id`, if there is one.
pub open spec fn find(tasks: Seq<TaskView>, id: Seq<char>) -> Option<TaskView> {
    if has_id(tasks, id) {
        Some(tasks[position_of(tasks, id)])
    } else {
        None
    }
}

/// A task as it is when created.
pub open spec fn pending_task(id: Seq<char>, action: Seq<char>, execute_at: i64) -> TaskView {
    TaskView { id, action, execute_at, status: TaskStatus::Pending }
}

/// What creating a task answers: the new id, or why it was refused.
///
/// A time not later than `now` is refused first, then an id already in use.
pub open spec fn create_outcome(
    tasks: Seq<TaskView>,
    id: Seq<char>,
    execute_at: i64,
    now: i64,
) -> Result<Seq<char>, SchedulerError> {
    if execute_at <= now {
        Err(SchedulerError::InvalidSchedule)
    } else if has_id(tasks, id) {
        Err(SchedulerError::DuplicateId)
    } else {
        Ok(id)
    }
}

/// The state that creating a task leaves: one pending task more at the end
/// where it succeeds, the same state where it is refused.
pub open spec fn after_create(
    tasks: Seq<TaskView>,
    id: Seq<char>,
    action: Seq<char>,
    execute_at: i64,
    now: i64,
) -> Seq<TaskView> {
    if create_outcome(tasks, id, execute_at, now) is Ok {
        tasks.push(pending_task(id, action, execute_at))
    } else {
        tasks
    }
}

/// What cancelling the task named `id` answers.
pub open spec fn cancel_outcome(tasks: Seq<TaskView>, id: Seq<char>) -> Result<
    (),
    SchedulerError,
> {
    match find(tasks, id) {
        None => Err(SchedulerError::NotFound),
        Some(task) => if task.status is Pending {
            Ok(())
        } else {
            Err(SchedulerError::InvalidState)
        },
    }
}

/// The state that cancelling the task named `id` leaves: that task cancelled
/// where the call succeeds, the same state where it is refused.
pub open spec fn after_cancel(tasks: Seq<TaskView>, id: Seq<char>) -> Seq<TaskView> {
    if cancel_outcome(tasks, id) is Ok {
        tasks.update(
            position_of(tasks, id),
            tasks[position_of(tasks, id)].with_status(TaskStatus::Cancelled),
        )
    } else {
        tasks
    }
}

/// What callers are shown of the tasks at `now`, task by task.
pub open spec fn task_infos(tasks: Seq<TaskView>, now: i64) -> Seq<TaskInfoView> {
    tasks.map_values(|task: TaskView| task_info(task, now))
}

/// Whether `task` is to be promoted at `now`: pending, and its time reached.
pub open spec fn is_due(task: TaskView, now: i64) -> bool {
    task.status is Pending && task.execute_at <= now
}

/// The order that goes out for `task`.
pub open spec fn dispatch_of(task: TaskView) -> DispatchView {
    DispatchView { task_id: task.id, action: task.action }
}

/// The orders that go out at `now`: one for each due task, in the order of
/// the tasks.
pub open spec fn dispatches(tasks: Seq<TaskView>, now: i64) -> Seq<DispatchView> {
    tasks.filter(|task: TaskView| is_due(task, now)).map_values(
        |task: TaskView| dispatch_of(task),
    )
}

/// The state after promotion at `now`: each due task is executing, the
/// others are as they were.
pub open spec fn after_promote(tasks: Seq<TaskView>, now: i64) -> Seq<TaskView> {
    tasks.map_values(
        |task: TaskView|
            if is_due(task, now) {
                task.with_status(TaskStatus::Executing)
            } else {
                task
            },
    )
}

/// Whether one of `orders` is for the task named `id`.
pub open spec fn names_task(orders: Seq<DispatchView>, id: Seq<char>) -> bool {
    exists|k: int| 0 <= k < orders.len() && (#[trigger] orders[k]).task_id == id
}

/// The state once `orders` have gone out: each executing task that one of
/// them names is completed, the others are as they were.
pub open spec fn after_complete(tasks: Seq<TaskView>, orders: Seq<DispatchView>) -> Seq<
    TaskView,
> {
    tasks.map_values(
        |task: TaskView|
            if task.status is Executing && names_task(orders, task.id) {
                task.with_status(TaskStatus::Completed)
            } else {
                task
            },
    )
}

/// The state that a whole promotion pass at `now` leaves: each due task is
/// completed, the others are as they were.
pub open spec fn after_execute(tasks: Seq<TaskView>, now: i64) -> Seq<TaskView> {
    tasks.map_values(
        |task: TaskView|
            if is_due(task, now) {
                task.with_status(TaskStatus::Completed)
            } else {
                task
            },
    )
}

/// Whether a reminder for `threshold` goes out for `task` at `now`: the task
/// is pending and exactly `threshold` seconds from due.
pub open spec fn reminder_fires(task: TaskView, threshold: i64, now: i64) -> bool {
    task.status is Pending && task.execute_at - now == threshold
}

/// The reminder for `task` at `threshold`.
pub open spec fn reminder_of(task: TaskView, threshold: i64) -> ReminderView {
    ReminderView { task_id: task.id, action: task.action, threshold }
}

/// The reminders that go out for one task at `now`: one for each threshold
/// that fires, in the order of the thresholds.
pub open spec fn reminders_for(task: TaskView, thresholds: Seq<i64>, now: i64) -> Seq<
    ReminderView,
> {
    thresholds.filter(|threshold: i64| reminder_fires(task, threshold, now)).map_values(
        |threshold: i64| reminder_of(task, threshold),
    )
}

/// The reminders that go out at `now`: those of each task, in the order of
/// the tasks.
pub open spec fn reminders(tasks: Seq<TaskView>, thresholds: Seq<i64>, now: i64) -> Seq<
    ReminderView,
> {
    tasks.flat_map(|task: TaskView| reminders_for(task, thresholds, now))
}


/// In a state without repeated ids, a task found under an id is the task
/// that the id names.
pub proof fn lemma_found_is_named(tasks: Seq<TaskView>, id: Seq<char>, i: int)
    requires
        distinct_ids(tasks),
        0 <= i < tasks.len(),
        tasks[i].id == id,
    ensures
        has_id(tasks, id),
        position_of(tasks, id) == i,
        find(tasks, id) == Some(tasks[i]),
{
}

/// Adding a task at the end adds its order at the end, if it is due.
pub proof fn lemma_dispatches_push(tasks: Seq<TaskView>, task: TaskView, now: i64)
    ensures
        dispatches(tasks.push(task), now) == if is_due(task, now) {
            dispatches(tasks, now).push(dispatch_of(task))
        } else {
            dispatches(tasks, now)
        },
{
    reveal(Seq::filter);
    assert(tasks.push(task).drop_last() =~= tasks);
}

/// Adding a threshold at the end adds its reminder at the end, if it fires.
pub proof fn lemma_reminders_for_push(
    task: TaskView,
    thresholds: Seq<i64>,
    threshold: i64,
    now: i64,
)
    ensures
        reminders_for(task, thresholds.push(threshold), now) == if reminder_fires(
            task,
            threshold,
            now,
        ) {
            reminders_for(task, thresholds, now).push(reminder_of(task, threshold))
        } else {
            reminders_for(task, thresholds, now)
        },
{
    reveal(Seq::filter);
    assert(thresholds.push(threshold).drop_last() =~= thresholds);
}

/// Adding a task at the end adds its reminders at the end.
pub proof fn lemma_reminders_push(
    tasks: Seq<TaskView>,
    task: TaskView,
    thresholds: Seq<i64>,
    now: i64,
)
    ensures
        reminders(tasks.push(task), thresholds, now) == reminders(tasks, thresholds, now)
            + reminders_for(task, thresholds, now),
{
    let each = |task: TaskView| reminders_for(task, thresholds, now);
    tasks.lemma_push_map_commute(each, task);
    tasks.map_values(each).lemma_flatten_push(each(task));
}

/// An order added at the end names its own task, and changes nothing for
/// the others.
pub proof fn lemma_names_task_push(orders: Seq<DispatchView>, order: DispatchView, id: Seq<char>)
    ensures
        names_task(orders.push(order), id) <==> names_task(orders, id) || order.task_id == id,
{
    let longer = orders.push(order);
    if names_task(orders, id) {
        let k = choose|k: int| 0 <= k < orders.len() && (#[trigger] orders[k]).task_id == id;
        assert(longer[k].task_id == id);
    }
    if order.task_id == id {
        assert(longer[orders.len() as int].task_id == id);
    }
}

/// The orders that go out at `now` name the due tasks and no others.
pub proof fn lemma_dispatches_name_due(tasks: Seq<TaskView>, now: i64, id: Seq<char>)
    ensures
        names_task(dispatches(tasks, now), id) <==> exists|i: int|
            0 <= i < tasks.len() && (#[trigger] tasks[i]).id == id && is_due(tasks[i], now),
    decreases tasks.len(),
{
    if tasks.len() > 0 {
        let front = tasks.drop_last();
        let last = tasks.last();
        assert(tasks =~= front.push(last));
        lemma_dispatches_name_due(front, now, id);
        lemma_dispatches_push(front, last, now);
        if is_due(last, now) {
            lemma_names_task_push(dispatches(front, now), dispatch_of(last), id);
        }
    }
}

/// Promotion followed by completion of what was dispatched is one pass of
/// execution: in a state without repeated ids, each due task has gone from
/// pending through executing to completed, and no other task has moved.
pub proof fn lemma_promote_then_complete(tasks: Seq<TaskView>, now: i64)
    requires
        distinct_ids(tasks),
    ensures
        after_complete(after_promote(tasks, now), dispatches(tasks, now)) == after_execute(
            tasks,
            now,
        ),
{
    let promoted = after_promote(tasks, now);
    let orders = dispatches(tasks, now);
    assert forall|j: int| 0 <= j < tasks.len() implies after_complete(promoted, orders)[j]
        == after_execute(tasks, now)[j] by {
        lemma_dispatches_name_due(tasks, now, tasks[j].id);
    }
}

} // verus!
