//! What holds of the scheduler whatever is asked of it, proved about the
//! state machine in [`crate::model`].

use vstd::prelude::*;
use crate::error::SchedulerError;
use crate::events::{DispatchView, ReminderView};
use crate::model::{
    after_cancel, after_complete, after_create, after_execute, after_promote, cancel_outcome,
    create_outcome, dispatch_of, dispatches, distinct_ids, find, has_id, is_due,
    lemma_dispatches_push, lemma_found_is_named, lemma_promote_then_complete,
    lemma_reminders_for_push, lemma_reminders_push, position_of, reminder_fires, reminder_of,
    reminders, reminders_for, task_infos,
};
use crate::scheduler::TICK_PERIOD_SECONDS;
use crate::task::{TaskInfoView, TaskStatus, TaskView};

verus! {

/// Whether `after` can follow `before`: every task of `before` is still
/// there, in its place, with its id, action and time, and in a state that
/// its earlier state reaches.
pub open spec fn advances(before: Seq<TaskView>, after: Seq<TaskView>) -> bool {
    &&& before.len() <= after.len()
    &&& forall|j: int|
        0 <= j < before.len() ==> {
            &&& (#[trigger] after[j]).id == before[j].id
            &&& after[j].action == before[j].action
            &&& after[j].execute_at == before[j].execute_at
            &&& before[j].status.reaches(after[j].status)
        }
}

/// The states of a task are ordered by the transitions: a state reaches
/// another exactly where no transition, one, or two by way of `Executing`
/// lead there. So each reaches itself, what is reached from a reached state
/// is reached, a final state reaches only itself, and only `Pending` reaches
/// `Pending`.
pub proof fn lemma_status_order(a: TaskStatus, b: TaskStatus, c: TaskStatus)
    ensures
        a.reaches(b) <==> a == b || a.steps_to(b) || (a.steps_to(TaskStatus::Executing)
            && TaskStatus::Executing.steps_to(b)),
        a.reaches(a),
        a.reaches(b) && b.reaches(c) ==> a.reaches(c),
        a.is_final() && a.reaches(b) ==> a == b,
        a.reaches(TaskStatus::Pending) ==> a is Pending,
        a.reaches(b) && b.reaches(a) ==> a == b,
{
}

/// A state follows itself, and what follows a following state follows.
pub proof fn lemma_advances_order(a: Seq<TaskView>, b: Seq<TaskView>, c: Seq<TaskView>)
    ensures
        advances(a, a),
        advances(a, b) && advances(b, c) ==> advances(a, c),
{
    if advances(a, b) && advances(b, c) {
        assert forall|j: int| 0 <= j < a.len() implies {
            &&& (#[trigger] c[j]).id == a[j].id
            &&& c[j].action == a[j].action
            &&& c[j].execute_at == a[j].execute_at
            &&& a[j].status.reaches(c[j].status)
        } by {
            lemma_status_order(a[j].status, b[j].status, c[j].status);
        }
    }
}

/// Creating a task moves the state forward: the tasks that were there stay
/// as they are, and no id is repeated. So an id is never used again.
pub proof fn lemma_create_advances(
    tasks: Seq<TaskView>,
    id: Seq<char>,
    action: Seq<char>,
    execute_at: i64,
    now: i64,
)
    requires
        distinct_ids(tasks),
    ensures
        advances(tasks, after_create(tasks, id, action, execute_at, now)),
        distinct_ids(after_create(tasks, id, action, execute_at, now)),
        forall|j: int|
            0 <= j < tasks.len() ==> after_create(tasks, id, action, execute_at, now)[j]
                == #[trigger] tasks[j],
{
}

/// Cancelling moves the state forward: no task is removed or renamed, none
/// is given another action or time, and none goes back to a state it has
/// left.
pub proof fn lemma_cancel_advances(tasks: Seq<TaskView>, id: Seq<char>)
    requires
        distinct_ids(tasks),
    ensures
        advances(tasks, after_cancel(tasks, id)),
        distinct_ids(after_cancel(tasks, id)),
{
}

/// Promotion, completion, and the pass of execution that is made of the two
/// move the state forward, whatever the clock reading and the orders. So a
/// completed or cancelled task stays as it is, and no task is pending again
/// once it was not.
pub proof fn lemma_execute_advances(tasks: Seq<TaskView>, now: i64, orders: Seq<DispatchView>)
    requires
        distinct_ids(tasks),
    ensures
        advances(tasks, after_promote(tasks, now)),
        advances(tasks, after_complete(tasks, orders)),
        advances(tasks, after_execute(tasks, now)),
        distinct_ids(after_promote(tasks, now)),
        distinct_ids(after_complete(tasks, orders)),
        distinct_ids(after_execute(tasks, now)),
{
}

/// Where one state follows another, a task in a final state is found in the
/// same state, and a task found pending was pending.
pub proof fn lemma_final_states_stay(before: Seq<TaskView>, after: Seq<TaskView>, j: int)
    requires
        advances(before, after),
        0 <= j < before.len(),
    ensures
        before[j].status.is_final() ==> after[j].status == before[j].status,
        after[j].status is Pending ==> before[j].status is Pending,
{
}

/// A task cannot be created for a time that is not later than the clock
/// reading: the request is refused with `InvalidSchedule`, whatever the id,
/// and the state stays as it is.
pub proof fn lemma_past_time_is_refused(
    tasks: Seq<TaskView>,
    id: Seq<char>,
    action: Seq<char>,
    execute_at: i64,
    now: i64,
)
    requires
        execute_at <= now,
    ensures
        create_outcome(tasks, id, execute_at, now) == Err::<Seq<char>, SchedulerError>(
            SchedulerError::InvalidSchedule,
        ),
        after_create(tasks, id, action, execute_at, now) == tasks,
{
}

/// A task that was just created is shown last, as pending, with the whole
/// distance from the clock reading to its time as the seconds that remain.
/// The tasks before it are shown as they were.
///
/// The distance must fit the field that shows it. It always does where the
/// clock reading is not negative.
pub proof fn lemma_created_task_is_shown_pending(
    tasks: Seq<TaskView>,
    id: Seq<char>,
    action: Seq<char>,
    execute_at: i64,
    now: i64,
)
    requires
        create_outcome(tasks, id, execute_at, now) is Ok,
        execute_at - now <= i64::MAX,
    ensures
        task_infos(after_create(tasks, id, action, execute_at, now), now) == task_infos(
            tasks,
            now,
        ).push(
            (TaskInfoView {
                id,
                action,
                execute_at,
                status: "pending"@,
                remaining_seconds: (execute_at - now) as i64,
            }),
        ),
{
}

/// Cancelling a pending task succeeds, and cancelling it again fails with
/// `InvalidState` and changes nothing.
pub proof fn lemma_second_cancel_fails(tasks: Seq<TaskView>, id: Seq<char>, j: int)
    requires
        distinct_ids(tasks),
        0 <= j < tasks.len(),
        tasks[j].id == id,
        tasks[j].status is Pending,
    ensures
        cancel_outcome(tasks, id) == Ok::<(), SchedulerError>(()),
        after_cancel(tasks, id) == tasks.update(j, tasks[j].with_status(TaskStatus::Cancelled)),
        cancel_outcome(after_cancel(tasks, id), id) == Err::<(), SchedulerError>(
            SchedulerError::InvalidState,
        ),
        after_cancel(after_cancel(tasks, id), id) == after_cancel(tasks, id),
{
    lemma_found_is_named(tasks, id, j);
    lemma_found_is_named(after_cancel(tasks, id), id, j);
}

/// Cancelling fails with `NotFound` exactly where no task has the id, and
/// then changes nothing.
pub proof fn lemma_cancel_unknown_is_not_found(tasks: Seq<TaskView>, id: Seq<char>)
    ensures
        !has_id(tasks, id) <==> cancel_outcome(tasks, id) == Err::<(), SchedulerError>(
            SchedulerError::NotFound,
        ),
        !has_id(tasks, id) ==> after_cancel(tasks, id) == tasks,
{
}

/// Those of `orders` that are for the task named `id`, in their order.
pub open spec fn orders_for(orders: Seq<DispatchView>, id: Seq<char>) -> Seq<DispatchView> {
    orders.filter(|order: DispatchView| order.task_id == id)
}

/// Those of `notices` that are for the task named `id` at `threshold`, in
/// their order.
pub open spec fn reminders_named(notices: Seq<ReminderView>, id: Seq<char>, threshold: i64) -> Seq<
    ReminderView,
> {
    notices.filter(|notice: ReminderView| notice.task_id == id && notice.threshold == threshold)
}

/// In a state without repeated ids, a task added under a new id is found
/// under it, and the tasks before it are found as before.
proof fn lemma_find_push(tasks: Seq<TaskView>, task: TaskView, id: Seq<char>)
    requires
        distinct_ids(tasks.push(task)),
    ensures
        distinct_ids(tasks),
        task.id == id ==> find(tasks, id) is None && find(tasks.push(task), id) == Some(task),
        task.id != id ==> find(tasks.push(task), id) == find(tasks, id),
{
    let longer = tasks.push(task);
    assert forall|i: int, j: int| 0 <= i < j < tasks.len() implies (#[trigger] tasks[i]).id
        != (#[trigger] tasks[j]).id by {
        assert(longer[i].id != longer[j].id);
    }
    if task.id == id {
        lemma_found_is_named(longer, id, tasks.len() as int);
        if has_id(tasks, id) {
            let i = position_of(tasks, id);
            assert(longer[i].id != longer[tasks.len() as int].id);
        }
    } else if has_id(tasks, id) {
        let i = position_of(tasks, id);
        lemma_found_is_named(tasks, id, i);
        lemma_found_is_named(longer, id, i);
    }
}

/// In a state without repeated ids, the orders that go out for a task are
/// one order with its action if it is due, and none if it is not or if
/// there is no such task.
pub proof fn lemma_orders_for_task(tasks: Seq<TaskView>, now: i64, id: Seq<char>)
    requires
        distinct_ids(tasks),
    ensures
        orders_for(dispatches(tasks, now), id) == match find(tasks, id) {
            Some(task) => if is_due(task, now) {
                seq![dispatch_of(task)]
            } else {
                Seq::<DispatchView>::empty()
            },
            None => Seq::<DispatchView>::empty(),
        },
    decreases tasks.len(),
{
    reveal(Seq::filter);
    if tasks.len() > 0 {
        let front = tasks.drop_last();
        let last = tasks.last();
        assert(tasks =~= front.push(last));
        lemma_find_push(front, last, id);
        lemma_orders_for_task(front, now, id);
        lemma_dispatches_push(front, last, now);
        if is_due(last, now) {
            let orders = dispatches(front, now);
            assert(orders.push(dispatch_of(last)).drop_last() =~= orders);
        }
    }
}

/// A task that is due is, in one pass of execution, promoted from pending to
/// executing and then completed, and exactly one order goes out for it, with
/// its action.
pub proof fn lemma_due_task_runs_once(tasks: Seq<TaskView>, now: i64, j: int)
    requires
        distinct_ids(tasks),
        0 <= j < tasks.len(),
        is_due(tasks[j], now),
    ensures
        after_promote(tasks, now)[j] == tasks[j].with_status(TaskStatus::Executing),
        after_complete(after_promote(tasks, now), dispatches(tasks, now))[j] == tasks[j].with_status(
            TaskStatus::Completed,
        ),
        after_execute(tasks, now)[j] == tasks[j].with_status(TaskStatus::Completed),
        orders_for(dispatches(tasks, now), tasks[j].id) == seq![dispatch_of(tasks[j])],
{
    lemma_promote_then_complete(tasks, now);
    lemma_found_is_named(tasks, tasks[j].id, j);
    lemma_orders_for_task(tasks, now, tasks[j].id);
}

/// A task is promoted by the first tick that finds it due. Where the tick
/// before came at most `period` seconds earlier and found the task not yet
/// due, the task is promoted less than `period` seconds after its time.
pub proof fn lemma_due_task_is_not_late(task: TaskView, earlier: i64, now: i64, period: int)
    requires
        task.status is Pending,
        !is_due(task, earlier),
        is_due(task, now),
        now - earlier <= period,
    ensures
        0 <= now - task.execute_at < period,
{
}

/// A task that has been completed or cancelled never runs: in whatever
/// state follows, and however late the clock, it is in the state it was in,
/// a pass of execution leaves it there, and no order goes out for it.
///
/// So the action of a task is ordered once and never again, and a cancelled
/// task is not promoted when its time comes.
pub proof fn lemma_finished_task_never_runs(
    before: Seq<TaskView>,
    after: Seq<TaskView>,
    now: i64,
    j: int,
)
    requires
        distinct_ids(after),
        advances(before, after),
        0 <= j < before.len(),
        before[j].status.is_final(),
    ensures
        after[j].status == before[j].status,
        after_promote(after, now)[j] == after[j],
        after_execute(after, now)[j] == after[j],
        orders_for(dispatches(after, now), before[j].id) == Seq::<DispatchView>::empty(),
{
    lemma_final_states_stay(before, after, j);
    lemma_found_is_named(after, before[j].id, j);
    lemma_orders_for_task(after, now, before[j].id);
}

/// A cancelled task is never promoted, however late the clock: from the
/// moment it is cancelled, in whatever state follows, it stays cancelled and
/// no order goes out for it.
pub proof fn lemma_cancelled_task_never_runs(
    tasks: Seq<TaskView>,
    later: Seq<TaskView>,
    now: i64,
    j: int,
)
    requires
        distinct_ids(tasks),
        0 <= j < tasks.len(),
        tasks[j].status is Pending,
        distinct_ids(later),
        advances(after_cancel(tasks, tasks[j].id), later),
    ensures
        later[j].status is Cancelled,
        after_execute(later, now)[j].status is Cancelled,
        orders_for(dispatches(later, now), tasks[j].id) == Seq::<DispatchView>::empty(),
{
    let id = tasks[j].id;
    lemma_second_cancel_fails(tasks, id, j);
    lemma_finished_task_never_runs(after_cancel(tasks, id), later, now, j);
}

/// The notices for one task and threshold among two runs of notices are
/// those among the first, then those among the second.
proof fn lemma_reminders_named_add(
    first: Seq<ReminderView>,
    second: Seq<ReminderView>,
    id: Seq<char>,
    threshold: i64,
)
    ensures
        reminders_named(first + second, id, threshold) == reminders_named(first, id, threshold)
            + reminders_named(second, id, threshold),
{
    Seq::filter_distributes_over_add(
        first,
        second,
        |notice: ReminderView| notice.task_id == id && notice.threshold == threshold,
    );
}

/// Among the reminders of one task, those for a given id and threshold are
/// one reminder if the task has that id and the threshold is configured and
/// fires, and none otherwise.
proof fn lemma_reminders_named_for_task(
    task: TaskView,
    thresholds: Seq<i64>,
    now: i64,
    id: Seq<char>,
    threshold: i64,
)
    requires
        thresholds.no_duplicates(),
    ensures
        reminders_named(reminders_for(task, thresholds, now), id, threshold) == if task.id == id
            && thresholds.contains(threshold) && reminder_fires(task, threshold, now) {
            seq![reminder_of(task, threshold)]
        } else {
            Seq::<ReminderView>::empty()
        },
    decreases thresholds.len(),
{
    reveal(Seq::filter);
    if thresholds.len() > 0 {
        let front = thresholds.drop_last();
        let last = thresholds.last();
        assert(thresholds =~= front.push(last));
        lemma_reminders_named_for_task(task, front, now, id, threshold);
        lemma_reminders_for_push(task, front, last, now);
        if reminder_fires(task, last, now) {
            let notices = reminders_for(task, front, now);
            assert(notices.push(reminder_of(task, last)).drop_last() =~= notices);
        }
    }
}

/// In a state without repeated ids, and with no threshold configured twice,
/// the reminders that go out at one clock reading for a task and a threshold
/// are one reminder if the threshold is configured and fires, and none
/// otherwise.
pub proof fn lemma_reminders_for_task_and_threshold(
    tasks: Seq<TaskView>,
    thresholds: Seq<i64>,
    now: i64,
    id: Seq<char>,
    threshold: i64,
)
    requires
        distinct_ids(tasks),
        thresholds.no_duplicates(),
    ensures
        reminders_named(reminders(tasks, thresholds, now), id, threshold) == match find(tasks, id) {
            Some(task) => if thresholds.contains(threshold) && reminder_fires(
                task,
                threshold,
                now,
            ) {
                seq![reminder_of(task, threshold)]
            } else {
                Seq::<ReminderView>::empty()
            },
            None => Seq::<ReminderView>::empty(),
        },
    decreases tasks.len(),
{
    if tasks.len() > 0 {
        let front = tasks.drop_last();
        let last = tasks.last();
        assert(tasks =~= front.push(last));
        lemma_find_push(front, last, id);
        lemma_reminders_for_task_and_threshold(front, thresholds, now, id, threshold);
        lemma_reminders_push(front, last, thresholds, now);
        lemma_reminders_named_add(
            reminders(front, thresholds, now),
            reminders_for(last, thresholds, now),
            id,
            threshold,
        );
        lemma_reminders_named_for_task(last, thresholds, now, id, threshold);
    }
}

/// The reminder for a threshold goes out for a task at one clock reading
/// and no other, and only while the task is pending: never for a task that
/// was cancelled or has run.
pub proof fn lemma_reminder_fires_at_one_reading(
    task: TaskView,
    threshold: i64,
    now: i64,
    other: i64,
)
    ensures
        reminder_fires(task, threshold, now) ==> task.status is Pending && now == task.execute_at
            - threshold,
        reminder_fires(task, threshold, now) && reminder_fires(task, threshold, other) ==> now
            == other,
        !(task.status is Pending) ==> !reminder_fires(task, threshold, now),
{
}

/// With a tick every second, matching the time left exactly is the same as
/// catching it within one period of the threshold: a reminder fires where
/// the task is pending and the time left is at most the threshold and more
/// than the threshold less one period.
pub proof fn lemma_reminder_window(task: TaskView, threshold: i64, now: i64)
    ensures
        reminder_fires(task, threshold, now) <==> task.status is Pending && threshold
            - TICK_PERIOD_SECONDS < task.execute_at - now <= threshold,
{
}

/// Over two ticks at different clock readings, at most one reminder goes
/// out for a task and a threshold, whatever was done to the scheduler between
/// the two. None goes out for a task that is cancelled.
///
/// Two ticks that read the same second are left out: both send the
/// reminder.
pub proof fn lemma_reminder_never_twice(
    before: Seq<TaskView>,
    after: Seq<TaskView>,
    thresholds: Seq<i64>,
    first: i64,
    second: i64,
    j: int,
    threshold: i64,
)
    requires
        distinct_ids(before),
        distinct_ids(after),
        advances(before, after),
        thresholds.no_duplicates(),
        0 <= j < before.len(),
        first != second,
    ensures
        reminders_named(reminders(before, thresholds, first), before[j].id, threshold).len()
            + reminders_named(reminders(after, thresholds, second), before[j].id, threshold).len()
            <= 1,
        before[j].status is Cancelled ==> reminders_named(
            reminders(before, thresholds, first),
            before[j].id,
            threshold,
        ).len() + reminders_named(
            reminders(after, thresholds, second),
            before[j].id,
            threshold,
        ).len() == 0,
{
    let id = before[j].id;
    lemma_final_states_stay(before, after, j);
    lemma_found_is_named(before, id, j);
    lemma_found_is_named(after, id, j);
    lemma_reminders_for_task_and_threshold(before, thresholds, first, id, threshold);
    lemma_reminders_for_task_and_threshold(after, thresholds, second, id, threshold);
}

} // verus!
