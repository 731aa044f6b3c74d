//! The scheduler: the tasks and the operations on them.

use vstd::prelude::*;
use crate::clock::current_timestamp;
use crate::error::SchedulerError;
use crate::events::{Dispatch, Reminder, TickOutcome};
use crate::ident::{fresh_task_id, is_random_uuid_text};
use crate::model::{
    after_cancel, after_complete, after_create, after_execute, after_promote, cancel_outcome,
    create_outcome, dispatches, distinct_ids, find, has_id, lemma_dispatches_push,
    lemma_found_is_named, lemma_names_task_push, lemma_promote_then_complete,
    lemma_reminders_for_push, lemma_reminders_push, names_task, pending_task, reminder_of,
    reminders, reminders_for, task_infos,
};
use crate::task::{Task, TaskInfo, TaskStatus, TaskView};

verus! {

/// An `Ok` that holds an id, with the id as a sequence of characters.
pub open spec fn id_view(answer: Result<String, SchedulerError>) -> Result<
    Seq<char>,
    SchedulerError,
> {
    match answer {
        Ok(id) => Ok(id@),
        Err(error) => Err(error),
    }
}

/// The seconds from one tick to the next. A task is promoted by the first
/// tick at or after its time, so none waits longer than this.
pub const TICK_PERIOD_SECONDS: u64 = 1;

/// The tasks of one process, in the order in which they were created.
///
/// Tasks are added by creation and never removed. No two share an id.
#[derive(Debug)]
pub struct TaskScheduler {
    tasks: Vec<Task>,
}

impl View for TaskScheduler {
    type V = Seq<TaskView>;

    closed spec fn view(&self) -> Seq<TaskView> {
        self.tasks.deep_view()
    }
}

impl TaskScheduler {
    /// Whether this scheduler is well formed: no two tasks share an id.
    pub open spec fn wf(&self) -> bool {
        distinct_ids(self@)
    }

    /// A scheduler without tasks.
    pub fn new() -> (scheduler: Self)
        ensures
            scheduler.wf(),
            scheduler@ == Seq::<TaskView>::empty(),
    {
        let scheduler = TaskScheduler { tasks: Vec::new() };
        scheduler
    }

    /// The number of tasks, whatever their state.
    pub fn len(&self) -> (len: usize)
        ensures
            len == self@.len(),
    {
        self.tasks.len()
    }

    /// The place of the first task named `id`.
    fn index_of(&self, id: &str) -> (found: Option<usize>)
        ensures
            match found {
                Some(i) => i < self@.len() && self@[i as int].id == id@,
                None => !has_id(self@, id@),
            },
    {
        let wanted = id.to_owned();
        let mut i: usize = 0;
        while i < self.tasks.len()
            invariant
                i <= self.tasks.len(),
                wanted@ == id@,
                forall|j: int| 0 <= j < i ==> (#[trigger] self@[j]).id != id@,
            decreases self.tasks.len() - i,
        {
            if self.tasks[i].is_named(&wanted) {
                return Some(i);
            }
            i += 1;
        }
        None
    }

    /// Looks up the task named `task_id`. Fails with `NotFound` where no
    /// task has that id. Nothing is changed.
    pub fn find_task(&self, task_id: &str) -> (answer: Result<&Task, SchedulerError>)
        requires
            self.wf(),
        ensures
            match answer {
                Ok(task) => find(self@, task_id@) == Some(task@),
                Err(error) => error == SchedulerError::NotFound && find(self@, task_id@) is None,
            },
    {
        match self.index_of(task_id) {
            None => Err(SchedulerError::NotFound),
            Some(i) => {
                proof {
                    lemma_found_is_named(self@, task_id@, i as int);
                }
                Ok(&self.tasks[i])
            },
        }
    }

    /// Creates a task for `action` at `execute_at`, with `now` as the clock
    /// reading and `id` as the id to give it.
    ///
    /// A time that is not later than `now` is refused, and so is an id that
    /// already names a task. Otherwise the task is added, pending, and its id
    /// is returned.
    pub fn create_task_at(&mut self, action: String, execute_at: i64, now: i64, id: String) -> (answer:
        Result<String, SchedulerError>)
        requires
            old(self).wf(),
        ensures
            final(self).wf(),
            id_view(answer) == create_outcome(old(self)@, id@, execute_at, now),
            final(self)@ == after_create(old(self)@, id@, action@, execute_at, now),
    {
        if execute_at <= now {
            return Err(SchedulerError::InvalidSchedule);
        }
        if self.index_of(id.as_str()).is_some() {
            return Err(SchedulerError::DuplicateId);
        }
        let ghost before = self@;
        let task = Task::new(id.clone(), action, execute_at);
        self.tasks.push(task);
        proof {
            assert(self@ =~= before.push(pending_task(id@, action@, execute_at)));
        }
        Ok(id)
    }

    /// Creates a task for `action` at `execute_at`: reads the clock, makes
    /// a fresh id, and proceeds as [`TaskScheduler::create_task_at`] does.
    ///
    /// The clock and the id are not in the caller's hands, so what is
    /// promised holds for some reading that is not negative and some id in
    /// the shape of a random UUID. It follows that a time of zero or less is
    /// always refused, that a refusal changes nothing, and that the id of a
    /// created task names no earlier task.
    pub fn create_task(&mut self, action: String, execute_at: i64) -> (answer: Result<
        String,
        SchedulerError,
    >)
        requires
            old(self).wf(),
        ensures
            final(self).wf(),
            exists|now: i64, id: Seq<char>|
                0 <= now && is_random_uuid_text(id) && id_view(answer) == #[trigger] create_outcome(
                    old(self)@,
                    id,
                    execute_at,
                    now,
                ) && final(self)@ == after_create(old(self)@, id, action@, execute_at, now),
    {
        let now = current_timestamp();
        let id = fresh_task_id();
        self.create_task_at(action, execute_at, now, id)
    }

    /// Cancels the task named `task_id`.
    ///
    /// Fails with `NotFound` where no task has that id, and with
    /// `InvalidState` where the task is no longer pending: a second
    /// cancellation fails. Otherwise the task is cancelled.
    pub fn cancel_task(&mut self, task_id: &str) -> (answer: Result<(), SchedulerError>)
        requires
            old(self).wf(),
        ensures
            final(self).wf(),
            answer == cancel_outcome(old(self)@, task_id@),
            final(self)@ == after_cancel(old(self)@, task_id@),
    {
        match self.index_of(task_id) {
            None => Err(SchedulerError::NotFound),
            Some(i) => {
                proof {
                    lemma_found_is_named(self@, task_id@, i as int);
                }
                if self.tasks[i].status() == TaskStatus::Pending {
                    let ghost before = self@;
                    self.tasks[i].set_status(TaskStatus::Cancelled);
                    proof {
                        assert(self@ =~= before.update(
                            i as int,
                            before[i as int].with_status(TaskStatus::Cancelled),
                        ));
                    }
                    Ok(())
                } else {
                    Err(SchedulerError::InvalidState)
                }
            },
        }
    }

    /// What callers are shown of every task at the clock reading `now`, in
    /// the order in which the tasks were created. Nothing is changed.
    pub fn get_tasks_at(&self, now: i64) -> (infos: Vec<TaskInfo>)
        ensures
            infos.deep_view() == task_infos(self@, now),
    {
        let mut infos: Vec<TaskInfo> = Vec::new();
        let mut i: usize = 0;
        while i < self.tasks.len()
            invariant
                i <= self.tasks.len(),
                infos.len() == i,
                forall|j: int| 0 <= j < i ==> (#[trigger] infos[j])@ == task_infos(self@, now)[j],
            decreases self.tasks.len() - i,
        {
            infos.push(self.tasks[i].info_at(now));
            i += 1;
        }
        infos
    }

    /// What callers are shown of every task now: reads the clock and
    /// proceeds as [`TaskScheduler::get_tasks_at`] does. Nothing is changed.
    pub fn get_tasks(&self) -> (infos: Vec<TaskInfo>)
        ensures
            exists|now: i64| 0 <= now && infos.deep_view() == #[trigger] task_infos(self@, now),
    {
        let now = current_timestamp();
        self.get_tasks_at(now)
    }

    /// Promotes every task that is due at `now` from pending to executing,
    /// and returns one order for each, in the order of the tasks.
    ///
    /// A task that is executing, completed or cancelled is left alone, so no
    /// task is ever ordered twice.
    pub fn promote_due(&mut self, now: i64) -> (orders: Vec<Dispatch>)
        requires
            old(self).wf(),
        ensures
            final(self).wf(),
            final(self)@ == after_promote(old(self)@, now),
            orders.deep_view() == dispatches(old(self)@, now),
    {
        let ghost before = self@;
        let mut orders: Vec<Dispatch> = Vec::new();
        let mut i: usize = 0;
        while i < self.tasks.len()
            invariant
                i <= self.tasks.len(),
                self@.len() == before.len(),
                forall|j: int| 0 <= j < i ==> (#[trigger] self@[j]) == after_promote(before, now)[j],
                forall|j: int| i <= j < before.len() ==> (#[trigger] self@[j]) == before[j],
                orders.deep_view() == dispatches(before.take(i as int), now),
            decreases self.tasks.len() - i,
        {
            proof {
                assert(self@[i as int] == before[i as int]);
                assert(before.take(i + 1) =~= before.take(i as int).push(before[i as int]));
                lemma_dispatches_push(before.take(i as int), before[i as int], now);
            }
            if self.tasks[i].status() == TaskStatus::Pending && self.tasks[i].execute_at() <= now {
                let order = Dispatch {
                    task_id: self.tasks[i].id().to_owned(),
                    action: self.tasks[i].action().to_owned(),
                };
                let ghost state = self@;
                self.tasks[i].set_status(TaskStatus::Executing);
                orders.push(order);
                proof {
                    assert(self@ =~= state.update(
                        i as int,
                        state[i as int].with_status(TaskStatus::Executing),
                    ));
                }
            }
            i += 1;
        }
        proof {
            assert(before.take(i as int) =~= before);
        }
        orders
    }

    /// Records that `orders` have gone out: each executing task that one of
    /// them names is completed.
    ///
    /// Completion does not wait for the action to finish, and does not
    /// depend on whether it succeeds. An order that names no executing task
    /// changes nothing.
    pub fn complete_dispatched(&mut self, orders: &Vec<Dispatch>)
        requires
            old(self).wf(),
        ensures
            final(self).wf(),
            final(self)@ == after_complete(old(self)@, orders.deep_view()),
    {
        let ghost before = self@;
        let ghost all = orders.deep_view();
        let mut k: usize = 0;
        while k < orders.len()
            invariant
                k <= orders.len(),
                all == orders.deep_view(),
                distinct_ids(before),
                self@ == after_complete(before, all.take(k as int)),
            decreases orders.len() - k,
        {
            let ghost state = self@;
            let ghost done = all.take(k as int);
            let ghost order = all[k as int];
            proof {
                assert(all.take(k + 1) =~= done.push(order));
                assert forall|j: int| 0 <= j < before.len() implies (names_task(
                    done.push(order),
                    (#[trigger] before[j]).id,
                ) <==> names_task(done, before[j].id) || order.task_id == before[j].id) by {
                    lemma_names_task_push(done, order, before[j].id);
                }
            }
            if let Some(i) = self.index_of(orders[k].task_id.as_str()) {
                if self.tasks[i].status() == TaskStatus::Executing {
                    self.tasks[i].set_status(TaskStatus::Completed);
                    proof {
                        assert(self@ =~= state.update(
                            i as int,
                            state[i as int].with_status(TaskStatus::Completed),
                        ));
                    }
                }
            }
            k += 1;
        }
        proof {
            assert(all.take(k as int) =~= all);
        }
    }

    /// One pass of execution at the clock reading `now`: every task that is
    /// due goes from pending through executing to completed, and one order
    /// is returned for each, in the order of the tasks.
    ///
    /// The caller carries the orders out. The tasks are completed as soon as
    /// the orders are issued, whatever becomes of the actions.
    pub fn check_and_execute_at(&mut self, now: i64) -> (orders: Vec<Dispatch>)
        requires
            old(self).wf(),
        ensures
            final(self).wf(),
            final(self)@ == after_execute(old(self)@, now),
            orders.deep_view() == dispatches(old(self)@, now),
    {
        let orders = self.promote_due(now);
        self.complete_dispatched(&orders);
        proof {
            lemma_promote_then_complete(old(self)@, now);
        }
        orders
    }

    /// One pass of execution now: reads the clock and proceeds as
    /// [`TaskScheduler::check_and_execute_at`] does.
    pub fn check_and_execute(&mut self) -> (orders: Vec<Dispatch>)
        requires
            old(self).wf(),
        ensures
            final(self).wf(),
            exists|now: i64|
                0 <= now && final(self)@ == #[trigger] after_execute(old(self)@, now)
                    && orders.deep_view() == dispatches(old(self)@, now),
    {
        let now = current_timestamp();
        self.check_and_execute_at(now)
    }

    /// The reminders that go out at the clock reading `now`: one for each
    /// pending task and each of `thresholds` from which the task is exactly
    /// that many seconds away. Nothing is changed.
    ///
    /// The match is exact. A threshold is passed over in silence where no
    /// tick reads the second at which it falls, and is reported again where
    /// two ticks read it.
    pub fn reminders_at(&self, now: i64, thresholds: &[i64]) -> (notices: Vec<Reminder>)
        ensures
            notices.deep_view() == reminders(self@, thresholds@, now),
    {
        let mut notices: Vec<Reminder> = Vec::new();
        let mut i: usize = 0;
        while i < self.tasks.len()
            invariant
                i <= self.tasks.len(),
                notices.deep_view() == reminders(self@.take(i as int), thresholds@, now),
            decreases self.tasks.len() - i,
        {
            let ghost earlier = notices.deep_view();
            let ghost task = self@[i as int];
            let mut k: usize = 0;
            while k < thresholds.len()
                invariant
                    i < self.tasks.len(),
                    k <= thresholds.len(),
                    task == self@[i as int],
                    notices.deep_view() == earlier + reminders_for(
                        task,
                        thresholds@.take(k as int),
                        now,
                    ),
                decreases thresholds.len() - k,
            {
                let threshold = thresholds[k];
                proof {
                    assert(thresholds@.take(k + 1) =~= thresholds@.take(k as int).push(threshold));
                    lemma_reminders_for_push(task, thresholds@.take(k as int), threshold, now);
                }
                if self.tasks[i].status() == TaskStatus::Pending && self.tasks[i].execute_at().checked_sub(
                    now,
                ) == Some(threshold) {
                    let ghost shown = notices.deep_view();
                    notices.push(
                        Reminder {
                            task_id: self.tasks[i].id().to_owned(),
                            action: self.tasks[i].action().to_owned(),
                            threshold,
                        },
                    );
                    proof {
                        assert(notices.deep_view() =~= shown.push(reminder_of(task, threshold)));
                    }
                }
                k += 1;
            }
            proof {
                assert(thresholds@.take(k as int) =~= thresholds@);
                assert(self@.take(i + 1) =~= self@.take(i as int).push(task));
                lemma_reminders_push(self@.take(i as int), task, thresholds@, now);
            }
            i += 1;
        }
        proof {
            assert(self@.take(i as int) =~= self@);
        }
        notices
    }

    /// One tick at the clock reading `now`: the reminders for the tasks as
    /// they stand, then one pass of execution.
    pub fn tick_at(&mut self, now: i64, thresholds: &[i64]) -> (outcome: TickOutcome)
        requires
            old(self).wf(),
        ensures
            final(self).wf(),
            final(self)@ == after_execute(old(self)@, now),
            outcome@.reminders == reminders(old(self)@, thresholds@, now),
            outcome@.dispatches == dispatches(old(self)@, now),
    {
        let reminders = self.reminders_at(now, thresholds);
        let dispatches = self.check_and_execute_at(now);
        TickOutcome { reminders, dispatches }
    }

    /// One tick now: reads the clock once and proceeds as
    /// [`TaskScheduler::tick_at`] does.
    pub fn tick(&mut self, thresholds: &[i64]) -> (outcome: TickOutcome)
        requires
            old(self).wf(),
        ensures
            final(self).wf(),
            exists|now: i64|
                0 <= now && final(self)@ == #[trigger] after_execute(old(self)@, now)
                    && outcome@.reminders == reminders(old(self)@, thresholds@, now)
                    && outcome@.dispatches == dispatches(old(self)@, now),
    {
        let now = current_timestamp();
        self.tick_at(now, thresholds)
    }
}

} // verus!
