//! What a tick hands to the outside: actions to dispatch and reminders to send.

use vstd::prelude::*;

verus! {

/// The mathematical value of a [`Dispatch`].
pub struct DispatchView {
    pub task_id: Seq<char>,
    pub action: Seq<char>,
}

/// An order to carry out the action of a task that has fallen due.
///
/// The scheduler issues it once. Whether the action succeeds is not reported
/// back, and changes nothing in the scheduler.
#[derive(Debug, Clone)]
pub struct Dispatch {
    pub task_id: String,
    pub action: String,
}

impl View for Dispatch {
    type V = DispatchView;

    open spec fn view(&self) -> DispatchView {
        DispatchView { task_id: self.task_id@, action: self.action@ }
    }
}

impl DeepView for Dispatch {
    type V = DispatchView;

    open spec fn deep_view(&self) -> DispatchView {
        self@
    }
}

/// The mathematical value of a [`Reminder`].
pub struct ReminderView {
    pub task_id: Seq<char>,
    pub action: Seq<char>,
    pub threshold: i64,
}

/// A notice that a pending task is exactly `threshold` seconds from due.
#[derive(Debug, Clone)]
pub struct Reminder {
    pub task_id: String,
    pub action: String,
    pub threshold: i64,
}

impl View for Reminder {
    type V = ReminderView;

    open spec fn view(&self) -> ReminderView {
        ReminderView { task_id: self.task_id@, action: self.action@, threshold: self.threshold }
    }
}

impl DeepView for Reminder {
    type V = ReminderView;

    open spec fn deep_view(&self) -> ReminderView {
        self@
    }
}

/// The mathematical value of a [`TickOutcome`].
pub struct TickOutcomeView {
    pub reminders: Seq<ReminderView>,
    pub dispatches: Seq<DispatchView>,
}

/// Everything one tick asks of the outside.
#[derive(Debug, Clone)]
pub struct TickOutcome {
    pub reminders: Vec<Reminder>,
    pub dispatches: Vec<Dispatch>,
}

impl View for TickOutcome {
    type V = TickOutcomeView;

    open spec fn view(&self) -> TickOutcomeView {
        TickOutcomeView {
            reminders: self.reminders.deep_view(),
            dispatches: self.dispatches.deep_view(),
        }
    }
}

} // verus!
