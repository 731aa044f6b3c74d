//! Tasks, their states, and the projection that callers see.

use vstd::prelude::*;

verus! {

/// Where a task stands in its life.
///
/// ```text
/// Pending --cancel--> Cancelled
/// Pending --due--> Executing --dispatched--> Completed
/// ```
///
/// `Completed` and `Cancelled` are final, and nothing leads back to `Pending`.
#[derive(Clone, Copy, Debug, PartialEq, Eq, Structural)]
pub enum TaskStatus {
    Pending,
    Executing,
    Completed,
    Cancelled,
}

impl TaskStatus {
    /// The tag under which a status is shown: its name in lower case.
    pub open spec fn spec_tag(self) -> Seq<char> {
        match self {
            TaskStatus::Pending => "pending"@,
            TaskStatus::Executing => "executing"@,
            TaskStatus::Completed => "completed"@,
            TaskStatus::Cancelled => "cancelled"@,
        }
    }

    /// Whether a task in state `self` may pass to `next` in one transition.
    pub open spec fn steps_to(self, next: TaskStatus) -> bool {
        match self {
            TaskStatus::Pending => next is Cancelled || next is Executing,
            TaskStatus::Executing => next is Completed,
            TaskStatus::Completed => false,
            TaskStatus::Cancelled => false,
        }
    }

    /// Whether a task in state `self` can later be found in state `later`,
    /// after any number of transitions. Everything can be reached from
    /// `Pending`; from `Executing` only `Completed`; from a final state
    /// nothing but itself.
    pub open spec fn reaches(self, later: TaskStatus) -> bool {
        self == later || self is Pending || (self is Executing && later is Completed)
    }

    /// Whether no transition leaves this state.
    pub open spec fn is_final(self) -> bool {
        self is Completed || self is Cancelled
    }

    /// The tag under which this status is shown.
    pub fn tag(&self) -> (tag: &'static str)
        ensures
            tag@ == self.spec_tag(),
    {
        match self {
            TaskStatus::Pending => "pending",
            TaskStatus::Executing => "executing",
            TaskStatus::Completed => "completed",
            TaskStatus::Cancelled => "cancelled",
        }
    }
}

/// The mathematical value of a [`Task`].
pub struct TaskView {
    pub id: Seq<char>,
    pub action: Seq<char>,
    pub execute_at: i64,
    pub status: TaskStatus,
}

impl TaskView {
    /// The same task in another state.
    pub open spec fn with_status(self, status: TaskStatus) -> TaskView {
        TaskView { status, ..self }
    }
}

/// One scheduled action: what to do, when, and how far it has come.
///
/// The id, the action and the time are fixed when the task is made. Only the
/// status changes afterwards.
#[derive(Debug)]
pub struct Task {
    id: String,
    action: String,
    execute_at: i64,
    status: TaskStatus,
}

impl View for Task {
    type V = TaskView;

    closed spec fn view(&self) -> TaskView {
        TaskView {
            id: self.id@,
            action: self.action@,
            execute_at: self.execute_at,
            status: self.status,
        }
    }
}

impl DeepView for Task {
    type V = TaskView;

    open spec fn deep_view(&self) -> TaskView {
        self@
    }
}

impl Task {
    /// A new task, pending.
    pub fn new(id: String, action: String, execute_at: i64) -> (task: Task)
        ensures
            task@ == (TaskView {
                id: id@,
                action: action@,
                execute_at,
                status: TaskStatus::Pending,
            }),
    {
        Task { id, action, execute_at, status: TaskStatus::Pending }
    }

    /// The id that names the task.
    pub fn id(&self) -> (id: &str)
        ensures
            id@ == self@.id,
    {
        self.id.as_str()
    }

    /// Whether the task is named `id`.
    pub fn is_named(&self, id: &String) -> (named: bool)
        ensures
            named == (self@.id == id@),
    {
        self.id == *id
    }

    /// The action that the task asks for.
    pub fn action(&self) -> (action: &str)
        ensures
            action@ == self@.action,
    {
        self.action.as_str()
    }

    /// The second, counted from the epoch, at which the task falls due.
    pub fn execute_at(&self) -> (execute_at: i64)
        ensures
            execute_at == self@.execute_at,
    {
        self.execute_at
    }

    /// The state the task is in.
    pub fn status(&self) -> (status: TaskStatus)
        ensures
            status == self@.status,
    {
        self.status
    }

    /// Moves the task to `status`. The scheduler alone decides when.
    pub(crate) fn set_status(&mut self, status: TaskStatus)
        ensures
            final(self)@ == old(self)@.with_status(status),
    {
        self.status = status;
    }
}

/// The mathematical value of a [`TaskInfo`].
pub struct TaskInfoView {
    pub id: Seq<char>,
    pub action: Seq<char>,
    pub execute_at: i64,
    pub status: Seq<char>,
    pub remaining_seconds: i64,
}

/// What a caller is shown of a task at one moment.
///
/// `status` is one of `pending`, `executing`, `completed`, `cancelled`.
/// `remaining_seconds` is derived from the clock at the time of the query and
/// is stored nowhere.
#[derive(Debug, Clone)]
pub struct TaskInfo {
    pub id: String,
    pub action: String,
    pub execute_at: i64,
    pub status: String,
    pub remaining_seconds: i64,
}

impl View for TaskInfo {
    type V = TaskInfoView;

    open spec fn view(&self) -> TaskInfoView {
        TaskInfoView {
            id: self.id@,
            action: self.action@,
            execute_at: self.execute_at,
            status: self.status@,
            remaining_seconds: self.remaining_seconds,
        }
    }
}

impl DeepView for TaskInfo {
    type V = TaskInfoView;

    open spec fn deep_view(&self) -> TaskInfoView {
        self@
    }
}

/// The seconds left until `execute_at`, seen at `now`: never negative, and
/// never more than an `i64` holds.
pub open spec fn remaining_seconds(execute_at: i64, now: i64) -> i64 {
    if execute_at <= now {
        0
    } else if execute_at - now > i64::MAX {
        i64::MAX
    } else {
        (execute_at - now) as i64
    }
}

/// What a caller is shown of `task` at `now`.
pub open spec fn task_info(task: TaskView, now: i64) -> TaskInfoView {
    TaskInfoView {
        id: task.id,
        action: task.action,
        execute_at: task.execute_at,
        status: task.status.spec_tag(),
        remaining_seconds: remaining_seconds(task.execute_at, now),
    }
}

impl Task {
    /// What a caller is shown of the task at `now`.
    pub fn info_at(&self, now: i64) -> (info: TaskInfo)
        ensures
            info@ == task_info(self@, now),
    {
        let remaining_seconds = if self.execute_at <= now {
            0
        } else {
            match self.execute_at.checked_sub(now) {
                Some(left) => left,
                None => i64::MAX,
            }
        };
        TaskInfo {
            id: self.id.clone(),
            action: self.action.clone(),
            execute_at: self.execute_at,
            status: self.status.tag().to_owned(),
            remaining_seconds,
        }
    }
}

} // verus!
