//! The errors that the scheduler reports to its callers.

use vstd::prelude::*;

verus! {

/// Why a scheduler operation was refused.
///
/// Every variant is an error of the caller's input. None is transient, and
/// none changes the scheduler's state.
#[derive(Clone, Copy, Debug, PartialEq, Eq, Structural)]
pub enum SchedulerError {
    /// The requested time is not later than the clock reading.
    InvalidSchedule,
    /// No task has the given id.
    NotFound,
    /// The task is no longer pending.
    InvalidState,
    /// The id offered for a new task already names a task.
    DuplicateId,
}

impl SchedulerError {
    /// The text of each message, as a sequence of characters.
    pub open spec fn spec_message(self) -> Seq<char> {
        match self {
            SchedulerError::InvalidSchedule => "执行时间必须晚于当前时间"@,
            SchedulerError::NotFound => "任务不存在"@,
            SchedulerError::InvalidState => "只能取消待执行的任务"@,
            SchedulerError::DuplicateId => "任务标识已被占用"@,
        }
    }

    /// The message shown to the user for this error.
    pub fn message(&self) -> (text: String)
        ensures
            text@ == self.spec_message(),
    {
        match self {
            SchedulerError::InvalidSchedule => "执行时间必须晚于当前时间".to_owned(),
            SchedulerError::NotFound => "任务不存在".to_owned(),
            SchedulerError::InvalidState => "只能取消待执行的任务".to_owned(),
            SchedulerError::DuplicateId => "任务标识已被占用".to_owned(),
        }
    }
}

} // verus!
