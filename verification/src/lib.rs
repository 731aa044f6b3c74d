//! A single-process, in-memory scheduler for one-shot system actions.
//!
//! A task names an action (shutdown, restart, sleep, hibernate, lock) and
//! the second at which it falls due. The scheduler owns the tasks, shows
//! them with the time that is left, lets a pending task be cancelled, and on
//! every tick reports the reminders to send and the actions to dispatch.
//! Every task is dispatched at most once, and none after it was cancelled.
//!
//! Time is counted in whole seconds since the epoch. Each operation comes in
//! two forms: one that takes the clock reading as an argument, and one that
//! reads the clock itself. Nothing here sleeps, spawns or starts a program:
//! the caller runs the tick on its own timer and carries out what the tick
//! reports.
//!
//! - [`task`]: tasks, their states, and what callers are shown of them.
//! - [`model`]: the scheduler as a state machine over sequences of tasks.
//! - [`scheduler`]: the scheduler itself, proved against the model.
//! - [`laws`]: what holds of the model whatever is asked of it.
//! - [`events`]: the orders and reminders that a tick hands out.
//! - [`error`]: the errors of the scheduler.
//! - [`ident`]: the ids that tasks are given.
//! - [`settings`]: the user's settings and their defaults.
//! - [`system`]: the command line that carries out an action on a platform.

mod clock;
pub mod error;
pub mod events;
pub mod ident;
pub mod laws;
pub mod model;
pub mod scheduler;
pub mod settings;
pub mod system;
pub mod task;
