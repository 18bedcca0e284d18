//! What the host asks of the task scheduler.

use vstd::prelude::*;

verus! {

/// The priority of an engine task that is bound to no queue.
pub const JS_TASK_PRIORITY: usize = 100;

/// The two kinds of scheduler task, each with the scheduler's own flag.
#[derive(Clone, Copy, Debug, PartialEq, Eq, Structural)]
pub enum TaskType {
    /// Runs on any worker, in no fixed order.
    Async(bool),
    /// Runs on a queue, in the order of posting.
    Sync(bool),
}

/// One task to hand to the scheduler.
#[derive(Debug)]
pub struct TaskPost {
    /// The kind of task.
    pub kind: TaskType,
    /// Its priority.
    pub priority: usize,
    /// The queue it is bound to, if any.
    pub queue: Option<isize>,
    /// A tag for diagnostics.
    pub info: String,
}

} // verus!
