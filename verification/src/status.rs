//! The interpreter's status tokens, and the two status primitives the
//! coordinator relies on: a probe and an atomic compare-and-switch.

use vstd::prelude::*;

verus! {

/// The status of one engine, as far as the host can see it.
#[derive(Clone, Copy, Debug, PartialEq, Eq, Structural)]
pub enum JSStatus {
    /// Idle: nothing is running.
    NoTask,
    /// A synchronous call is running.
    SingleTask,
    /// Paused with its value stack kept, waiting for a result or a global.
    MultiTask,
    /// A block has been announced, the interpreter has not yielded yet.
    WaitBlock,
    /// The synchronous part is over, queued callbacks are awaited.
    WaitCallBack,
}

impl JSStatus {
    /// What a probe for `wanted` answers on an engine in status `self`:
    /// positive exactly when the two agree.
    pub open spec fn probe(self, wanted: JSStatus) -> int {
        if self == wanted {
            1
        } else {
            0
        }
    }

    /// The status after a compare-and-switch from `from` to `to`.
    pub open spec fn switched(self, from: JSStatus, to: JSStatus) -> JSStatus {
        if self == from {
            to
        } else {
            self
        }
    }

    /// Probes the status: a positive number when it is `wanted`, zero otherwise.
    pub fn status_check(&self, wanted: JSStatus) -> (answer: i32)
        ensures
            answer == self.probe(wanted),
    {
        if *self == wanted {
            1
        } else {
            0
        }
    }

    /// Switches the status to `to` when it is `from`, and leaves it otherwise.
    /// Returns the status found.
    pub fn status_switch(&mut self, from: JSStatus, to: JSStatus) -> (found: JSStatus)
        ensures
            found == *old(self),
            *final(self) == old(self).switched(from, to),
    {
        let found = *self;
        if found == from {
            *self = to;
        }
        found
    }
}

} // verus!
