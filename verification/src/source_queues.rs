//! The table from each source of calls to the scheduler queue that
//! serialises them.

use vstd::prelude::*;
use std::collections::HashMap;

verus! {

broadcast use vstd::std_specs::hash::group_hash_axioms;

/// The table after the queue of `src` has been asked for, and that queue:
/// the one that the table has, or else `fresh`, which the table then has
/// too.
pub open spec fn queue_for(table: Map<usize, isize>, src: usize, fresh: isize) -> (Map<
    usize,
    isize,
>, isize) {
    if table.contains_key(src) {
        (table, table[src])
    } else {
        (table.insert(src, fresh), fresh)
    }
}

/// The queue of each source that has one.
pub struct SourceQueues {
    queues: HashMap<usize, isize>,
}

impl View for SourceQueues {
    type V = Map<usize, isize>;

    closed spec fn view(&self) -> Map<usize, isize> {
        self.queues@
    }
}

impl SourceQueues {
    /// A table without sources.
    pub fn new() -> (table: SourceQueues)
        ensures
            table@ == Map::<usize, isize>::empty(),
    {
        SourceQueues { queues: HashMap::new() }
    }

    /// The queue of `src`, if it has one.
    pub fn get(&self, src: usize) -> (queue: Option<isize>)
        ensures
            queue == if self@.contains_key(src) {
                Some(self@[src])
            } else {
                None
            },
    {
        match self.queues.get(&src) {
            Some(q) => Some(*q),
            None => None,
        }
    }

    /// Gives `src` the queue `queue`.
    pub(crate) fn insert(&mut self, src: usize, queue: isize)
        ensures
            final(self)@ == old(self)@.insert(src, queue),
    {
        self.queues.insert(src, queue);
    }

    /// Takes `src` out of the table, and returns the queue it had.
    pub(crate) fn remove(&mut self, src: usize) -> (queue: Option<isize>)
        ensures
            final(self)@ == old(self)@.remove(src),
            queue == if old(self)@.contains_key(src) {
                Some(old(self)@[src])
            } else {
                None
            },
    {
        self.queues.remove(&src)
    }
}

/// Asking twice gives one queue: once a source has been asked for, asking
/// again returns the same queue and leaves the table alone, whatever fresh
/// queue is at hand.
pub proof fn lemma_queue_for_idempotent(
    table: Map<usize, isize>,
    src: usize,
    first: isize,
    second: isize,
)
    ensures
        queue_for(queue_for(table, src, first).0, src, second) == queue_for(table, src, first),
{
}

} // verus!
