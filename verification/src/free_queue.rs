//! The bounded queue of idle engines, kept in a `crossbeam_channel` channel.

use vstd::prelude::*;
use crossbeam_channel::{Receiver, Sender};

verus! {

/// The sending end of a `crossbeam_channel` channel.
#[verifier::external_type_specification]
#[verifier::external_body]
#[verifier::reject_recursive_types(T)]
pub struct ExSender<T>(Sender<T>);

/// The receiving end of a `crossbeam_channel` channel.
#[verifier::external_type_specification]
#[verifier::external_body]
#[verifier::reject_recursive_types(T)]
pub struct ExReceiver<T>(Receiver<T>);

/// The messages waiting in the channel that `consumer` receives from, oldest first.
pub uninterp spec fn channel_items(consumer: Receiver<usize>) -> Seq<usize>;

/// The capacity that the channel of `consumer` was made with.
pub uninterp spec fn channel_limit(consumer: Receiver<usize>) -> nat;

/// Whether `producer` and `consumer` are the two ends that one call of `bounded` returned.
pub uninterp spec fn channel_ends(producer: Sender<usize>, consumer: Receiver<usize>) -> bool;

/// The largest capacity a queue is made with. The channel keeps its indices
/// in one machine word, which has to hold twice the power of two above the
/// capacity; this bound leaves room for that on a 32-bit machine too.
pub const MAX_QUEUE_CAPACITY: usize = 0x3fff_ffff;

/// A bounded first-in first-out queue of engine ids. Its two ends never
/// leave the struct, so nothing else sends into the channel or receives from
/// it, and neither end is dropped before the other.
pub struct FreeQueue {
    pub(crate) producer: Sender<usize>,
    pub(crate) consumer: Receiver<usize>,
}

impl FreeQueue {
    /// The ids waiting in the queue, oldest first.
    pub open(crate) spec fn view(&self) -> Seq<usize> {
        channel_items(self.consumer)
    }

    /// The number of ids the queue can hold.
    pub open(crate) spec fn limit(&self) -> nat {
        channel_limit(self.consumer)
    }

    /// Both ends belong to one channel and the contents fit its capacity.
    pub open(crate) spec fn wf(&self) -> bool {
        &&& channel_ends(self.producer, self.consumer)
        &&& 0 < channel_limit(self.consumer) <= MAX_QUEUE_CAPACITY
        &&& channel_items(self.consumer).len() <= channel_limit(self.consumer)
    }

    /// Calls `crossbeam_channel::bounded`. For a capacity above zero the crate
    /// builds an array channel of that capacity, empty, and returns its two ends.
    /// The bound on `limit` keeps the crate's index arithmetic from panicking.
    #[verifier::external_body]
    pub(crate) fn bounded(limit: usize) -> (q: FreeQueue)
        requires
            0 < limit <= MAX_QUEUE_CAPACITY,
        ensures
            channel_ends(q.producer, q.consumer),
            channel_items(q.consumer) == Seq::<usize>::empty(),
            channel_limit(q.consumer) == limit,
    {
        let (producer, consumer) = crossbeam_channel::bounded(limit);
        FreeQueue { producer, consumer }
    }

    /// Calls `Sender::len`: the number of messages in the channel.
    #[verifier::external_body]
    pub(crate) fn len(&self) -> (n: usize)
        requires
            channel_ends(self.producer, self.consumer),
        ensures
            n == channel_items(self.consumer).len(),
    {
        self.producer.len()
    }

    /// Calls `Sender::try_send`. With the receiving end alive the message is
    /// appended unless the channel already holds as many as its capacity, in
    /// which case nothing changes.
    #[verifier::external_body]
    pub(crate) fn try_send(&mut self, id: usize) -> (sent: bool)
        requires
            channel_ends(old(self).producer, old(self).consumer),
        ensures
            sent <==> channel_items(old(self).consumer).len() < channel_limit(old(self).consumer),
            sent ==> channel_items(final(self).consumer) == channel_items(old(self).consumer).push(id),
            !sent ==> channel_items(final(self).consumer) == channel_items(old(self).consumer),
            channel_limit(final(self).consumer) == channel_limit(old(self).consumer),
            channel_ends(final(self).producer, final(self).consumer),
    {
        self.producer.try_send(id).is_ok()
    }

    /// Calls `Receiver::try_recv`. With the sending end alive the oldest message
    /// is taken out and returned, or nothing changes when the channel is empty.
    #[verifier::external_body]
    pub(crate) fn try_recv(&mut self) -> (got: Option<usize>)
        requires
            channel_ends(old(self).producer, old(self).consumer),
        ensures
            got is Some <==> channel_items(old(self).consumer).len() > 0,
            got is Some ==> got == Some(channel_items(old(self).consumer)[0])
                && channel_items(final(self).consumer) == channel_items(old(self).consumer).drop_first(),
            got is None ==> channel_items(final(self).consumer) == channel_items(old(self).consumer),
            channel_limit(final(self).consumer) == channel_limit(old(self).consumer),
            channel_ends(final(self).producer, final(self).consumer),
    {
        self.consumer.try_recv().ok()
    }
}

} // verus!
