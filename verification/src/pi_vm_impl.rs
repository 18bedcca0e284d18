//! The host's entry points: the queues of the sources, callbacks pushed
//! onto an engine, and the registry of asynchronous requests.

use vstd::prelude::*;
use std::sync::Arc;
use crate::channel_map::{
    request_channel, Args, ChannelMapState, Handler, VMChannel, VMChannelMap,
};
use crate::source_queues::{queue_for, SourceQueues};
use crate::status::JSStatus;
use crate::task::TaskType;

verus! {

/// The queue on which the calls of `src` are serialised. A source that has
/// no queue yet gets the one that `create` makes, which is called in that
/// case only.
pub fn new_queue<F: FnOnce() -> isize>(queues: &mut SourceQueues, src: usize, create: F) -> (queue:
    isize)
    requires
        create.requires(()),
    ensures
        (final(queues)@, queue) == queue_for(old(queues)@, src, queue),
        !old(queues)@.contains_key(src) ==> create.ensures((), queue),
{
    match queues.get(src) {
        Some(queue) => queue,
        None => {
            let queue = create();
            queues.insert(src, queue);
            queue
        },
    }
}

/// Takes the queue of `src` out of the table and has `delete` delete it.
/// Returns the queue when the source had one and `delete` succeeded; the
/// source is out of the table either way.
pub fn remove_queue<F: FnOnce(isize) -> bool>(queues: &mut SourceQueues, src: usize, delete: F) -> (removed:
    Option<isize>)
    requires
        forall|q: isize| delete.requires((q,)),
    ensures
        final(queues)@ == old(queues)@.remove(src),
        removed matches Some(q) ==> old(queues)@.contains_key(src) && q == old(queues)@[src]
            && delete.ensures((q,), true),
        removed is None && old(queues)@.contains_key(src) ==> delete.ensures(
            (old(queues)@[src],),
            false,
        ),
{
    match queues.remove(src) {
        Some(queue) => {
            if delete(queue) {
                Some(queue)
            } else {
                None
            }
        },
        None => None,
    }
}

/// What follows the push of a callback onto an engine.
#[derive(Clone, Copy, Debug, PartialEq, Eq, Structural)]
pub struct PushOutcome {
    /// The length of the engine's callback queue after the push, 0 when the
    /// push failed.
    pub count: usize,
    /// Whether to run the engine's queued callbacks now, on this thread.
    pub drain: bool,
}

/// The kind of task that carries a callback.
pub fn callback_task() -> (kind: TaskType)
    ensures
        kind == TaskType::Sync(true),
{
    TaskType::Sync(true)
}

/// Decides what follows the push of a callback. `count` is what the push
/// returned, and `found` the status that the switch from `WaitCallBack` to
/// `SingleTask` found. An engine that was waiting for callbacks has its
/// queue run at once; any other engine gets to it by itself.
pub fn push_callback(count: usize, found: JSStatus) -> (outcome: PushOutcome)
    ensures
        outcome.count == count,
        outcome.drain == (found == JSStatus::WaitCallBack),
{
    PushOutcome { count, drain: found == JSStatus::WaitCallBack }
}

/// Makes the switch that follows a push on an engine whose status is
/// `status`, and decides as `push_callback` does.
pub fn run_push(status: &mut JSStatus, count: usize) -> (outcome: PushOutcome)
    ensures
        outcome.count == count,
        outcome.drain == (*old(status) == JSStatus::WaitCallBack),
        *final(status) == old(status).switched(JSStatus::WaitCallBack, JSStatus::SingleTask),
{
    let found = status.status_switch(JSStatus::WaitCallBack, JSStatus::SingleTask);
    push_callback(count, found)
}

/// The gray value of the registry.
pub fn get_channels_gray<H>(channels: &VMChannelMap<H>) -> (gray: usize)
    ensures
        gray == channels@.gray,
{
    channels.get_gray()
}

/// Sets the gray value of the registry and returns the one before.
pub fn set_channels_gray<H>(channels: &mut VMChannelMap<H>, gray: usize) -> (previous: usize)
    ensures
        previous == old(channels)@.gray,
        final(channels)@ == (ChannelMapState { gray, ..old(channels)@ }),
        final(channels).wf() == old(channels).wf(),
{
    channels.set_gray(gray)
}

/// The number of names that requests can be sent to.
pub fn get_async_request_size<H>(channels: &VMChannelMap<H>) -> (n: usize)
    requires
        channels.wf(),
    ensures
        channels@.handlers.dom().finite(),
        n == channels@.handlers.dom().len(),
{
    channels.size()
}

/// Registers `handler` for the requests to `name`, and returns the handler
/// that served them before.
pub fn register_async_request<H>(channels: &mut VMChannelMap<H>, name: String, handler: H) -> (previous:
    Option<H>)
    requires
        old(channels).wf(),
    ensures
        final(channels).wf(),
        final(channels)@ == (ChannelMapState {
            handlers: old(channels)@.handlers.insert(name@, handler),
            ..old(channels)@
        }),
        previous == if old(channels)@.handlers.contains_key(name@) {
            Some(old(channels)@.handlers[name@])
        } else {
            None
        },
        final(channels)@.handlers.dom().len() == old(channels)@.handlers.dom().len() + if previous is None {
            1int
        } else {
            0int
        },
{
    channels.set(name, handler)
}

/// Ends the service of the requests to `name`, and returns the handler
/// that served them.
pub fn unregister_async_request<H>(channels: &mut VMChannelMap<H>, name: String) -> (previous:
    Option<H>)
    requires
        old(channels).wf(),
    ensures
        final(channels).wf(),
        final(channels)@ == (ChannelMapState {
            handlers: old(channels)@.handlers.remove(name@),
            ..old(channels)@
        }),
        previous == if old(channels)@.handlers.contains_key(name@) {
            Some(old(channels)@.handlers[name@])
        } else {
            None
        },
        final(channels)@.handlers.dom().len() == old(channels)@.handlers.dom().len() - if previous is Some {
            1int
        } else {
            0int
        },
{
    channels.remove(&name)
}

/// Sends a request of the engine `js` to the handler of `name`, and says
/// whether the name has one.
pub fn async_request<E, H: Handler<E>>(
    channels: &VMChannelMap<H>,
    js: E,
    name: String,
    msg: Arc<Vec<u8>>,
    native_objs: Vec<usize>,
    callback: Option<u32>,
) -> (found: bool)
    requires
        channels.wf(),
    ensures
        found == channels@.handlers.contains_key(name@),
        found ==> exists|channel: VMChannel<E>|
            request_channel(channel, js, channels@.gray) && #[trigger] call_ensures(
                H::handle,
                (
                    &channels@.handlers[name@],
                    channel,
                    name,
                    Args::ThreeArgs(msg, native_objs, callback),
                ),
                (),
            ),
{
    channels.request(js, name, msg, native_objs, callback)
}

} // verus!
