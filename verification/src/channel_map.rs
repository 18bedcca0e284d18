//! Channels between scripts and the host, and the registry of the handlers
//! that serve them.

use vstd::prelude::*;
use std::sync::Arc;
use crate::name_table::NameTable;

verus! {

/// The attribute under which a channel carries the registry's gray value.
pub open spec fn gray_key() -> Seq<char> {
    "_$gray"@
}

/// The tag of the task that carries a reply back to an engine.
pub open spec fn response_info() -> Seq<char> {
    "vm async call response task"@
}

/// One end of a channel.
#[derive(Debug)]
pub enum VMChannelPeer<E> {
    /// Any engine.
    Any,
    /// This engine.
    VM(E),
}

/// A value of a channel's attribute.
#[derive(Clone, Copy, Debug, PartialEq, Eq, Structural)]
pub enum GenType {
    /// No value.
    Nil,
    /// A truth value.
    Bool(bool),
    /// An unsigned number.
    USize(usize),
    /// A signed number.
    ISize(isize),
}

/// What a request carries to its handler.
#[derive(Debug)]
pub enum Args {
    /// A message, the handles of the native objects that go with it, and the
    /// id of the script callback that takes the reply, if one is wanted.
    ThreeArgs(Arc<Vec<u8>>, Vec<usize>, Option<u32>),
}

/// A reply on its way to the engine that asked: an asynchronous callback to
/// push onto `vm`, whose one argument is a script byte array of the length
/// and contents of `result`.
pub struct Response<'a, E> {
    /// The engine that gets the reply.
    pub vm: &'a E,
    /// The id of the script callback.
    pub callback: u32,
    /// The bytes of the reply.
    pub result: Arc<Vec<u8>>,
    /// How many arguments the callback is called with.
    pub args: usize,
    /// A tag for diagnostics.
    pub info: String,
}

/// The context of one request: who sent it, whom it is for, and a bag of
/// attributes.
pub struct VMChannel<E> {
    src: VMChannelPeer<E>,
    dst: VMChannelPeer<E>,
    attrs: NameTable<GenType>,
}

impl<E> VMChannel<E> {
    /// The sender.
    pub closed spec fn src(&self) -> VMChannelPeer<E> {
        self.src
    }

    /// The receiver.
    pub closed spec fn dst(&self) -> VMChannelPeer<E> {
        self.dst
    }

    /// The attributes.
    pub closed spec fn attrs(&self) -> Map<Seq<char>, GenType> {
        self.attrs@
    }

    /// The bag of attributes is sound.
    pub closed spec fn wf(&self) -> bool {
        self.attrs.wf()
    }

    /// A channel from `src` to `dst` without attributes.
    pub fn new(src: VMChannelPeer<E>, dst: VMChannelPeer<E>) -> (channel: VMChannel<E>)
        ensures
            channel.wf(),
            channel.src() == src,
            channel.dst() == dst,
            channel.attrs() == Map::<Seq<char>, GenType>::empty(),
    {
        VMChannel { src, dst, attrs: NameTable::new() }
    }

    /// The value of the attribute `key`, if it is set.
    pub fn get_attr(&self, key: &String) -> (value: Option<GenType>)
        requires
            self.wf(),
        ensures
            value == if self.attrs().contains_key(key@) {
                Some(self.attrs()[key@])
            } else {
                None
            },
    {
        match self.attrs.get(key) {
            None => None,
            Some(value) => Some(*value),
        }
    }

    /// Sets the attribute `key` and returns the value it had.
    pub fn set_attr(&mut self, key: String, value: GenType) -> (previous: Option<GenType>)
        requires
            old(self).wf(),
        ensures
            final(self).wf(),
            final(self).src() == old(self).src(),
            final(self).dst() == old(self).dst(),
            final(self).attrs() == old(self).attrs().insert(key@, value),
            previous == if old(self).attrs().contains_key(key@) {
                Some(old(self).attrs()[key@])
            } else {
                None
            },
    {
        self.attrs.insert(key, value)
    }

    /// Removes the attribute `key` and returns the value it had.
    pub fn remove_attr(&mut self, key: &String) -> (previous: Option<GenType>)
        requires
            old(self).wf(),
        ensures
            final(self).wf(),
            final(self).src() == old(self).src(),
            final(self).dst() == old(self).dst(),
            final(self).attrs() == old(self).attrs().remove(key@),
            previous == if old(self).attrs().contains_key(key@) {
                Some(old(self).attrs()[key@])
            } else {
                None
            },
    {
        self.attrs.remove(key)
    }

    /// Sends a message to the receiver. Sending is not defined yet: the call
    /// has no effect.
    pub fn send(&self, name: &String, msg: &Arc<Vec<u8>>) {
    }

    /// Answers the request with `result`, for the script callback `callback`.
    ///
    /// A channel whose sender is an engine gives the reply to push onto that
    /// engine: a callback with one argument, the bytes of `result`. A channel
    /// from any engine has nobody to answer, and gives `None`.
    pub fn response(&self, callback: u32, result: Arc<Vec<u8>>) -> (reply: Option<Response<'_, E>>)
        ensures
            match self.src() {
                VMChannelPeer::VM(vm) => reply matches Some(r) && *r.vm == vm && r.callback
                    == callback && r.result == result && r.args == 1 && r.info@
                    == response_info(),
                VMChannelPeer::Any => reply is None,
            },
    {
        match &self.src {
            VMChannelPeer::VM(vm) => Some(
                Response {
                    vm,
                    callback,
                    result,
                    args: 1,
                    info: "vm async call response task".to_owned(),
                },
            ),
            VMChannelPeer::Any => None,
        }
    }
}

/// Whether `channel` is the channel of a request of the engine `js` under
/// the gray value `gray`: from that engine to any, with the gray value as its
/// one attribute.
pub open spec fn request_channel<E>(channel: VMChannel<E>, js: E, gray: usize) -> bool {
    &&& channel.wf()
    &&& channel.src() == VMChannelPeer::VM(js)
    &&& channel.dst() == VMChannelPeer::<E>::Any
    &&& channel.attrs() == Map::<Seq<char>, GenType>::empty().insert(
        gray_key(),
        GenType::USize(gray),
    )
}

/// A host function that serves the requests of one name.
pub trait Handler<E> {
    /// Serves one request. The handler may answer through `env` at once,
    /// later, or never.
    fn handle(&self, env: VMChannel<E>, name: String, args: Args);
}

/// What a registry is, as contracts speak of it.
pub struct ChannelMapState<H> {
    /// The gray value.
    pub gray: usize,
    /// The handler of each registered name.
    pub handlers: Map<Seq<char>, H>,
}

/// The registry of handlers, with its gray value.
pub struct VMChannelMap<H> {
    gray: usize,
    map: NameTable<H>,
}

impl<H> View for VMChannelMap<H> {
    type V = ChannelMapState<H>;

    closed spec fn view(&self) -> ChannelMapState<H> {
        ChannelMapState { gray: self.gray, handlers: self.map@ }
    }
}

impl<H> VMChannelMap<H> {
    /// The table of handlers is sound.
    pub closed spec fn wf(&self) -> bool {
        self.map.wf()
    }

    /// An empty registry with the gray value `gray`.
    pub fn new(gray: usize) -> (channels: VMChannelMap<H>)
        ensures
            channels.wf(),
            channels@ == (ChannelMapState { gray, handlers: Map::<Seq<char>, H>::empty() }),
    {
        VMChannelMap { gray, map: NameTable::new() }
    }

    /// The gray value.
    pub fn get_gray(&self) -> (gray: usize)
        ensures
            gray == self@.gray,
    {
        self.gray
    }

    /// Sets the gray value and returns the one before.
    pub fn set_gray(&mut self, gray: usize) -> (previous: usize)
        ensures
            previous == old(self)@.gray,
            final(self)@ == (ChannelMapState { gray, ..old(self)@ }),
            final(self).wf() == old(self).wf(),
    {
        let previous = self.gray;
        self.gray = gray;
        previous
    }

    /// The number of registered names.
    pub fn size(&self) -> (n: usize)
        requires
            self.wf(),
        ensures
            self@.handlers.dom().finite(),
            n == self@.handlers.dom().len(),
    {
        self.map.len()
    }

    /// Registers `handler` under `name` and returns the handler that the
    /// name had. The registry grows by one name exactly when the name is new.
    pub fn set(&mut self, name: String, handler: H) -> (previous: Option<H>)
        requires
            old(self).wf(),
        ensures
            final(self).wf(),
            final(self)@ == (ChannelMapState {
                handlers: old(self)@.handlers.insert(name@, handler),
                ..old(self)@
            }),
            previous == if old(self)@.handlers.contains_key(name@) {
                Some(old(self)@.handlers[name@])
            } else {
                None
            },
            final(self)@.handlers.dom().len() == old(self)@.handlers.dom().len() + if previous is None {
                1int
            } else {
                0int
            },
    {
        self.map.insert(name, handler)
    }

    /// Takes `name` out of the registry and returns its handler. The
    /// registry shrinks by one name exactly when the name was registered.
    pub fn remove(&mut self, name: &String) -> (previous: Option<H>)
        requires
            old(self).wf(),
        ensures
            final(self).wf(),
            final(self)@ == (ChannelMapState {
                handlers: old(self)@.handlers.remove(name@),
                ..old(self)@
            }),
            previous == if old(self)@.handlers.contains_key(name@) {
                Some(old(self)@.handlers[name@])
            } else {
                None
            },
            final(self)@.handlers.dom().len() == old(self)@.handlers.dom().len() - if previous is Some {
                1int
            } else {
                0int
            },
    {
        self.map.remove(name)
    }

    /// The handler registered under `name`, if there is one.
    pub fn handler(&self, name: &String) -> (handler: Option<&H>)
        requires
            self.wf(),
        ensures
            match handler {
                Some(h) => self@.handlers.contains_key(name@) && *h == self@.handlers[name@],
                None => !self@.handlers.contains_key(name@),
            },
    {
        self.map.get(name)
    }

    /// The channel that a request of the engine `js` travels on: from that
    /// engine to any, with the gray value as its one attribute.
    pub fn channel<E>(&self, js: E) -> (channel: VMChannel<E>)
        ensures
            request_channel(channel, js, self@.gray),
    {
        let mut channel = VMChannel::new(VMChannelPeer::VM(js), VMChannelPeer::Any);
        channel.set_attr("_$gray".to_owned(), GenType::USize(self.gray));
        channel
    }

    /// Sends a request of the engine `js` to the handler registered under
    /// `name`, and says whether there was one. The handler is called with a
    /// channel from that engine to any, which carries the gray value, with
    /// the name, and with the three arguments.
    pub fn request<E>(
        &self,
        js: E,
        name: String,
        msg: Arc<Vec<u8>>,
        native_objs: Vec<usize>,
        callback: Option<u32>,
    ) -> (found: bool) where H: Handler<E>
        requires
            self.wf(),
        ensures
            found == self@.handlers.contains_key(name@),
            found ==> exists|channel: VMChannel<E>|
                request_channel(channel, js, self@.gray) && #[trigger] call_ensures(
                    H::handle,
                    (
                        &self@.handlers[name@],
                        channel,
                        name,
                        Args::ThreeArgs(msg, native_objs, callback),
                    ),
                    (),
                ),
    {
        match self.map.get(&name) {
            None => false,
            Some(handler) => {
                let channel = self.channel(js);
                handler.handle(channel, name, Args::ThreeArgs(msg, native_objs, callback));
                true
            },
        }
    }
}

/// The gray value round trip: after the gray value has been set to `gray`
/// it reads as `gray`, and the handlers are as before.
pub proof fn lemma_gray_round_trip<H>(before: ChannelMapState<H>, gray: usize)
    ensures
        (ChannelMapState { gray, ..before }).gray == gray,
        (ChannelMapState { gray, ..before }).handlers == before.handlers,
{
}

/// One change asked of a registry.
pub enum Registration {
    /// A handler is registered under this name.
    Register(Seq<char>),
    /// This name is taken out.
    Unregister(Seq<char>),
}

/// The names that are registered after `ops` have been applied, in order, to
/// a registry with the names `names`.
pub open spec fn registered_after(names: Set<Seq<char>>, ops: Seq<Registration>) -> Set<Seq<char>>
    decreases ops.len(),
{
    if ops.len() == 0 {
        names
    } else {
        let before = registered_after(names, ops.drop_last());
        match ops.last() {
            Registration::Register(name) => before.insert(name),
            Registration::Unregister(name) => before.remove(name),
        }
    }
}

/// How many of `ops` registered a new name, less how many took a registered
/// name out.
pub open spec fn net_registrations(names: Set<Seq<char>>, ops: Seq<Registration>) -> int
    decreases ops.len(),
{
    if ops.len() == 0 {
        0
    } else {
        let before = registered_after(names, ops.drop_last());
        net_registrations(names, ops.drop_last()) + match ops.last() {
            Registration::Register(name) => if before.contains(name) {
                0int
            } else {
                1int
            },
            Registration::Unregister(name) => if before.contains(name) {
                -1int
            } else {
                0int
            },
        }
    }
}

/// The size of a registry counts its registrations: after any changes it
/// has as many names more as new names were registered, less those that
/// were taken out.
pub proof fn lemma_size_counts_registrations(names: Set<Seq<char>>, ops: Seq<Registration>)
    requires
        names.finite(),
    ensures
        registered_after(names, ops).finite(),
        registered_after(names, ops).len() == names.len() + net_registrations(names, ops),
    decreases ops.len(),
{
    if ops.len() > 0 {
        lemma_size_counts_registrations(names, ops.drop_last());
    }
}

} // verus!
