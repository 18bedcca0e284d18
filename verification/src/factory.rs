//! The factory: a pool of engines of one configuration, bounded by a
//! capacity, with a queue of the idle ones.

use vstd::prelude::*;
use vstd::multiset::Multiset;
use std::sync::Arc;
use crate::free_queue::{FreeQueue, MAX_QUEUE_CAPACITY};
use crate::loader::{codes_view, share_codes, VMFactoryLoader};
use crate::task::{TaskPost, TaskType, JS_TASK_PRIORITY};
use crate::vm_build::{BuildStage, VmBuild, VmConfig};

verus! {

/// What a factory is, as contracts speak of it.
pub struct FactoryState {
    /// The factory's name.
    pub name: Seq<char>,
    /// How many engines the pool may hold; 0 for a factory without a pool.
    pub capacity: nat,
    /// How many engines the pool holds, idle or not.
    pub size: nat,
    /// How many of them are still being built.
    pub building: nat,
    /// The id that the next engine gets.
    pub alloc_id: nat,
    /// The heap limit of each pooled engine.
    pub max_heap_size: nat,
    /// The bytecode that every engine loads, in order.
    pub codes: Seq<Seq<u8>>,
    /// Whether an engine has been constructed, after which `codes` is fixed.
    pub frozen: bool,
    /// The ids of the idle engines, the longest idle first.
    pub free: Seq<usize>,
    /// The ids of the pooled engines that are out on a call.
    pub out: Multiset<usize>,
}

impl FactoryState {
    /// Whether no further engine can be added to the pool.
    pub open spec fn full(self) -> bool {
        self.capacity != 0 && self.size >= self.capacity
    }

    /// How many engines of the pool are in use: out on a call, or being
    /// built for one.
    pub open spec fn in_use(self) -> nat {
        self.out.len() + self.building
    }

    /// Every engine of the pool is idle, out on a call or being built, and
    /// there are no more of them than the capacity.
    pub open spec fn balanced(self) -> bool {
        &&& self.size <= self.capacity
        &&& self.size == self.building + self.free.len() + self.out.len()
    }

    /// The state after an engine has been reserved: it has the current id,
    /// the list of bytecode is fixed from now on, and a pooled factory counts
    /// one more engine, which is being built.
    pub open spec fn reserved(self) -> FactoryState {
        FactoryState {
            size: if self.capacity != 0 {
                self.size + 1
            } else {
                self.size
            },
            building: if self.capacity != 0 {
                self.building + 1
            } else {
                self.building
            },
            alloc_id: next_id(self.alloc_id),
            frozen: true,
            ..self
        }
    }

    /// The state after the build of the pooled engine `vm` has ended, well
    /// (`done`) or not: a built engine is out with whoever had it built, a
    /// failed build gives its place in the pool back.
    pub open spec fn settled(self, done: bool, vm: usize) -> FactoryState {
        FactoryState {
            size: if done {
                self.size
            } else {
                (self.size - 1) as nat
            },
            building: (self.building - 1) as nat,
            out: if done {
                self.out.insert(vm)
            } else {
                self.out
            },
            ..self
        }
    }

    /// The state after the engine that was idle longest has gone out on a
    /// call.
    pub open spec fn lent(self) -> FactoryState {
        FactoryState { free: self.free.drop_first(), out: self.out.insert(self.free[0]), ..self }
    }

    /// The state after the engine `vm` has come back from a call.
    pub open spec fn returned(self, vm: usize) -> FactoryState {
        FactoryState { free: self.free.push(vm), out: self.out.remove(vm), ..self }
    }
}

/// The id after `id`; ids start over once the machine's range is used up.
pub open spec fn next_id(id: nat) -> nat {
    if id >= usize::MAX {
        0
    } else {
        id + 1
    }
}

/// Why a factory could not do what was asked.
#[derive(Debug)]
pub enum FactoryError {
    /// The pool cannot take `count` more engines.
    Full { factory: String, capacity: usize, size: usize, count: usize },
    /// An engine could not be built.
    NewVmFailed { factory: String },
    /// A built engine did not fit into the queue of idle engines.
    QueueFull { factory: String },
}

/// What is left to do of one call of `produce`.
pub struct Production {
    before: usize,
    remaining: usize,
}

impl Production {
    /// The size of the pool before the call.
    pub closed spec fn before(&self) -> nat {
        self.before as nat
    }

    /// How many engines are still to be put into the pool, the one being
    /// built included.
    pub closed spec fn remaining(&self) -> nat {
        self.remaining as nat
    }
}

/// What a call of `produce` has come to.
pub enum ProduceStep {
    /// Build this engine, then hand both back to `produced`.
    Build { ticket: Production, build: VmBuild },
    /// The call is over, with the size of the pool before it or an error.
    Done(Result<usize, FactoryError>),
}

/// Where a call gets its engine from.
pub enum CallStep {
    /// This idle engine was taken from the queue.
    Idle(usize),
    /// No engine was idle: build this one, then hand it to `finish_vm`.
    Build(VmBuild),
}

/// A call, ready for the scheduler.
#[derive(Debug)]
pub struct CallTask {
    /// The engine that runs the call.
    pub vm: usize,
    /// The name of the script function to call.
    pub port: String,
    /// The task to post.
    pub post: TaskPost,
}

/// A pool of engines.
pub struct VMFactory {
    name: String,
    capacity: usize,
    size: usize,
    building: usize,
    alloc_id: usize,
    max_heap_size: usize,
    codes: Vec<Arc<Vec<u8>>>,
    frozen: bool,
    free: FreeQueue,
    out: Vec<usize>,
}

impl View for VMFactory {
    type V = FactoryState;

    closed spec fn view(&self) -> FactoryState {
        FactoryState {
            name: self.name@,
            capacity: self.capacity as nat,
            size: self.size as nat,
            building: self.building as nat,
            alloc_id: self.alloc_id as nat,
            max_heap_size: self.max_heap_size as nat,
            codes: codes_view(self.codes@),
            frozen: self.frozen,
            free: self.free@,
            out: self.out@.to_multiset(),
        }
    }
}

impl VMFactory {
    /// The queue of idle engines is sound and as long as the capacity, or 1
    /// for a factory without a pool.
    pub closed spec fn queue_wf(&self) -> bool {
        &&& self.free.wf()
        &&& self.free.limit() == if self.capacity == 0 {
            1
        } else {
            self.capacity as nat
        }
    }

    /// The size bound: the pool never holds more engines than its capacity,
    /// and each of them is idle, out on a call or being built.
    pub open spec fn wf(&self) -> bool {
        &&& self.queue_wf()
        &&& self@.capacity <= MAX_QUEUE_CAPACITY
        &&& self@.balanced()
    }

    /// A factory named `name` for up to `size` pooled engines, each with a
    /// heap of `max_heap_size`; with `size` 0 every call gets an engine of
    /// its own. The factory is empty and has no bytecode.
    pub fn new(name: &str, size: usize, max_heap_size: usize) -> (factory: VMFactory)
        requires
            size <= MAX_QUEUE_CAPACITY,
        ensures
            factory.wf(),
            factory@ == (FactoryState {
                name: name@,
                capacity: size as nat,
                size: 0,
                building: 0,
                alloc_id: 0,
                max_heap_size: max_heap_size as nat,
                codes: Seq::empty(),
                frozen: false,
                free: Seq::empty(),
                out: Multiset::empty(),
            }),
    {
        let capacity = size;
        let limit: usize = if size == 0 {
            1
        } else {
            size
        };
        let factory = VMFactory {
            name: name.to_owned(),
            capacity,
            size: 0,
            building: 0,
            alloc_id: 0,
            max_heap_size,
            codes: Vec::new(),
            frozen: false,
            free: FreeQueue::bounded(limit),
            out: Vec::new(),
        };
        assert(codes_view(factory.codes@) =~= Seq::empty());
        assert(factory.out@.to_multiset() =~= Multiset::empty()) by {
            broadcast use vstd::seq_lib::group_to_multiset_ensures;

        }
        factory
    }

    /// Adds a blob of bytecode at the end of the list, unless an engine has
    /// been constructed already: then the list stays as it is.
    pub fn append(self, code: Arc<Vec<u8>>) -> (factory: VMFactory)
        requires
            self.wf(),
        ensures
            factory.wf(),
            factory@ == (FactoryState {
                codes: if self@.frozen {
                    self@.codes
                } else {
                    self@.codes.push(code@)
                },
                ..self@
            }),
    {
        let mut factory = self;
        if !factory.frozen {
            factory.codes.push(code);
            assert(codes_view(factory.codes@) =~= codes_view(self.codes@).push(code@));
        }
        factory
    }

    /// The factory's name.
    pub fn name(&self) -> (name: &String)
        ensures
            name@ == self@.name,
    {
        &self.name
    }

    /// How many engines the pool may hold.
    pub fn capacity(&self) -> (capacity: usize)
        ensures
            capacity == self@.capacity,
    {
        self.capacity
    }

    /// How many engines the pool holds.
    pub fn size(&self) -> (size: usize)
        ensures
            size == self@.size,
    {
        self.size
    }

    /// How many engines are idle.
    pub fn free_size(&self) -> (idle: usize)
        requires
            self.wf(),
        ensures
            idle == self@.free.len(),
            idle == self@.size - self@.in_use(),
    {
        self.free.len()
    }

    /// A loader at the start of the factory's bytecode.
    pub fn loader(&self) -> (loader: VMFactoryLoader)
        ensures
            loader.wf(),
            loader.offset() == 0,
            loader.top() == self@.codes.len(),
            loader.codes() == self@.codes,
    {
        VMFactoryLoader::new(share_codes(&self.codes))
    }

    /// Takes the next engine id.
    fn next_alloc_id(&mut self) -> (id: usize)
        ensures
            id == old(self)@.alloc_id,
            final(self)@ == (FactoryState { alloc_id: next_id(old(self)@.alloc_id), ..old(self)@ }),
            final(self).queue_wf() == old(self).queue_wf(),
    {
        let id = self.alloc_id;
        self.alloc_id = if id == usize::MAX {
            0
        } else {
            id + 1
        };
        id
    }

    /// What to construct for an engine that is handed out as it is: one that
    /// never goes back to the pool, has no heap limit of its own and loads
    /// no bytecode. It takes the next id, and fixes the list of bytecode.
    pub fn take(&mut self) -> (config: VmConfig)
        requires
            old(self).wf(),
        ensures
            final(self).wf(),
            config.alloc_id == old(self)@.alloc_id,
            config.factory@ == old(self)@.name,
            config.max_heap_size == 0,
            !config.reusable,
            final(self)@ == (FactoryState {
                alloc_id: next_id(old(self)@.alloc_id),
                frozen: true,
                ..old(self)@
            }),
    {
        let alloc_id = self.next_alloc_id();
        self.frozen = true;
        VmConfig { alloc_id, factory: self.name.clone(), max_heap_size: 0, reusable: false }
    }

    /// Starts the build of one engine, or returns `None` and changes nothing
    /// when the pool is full.
    ///
    /// The engine gets the next id and every blob of the factory's bytecode.
    /// In a pooled factory it is reusable and takes a place in the pool at
    /// once, so that the size can never pass the capacity.
    pub fn new_vm(&mut self) -> (started: Option<VmBuild>)
        requires
            old(self).wf(),
        ensures
            final(self).wf(),
            old(self)@.full() ==> started is None && final(self)@ == old(self)@,
            !old(self)@.full() ==> final(self)@ == old(self)@.reserved() && (started matches Some(
                build,
            ) && build.wf() && build.stage() == BuildStage::Start && build.alloc_id() == old(
                self,
            )@.alloc_id && build.factory() == old(self)@.name && build.max_heap_size() == old(
                self,
            )@.max_heap_size && build.reusable() == (old(self)@.capacity != 0) && build.codes()
                == old(self)@.codes && build.loaded() == 0),
    {
        if self.capacity != 0 {
            if self.size >= self.capacity {
                return None;
            }
            self.size += 1;
            self.building += 1;
        }
        let alloc_id = self.next_alloc_id();
        self.frozen = true;
        let config = VmConfig {
            alloc_id,
            factory: self.name.clone(),
            max_heap_size: self.max_heap_size,
            reusable: self.capacity != 0,
        };
        Some(VmBuild::new(config, self.loader()))
    }

    /// Ends a build. Returns the engine's id when the build is done, and
    /// `None` when it was given up or never finished; the place that a
    /// pooled engine took is then given back. A pooled engine that was built
    /// is out on a call from now on. A reusable build that the factory is
    /// not waiting for changes nothing and gives `None`.
    pub fn finish_vm(&mut self, build: VmBuild) -> (built: Option<usize>)
        requires
            old(self).wf(),
        ensures
            final(self).wf(),
            built is Some <==> build.stage() == BuildStage::Done && (build.reusable() ==> old(
                self,
            )@.building > 0),
            built is Some ==> built == Some(build.alloc_id()),
            final(self)@ == if build.reusable() && old(self)@.building > 0 {
                old(self)@.settled(build.stage() == BuildStage::Done, build.alloc_id())
            } else {
                old(self)@
            },
    {
        broadcast use vstd::seq_lib::group_to_multiset_ensures;

        let done = build.is_done();
        if build.is_reusable() {
            if self.building == 0 {
                return None;
            }
            self.building -= 1;
            if done {
                self.out.push(build.id());
            } else {
                self.size -= 1;
            }
        }
        if done {
            Some(build.id())
        } else {
            None
        }
    }

    /// Where `vm` stands among the engines that are out.
    fn find_out(&self, vm: usize) -> (place: Option<usize>)
        ensures
            match place {
                Some(i) => i < self.out@.len() && self.out@[i as int] == vm,
                None => !self@.out.contains(vm),
            },
    {
        broadcast use vstd::seq_lib::group_to_multiset_ensures;

        let mut i: usize = 0;
        while i < self.out.len()
            invariant
                i <= self.out@.len(),
                forall|j: int| 0 <= j < i ==> self.out@[j] != vm,
            decreases self.out@.len() - i,
        {
            if self.out[i] == vm {
                return Some(i);
            }
            i += 1;
        }
        None
    }

    /// Puts the engine `vm` back into the queue of idle engines after a call,
    /// and says whether it did. An engine goes back when the factory has a
    /// pool, the call did not leave the engine suspended, and the engine is
    /// out on a call: so each call returns its engine once. Otherwise
    /// nothing changes, and the caller keeps or destroys the engine.
    pub fn give_back(&mut self, vm: usize, suspended: bool) -> (returned: bool)
        requires
            old(self).wf(),
        ensures
            final(self).wf(),
            returned <==> old(self)@.capacity != 0 && !suspended && old(self)@.out.contains(vm),
            final(self)@ == if returned {
                old(self)@.returned(vm)
            } else {
                old(self)@
            },
            returned ==> final(self)@.free.len() == old(self)@.free.len() + 1,
            returned ==> final(self)@.in_use() == old(self)@.in_use() - 1,
            old(self)@.capacity == 0 ==> !returned,
    {
        broadcast use vstd::seq_lib::group_to_multiset_ensures;

        if self.capacity == 0 || suspended {
            return false;
        }
        match self.find_out(vm) {
            None => false,
            Some(i) => {
                self.out.remove(i);
                self.free.try_send(vm)
            },
        }
    }

    /// Finds the engine for a call.
    ///
    /// The engine that has been idle longest is taken from the queue. With
    /// no idle engine a new one is reserved as `new_vm` does, which a factory
    /// without a pool always does. With no idle engine and a full pool the
    /// call is refused with `NewVmFailed`, and nothing changes.
    pub fn call(&mut self) -> (step: Result<CallStep, FactoryError>)
        requires
            old(self).wf(),
        ensures
            final(self).wf(),
            old(self)@.free.len() > 0 ==> (step matches Ok(CallStep::Idle(vm)) && vm == old(
                self,
            )@.free[0]) && final(self)@ == old(self)@.lent(),
            old(self)@.free.len() == 0 && !old(self)@.full() ==> (step matches Ok(
                CallStep::Build(build),
            ) && build.wf() && build.stage() == BuildStage::Start && build.alloc_id() == old(
                self,
            )@.alloc_id && build.factory() == old(self)@.name && build.max_heap_size() == old(
                self,
            )@.max_heap_size && build.reusable() == (old(self)@.capacity != 0) && build.codes()
                == old(self)@.codes && build.loaded() == 0) && final(self)@ == old(
                self,
            )@.reserved(),
            old(self)@.free.len() == 0 && old(self)@.full() ==> (step matches Err(
                FactoryError::NewVmFailed { factory },
            ) && factory@ == old(self)@.name) && final(self)@ == old(self)@,
            old(self)@.capacity == 0 ==> step matches Ok(CallStep::Build(_)),
    {
        broadcast use vstd::seq_lib::group_to_multiset_ensures;

        match self.free.try_recv() {
            Some(vm) => {
                self.out.push(vm);
                Ok(CallStep::Idle(vm))
            },
            None => match self.new_vm() {
                Some(build) => Ok(CallStep::Build(build)),
                None => Err(FactoryError::NewVmFailed { factory: self.name.clone() }),
            },
        }
    }

    /// The task that runs the function `port` on the engine `vm`. `queue` is
    /// the queue of the call's source, if it has one.
    ///
    /// A call without a source is an asynchronous task at the default
    /// priority, bound to no queue. A call with a source is a synchronous
    /// task at priority 0 on the source's queue, so that the calls of one
    /// source run in the order in which they were posted.
    pub fn async_run(&self, vm: usize, queue: Option<isize>, port: String, info: String) -> (task:
        CallTask)
        ensures
            task.vm == vm,
            task.port == port,
            task.post.info == info,
            task.post.queue == queue,
            queue is None ==> task.post.kind == TaskType::Async(false) && task.post.priority
                == JS_TASK_PRIORITY,
            queue is Some ==> task.post.kind == TaskType::Sync(true) && task.post.priority == 0,
    {
        let post = match queue {
            None => TaskPost {
                kind: TaskType::Async(false),
                priority: JS_TASK_PRIORITY,
                queue: None,
                info,
            },
            Some(q) => TaskPost { kind: TaskType::Sync(true), priority: 0, queue: Some(q), info },
        };
        CallTask { vm, port, post }
    }

    /// Admits a call of `produce`: starts the first build, or ends the call.
    ///
    /// With `count` 0 the call ends at once with the pool's size and changes
    /// nothing. It ends with `Full`, and changes nothing, when the pool
    /// cannot take `count` more engines. Otherwise the first engine is
    /// reserved as `new_vm` does.
    pub fn produce(&mut self, count: usize) -> (step: ProduceStep)
        requires
            old(self).wf(),
        ensures
            final(self).wf(),
            count == 0 ==> (step matches ProduceStep::Done(Ok(n)) && n == old(self)@.size)
                && final(self)@ == old(self)@,
            count != 0 && old(self)@.size + count > old(self)@.capacity ==> (step matches ProduceStep::Done(
                Err(FactoryError::Full { factory, capacity, size, count: c }),
            ) && factory@ == old(self)@.name && capacity == old(self)@.capacity && size == old(
                self,
            )@.size && c == count) && final(self)@ == old(self)@,
            count != 0 && old(self)@.size + count <= old(self)@.capacity ==> (step matches ProduceStep::Build {
                ticket,
                build,
            } && ticket.before() == old(self)@.size && ticket.remaining() == count && build.wf()
                && build.stage() == BuildStage::Start && build.reusable() && build.alloc_id()
                == old(self)@.alloc_id && build.factory() == old(self)@.name
                && build.max_heap_size() == old(self)@.max_heap_size && build.codes() == old(
                self,
            )@.codes && build.loaded() == 0) && final(self)@ == old(self)@.reserved(),
    {
        let before = self.size;
        if count == 0 {
            return ProduceStep::Done(Ok(before));
        }
        if count > self.capacity - self.size {
            return ProduceStep::Done(
                Err(
                    FactoryError::Full {
                        factory: self.name.clone(),
                        capacity: self.capacity,
                        size: before,
                        count,
                    },
                ),
            );
        }
        match self.new_vm() {
            Some(build) => ProduceStep::Build {
                ticket: Production { before, remaining: count },
                build,
            },
            None => ProduceStep::Done(Err(FactoryError::NewVmFailed { factory: self.name.clone() })),
        }
    }

    /// Goes on with a call of `produce` once an engine has been built.
    ///
    /// The build is ended as `finish_vm` does; a build that did not give an
    /// engine ends the call with `NewVmFailed`. The engine goes into the
    /// queue of idle engines as `give_back` puts it there, or the call ends
    /// with `QueueFull` when the engine is not one of the pool. The call
    /// then ends with the size of the pool before it, or reserves the next
    /// engine.
    pub fn produced(&mut self, ticket: Production, build: VmBuild) -> (step: ProduceStep)
        requires
            old(self).wf(),
        ensures
            final(self).wf(),
            ({
                let built = build.stage() == BuildStage::Done && (build.reusable() ==> old(
                    self,
                )@.building > 0);
                let settled = if build.reusable() && old(self)@.building > 0 {
                    old(self)@.settled(build.stage() == BuildStage::Done, build.alloc_id())
                } else {
                    old(self)@
                };
                let fits = settled.capacity != 0 && settled.out.contains(build.alloc_id());
                let queued = settled.returned(build.alloc_id());
                if !built {
                    &&& step matches ProduceStep::Done(Err(FactoryError::NewVmFailed { factory }))
                    &&& factory@ == old(self)@.name
                    &&& final(self)@ == settled
                } else if !fits {
                    &&& step matches ProduceStep::Done(Err(FactoryError::QueueFull { factory }))
                    &&& factory@ == old(self)@.name
                    &&& final(self)@ == settled
                } else if ticket.remaining() <= 1 {
                    &&& step matches ProduceStep::Done(Ok(n))
                    &&& n == ticket.before()
                    &&& final(self)@ == queued
                } else if queued.full() {
                    &&& step matches ProduceStep::Done(Err(FactoryError::NewVmFailed { factory }))
                    &&& factory@ == old(self)@.name
                    &&& final(self)@ == queued
                } else {
                    &&& step matches ProduceStep::Build { ticket: t, build: b }
                    &&& t.before() == ticket.before()
                    &&& t.remaining() == ticket.remaining() - 1
                    &&& b.wf()
                    &&& b.stage() == BuildStage::Start
                    &&& b.reusable() == (queued.capacity != 0)
                    &&& b.alloc_id() == queued.alloc_id
                    &&& b.factory() == queued.name
                    &&& b.max_heap_size() == queued.max_heap_size
                    &&& b.codes() == queued.codes
                    &&& b.loaded() == 0
                    &&& final(self)@ == queued.reserved()
                }
            }),
    {
        let id = match self.finish_vm(build) {
            Some(id) => id,
            None => {
                return ProduceStep::Done(
                    Err(FactoryError::NewVmFailed { factory: self.name.clone() }),
                );
            },
        };
        if !self.give_back(id, false) {
            return ProduceStep::Done(Err(FactoryError::QueueFull { factory: self.name.clone() }));
        }
        if ticket.remaining <= 1 {
            return ProduceStep::Done(Ok(ticket.before));
        }
        match self.new_vm() {
            Some(next) => ProduceStep::Build {
                ticket: Production { before: ticket.before, remaining: ticket.remaining - 1 },
                build: next,
            },
            None => ProduceStep::Done(Err(FactoryError::NewVmFailed { factory: self.name.clone() })),
        }
    }
}

/// The size bound holds through every change of a pool: reserving an engine
/// in a pool that is not full, ending a build, lending an idle engine and
/// taking one back each lead from a balanced state to a balanced state, in
/// which the size does not pass the capacity.
pub proof fn lemma_size_bound(s: FactoryState, done: bool, vm: usize)
    requires
        s.balanced(),
    ensures
        s.size <= s.capacity,
        !s.full() ==> s.reserved().balanced(),
        s.building > 0 ==> s.settled(done, vm).balanced(),
        s.free.len() > 0 ==> s.lent().balanced(),
        s.out.contains(vm) ==> s.returned(vm).balanced(),
{
}

/// The idle engines are those of the pool that are not in use; and an engine
/// that went out once is no longer out after it has come back, so that it
/// cannot come back a second time.
pub proof fn lemma_return_once(s: FactoryState, vm: usize)
    requires
        s.balanced(),
        s.out.count(vm) == 1,
    ensures
        s.free.len() == s.size - s.in_use(),
        s.returned(vm).free.len() == s.free.len() + 1,
        s.returned(vm).in_use() == s.in_use() - 1,
        s.returned(vm).free.len() == s.returned(vm).size - s.returned(vm).in_use(),
        s.returned(vm).free.last() == vm,
        !s.returned(vm).out.contains(vm),
{
}

/// A factory without a pool has no idle engine, and none that is out or
/// being built: every call has an engine built.
pub proof fn lemma_unpooled_is_empty(s: FactoryState)
    requires
        s.balanced(),
        s.capacity == 0,
    ensures
        s.size == 0,
        s.free.len() == 0,
        s.in_use() == 0,
        !s.full(),
        s.reserved().balanced(),
        s.reserved().free.len() == 0,
{
}

} // verus!
