//! Building one engine: what to ask of the interpreter next, decided from
//! how it answered the last request.

use vstd::prelude::*;
use std::sync::Arc;
use crate::loader::VMFactoryLoader;

verus! {

/// What an engine is constructed with.
#[derive(Debug)]
pub struct VmConfig {
    /// The engine's id, unique within its factory.
    pub alloc_id: usize,
    /// The name of the factory that owns it.
    pub factory: String,
    /// Its heap limit in bytes.
    pub max_heap_size: usize,
    /// Whether it carries a reuse slot, to go back to the pool after a call.
    pub reusable: bool,
}

/// How far a build has come.
#[derive(Clone, Copy, Debug, PartialEq, Eq, Structural)]
pub enum BuildStage {
    /// Nothing has been asked yet.
    Start,
    /// The engine is being constructed.
    Constructing,
    /// A blob of bytecode is being loaded and run.
    Loading,
    /// The global template is being made.
    Template,
    /// The current global is being replaced.
    Global,
    /// The engine is ready.
    Done,
    /// The build was given up.
    Failed,
}

/// What to ask of the interpreter next.
#[derive(Debug)]
pub enum BuildAction {
    /// Construct the engine.
    Construct(VmConfig),
    /// Load this blob and wait until the engine has run it.
    Load(Arc<Vec<u8>>),
    /// Make a fresh global template.
    NewGlobalTemplate,
    /// Replace the current global by one from the template.
    AllocGlobal,
    /// The engine is ready; unlock its collector first if `unlock` is set.
    Ready { unlock: bool },
    /// Give the build up.
    Abort,
}

/// The stage that follows `stage` once the interpreter has answered the
/// request of that stage with `ok`, where `more` says whether a blob is
/// still to be loaded.
pub open spec fn next_stage(stage: BuildStage, ok: bool, more: bool, reusable: bool) -> BuildStage {
    match stage {
        BuildStage::Start => BuildStage::Constructing,
        BuildStage::Constructing | BuildStage::Loading => {
            if !ok {
                BuildStage::Failed
            } else if more {
                BuildStage::Loading
            } else if reusable {
                BuildStage::Template
            } else {
                BuildStage::Done
            }
        },
        BuildStage::Template => if ok {
            BuildStage::Global
        } else {
            BuildStage::Failed
        },
        BuildStage::Global => if ok {
            BuildStage::Done
        } else {
            BuildStage::Failed
        },
        BuildStage::Done => BuildStage::Done,
        BuildStage::Failed => BuildStage::Failed,
    }
}

/// One engine under construction.
pub struct VmBuild {
    alloc_id: usize,
    factory: String,
    max_heap_size: usize,
    reusable: bool,
    loader: VMFactoryLoader,
    stage: BuildStage,
}

impl VmBuild {
    /// The id of the engine.
    pub closed spec fn alloc_id(&self) -> usize {
        self.alloc_id
    }

    /// The name of the owning factory.
    pub closed spec fn factory(&self) -> Seq<char> {
        self.factory@
    }

    /// The heap limit of the engine.
    pub closed spec fn max_heap_size(&self) -> usize {
        self.max_heap_size
    }

    /// Whether the engine goes back to the pool after a call.
    pub closed spec fn reusable(&self) -> bool {
        self.reusable
    }

    /// The bytecode to load, in order.
    pub closed spec fn codes(&self) -> Seq<Seq<u8>> {
        self.loader.codes()
    }

    /// How many blobs have been handed out for loading.
    pub closed spec fn loaded(&self) -> nat {
        self.loader.offset()
    }

    /// How far the build has come.
    pub closed spec fn stage(&self) -> BuildStage {
        self.stage
    }

    /// The loader is sound, no blob has been handed out before the engine
    /// exists, and only a reusable engine gets a global of its own.
    pub closed spec fn wf(&self) -> bool {
        &&& self.loader.wf()
        &&& self.loader.top() == self.loader.codes().len()
        &&& self.loader.offset() <= self.loader.top()
        &&& (self.stage is Start || self.stage is Constructing) ==> self.loader.offset() == 0
        &&& (self.stage is Template || self.stage is Global) ==> self.reusable
    }

    /// A build at its start.
    pub fn new(config: VmConfig, loader: VMFactoryLoader) -> (build: VmBuild)
        requires
            loader.wf(),
            loader.offset() == 0,
            loader.top() == loader.codes().len(),
        ensures
            build.wf(),
            build.alloc_id() == config.alloc_id,
            build.factory() == config.factory@,
            build.max_heap_size() == config.max_heap_size,
            build.reusable() == config.reusable,
            build.codes() == loader.codes(),
            build.loaded() == 0,
            build.stage() == BuildStage::Start,
    {
        VmBuild {
            alloc_id: config.alloc_id,
            factory: config.factory,
            max_heap_size: config.max_heap_size,
            reusable: config.reusable,
            loader,
            stage: BuildStage::Start,
        }
    }

    /// The id of the engine.
    pub fn id(&self) -> (id: usize)
        ensures
            id == self.alloc_id(),
    {
        self.alloc_id
    }

    /// Whether the engine goes back to the pool after a call.
    pub fn is_reusable(&self) -> (reusable: bool)
        ensures
            reusable == self.reusable(),
    {
        self.reusable
    }

    /// Whether the engine is ready.
    pub fn is_done(&self) -> (done: bool)
        ensures
            done == (self.stage() == BuildStage::Done),
    {
        self.stage == BuildStage::Done
    }

    /// Moves the build on by one step and says what to ask next. `ok` is the
    /// interpreter's answer to the previous request, and counts for nothing
    /// at the start.
    ///
    /// The engine is constructed first. Then each blob is loaded, in the
    /// list's order. A reusable engine then gets a global template and a
    /// fresh global, and has its collector unlocked. The first request that
    /// the interpreter refuses ends the build with `Abort`.
    pub fn step(&mut self, ok: bool) -> (action: BuildAction)
        requires
            old(self).wf(),
        ensures
            final(self).wf(),
            final(self).alloc_id() == old(self).alloc_id(),
            final(self).factory() == old(self).factory(),
            final(self).max_heap_size() == old(self).max_heap_size(),
            final(self).reusable() == old(self).reusable(),
            final(self).codes() == old(self).codes(),
            final(self).stage() == next_stage(
                old(self).stage(),
                ok,
                old(self).loaded() < old(self).codes().len(),
                old(self).reusable(),
            ),
            final(self).loaded() == if final(self).stage() is Loading {
                old(self).loaded() + 1
            } else {
                old(self).loaded()
            },
            match final(self).stage() {
                BuildStage::Start => false,
                BuildStage::Constructing => action matches BuildAction::Construct(config)
                    && config.alloc_id == old(self).alloc_id() && config.factory@ == old(
                    self,
                ).factory() && config.max_heap_size == old(self).max_heap_size()
                    && config.reusable == old(self).reusable(),
                BuildStage::Loading => action matches BuildAction::Load(code) && code@ == old(
                    self,
                ).codes()[old(self).loaded() as int],
                BuildStage::Template => action is NewGlobalTemplate,
                BuildStage::Global => action is AllocGlobal,
                BuildStage::Done => action == (BuildAction::Ready { unlock: old(self).reusable() }),
                BuildStage::Failed => action is Abort,
            },
    {
        match self.stage {
            BuildStage::Start => {
                self.stage = BuildStage::Constructing;
                BuildAction::Construct(
                    VmConfig {
                        alloc_id: self.alloc_id,
                        factory: self.factory.clone(),
                        max_heap_size: self.max_heap_size,
                        reusable: self.reusable,
                    },
                )
            },
            BuildStage::Constructing | BuildStage::Loading => {
                if !ok {
                    self.stage = BuildStage::Failed;
                    return BuildAction::Abort;
                }
                match self.loader.load_next() {
                    Some(code) => {
                        self.stage = BuildStage::Loading;
                        BuildAction::Load(code)
                    },
                    None => {
                        if self.reusable {
                            self.stage = BuildStage::Template;
                            BuildAction::NewGlobalTemplate
                        } else {
                            self.stage = BuildStage::Done;
                            BuildAction::Ready { unlock: false }
                        }
                    },
                }
            },
            BuildStage::Template => {
                if ok {
                    self.stage = BuildStage::Global;
                    BuildAction::AllocGlobal
                } else {
                    self.stage = BuildStage::Failed;
                    BuildAction::Abort
                }
            },
            BuildStage::Global => {
                if ok {
                    self.stage = BuildStage::Done;
                    BuildAction::Ready { unlock: true }
                } else {
                    self.stage = BuildStage::Failed;
                    BuildAction::Abort
                }
            },
            BuildStage::Done => BuildAction::Ready { unlock: self.reusable },
            BuildStage::Failed => BuildAction::Abort,
        }
    }
}

/// The stage of a build, and the number of blobs it has handed out, after
/// `steps` steps each of which was answered with success, for a list of
/// `top` blobs.
pub open spec fn ok_run(top: nat, reusable: bool, steps: nat) -> (BuildStage, nat)
    decreases steps,
{
    if steps == 0 {
        (BuildStage::Start, 0)
    } else {
        let (stage, loaded) = ok_run(top, reusable, (steps - 1) as nat);
        let next = next_stage(stage, true, loaded < top, reusable);
        (
            next,
            if next is Loading {
                loaded + 1
            } else {
                loaded
            },
        )
    }
}

/// Loading goes by the list: in a build that is never refused, the first
/// step constructs the engine, and step `k + 1` loads the blob at place
/// `k - 1`, for each `k` from 1 up to the number of blobs.
pub proof fn lemma_loads_in_order(top: nat, reusable: bool, k: nat)
    requires
        1 <= k <= top,
    ensures
        ok_run(top, reusable, 1) == (BuildStage::Constructing, 0nat),
        ok_run(top, reusable, k + 1) == (BuildStage::Loading, k),
    decreases k,
{
    reveal_with_fuel(ok_run, 3);
    if k > 1 {
        lemma_loads_in_order(top, reusable, (k - 1) as nat);
    }
}

/// After the last blob a build that is never refused is done at once when
/// the engine is not reusable, and after a global template and a fresh
/// global when it is.
pub proof fn lemma_build_ends(top: nat, reusable: bool)
    ensures
        !reusable ==> ok_run(top, reusable, top + 2) == (BuildStage::Done, top),
        reusable ==> ok_run(top, reusable, top + 2) == (BuildStage::Template, top),
        reusable ==> ok_run(top, reusable, top + 3) == (BuildStage::Global, top),
        reusable ==> ok_run(top, reusable, top + 4) == (BuildStage::Done, top),
{
    reveal_with_fuel(ok_run, 4);
    if top >= 1 {
        lemma_loads_in_order(top, reusable, top);
    }
}

} // verus!
