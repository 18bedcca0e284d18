//! The blocking coordinator: what a posted set-global, reply or throw task
//! does when the scheduler runs it, decided from what the engine answered.

use vstd::prelude::*;
use crate::status::JSStatus;
use crate::task::{TaskPost, TaskType};

verus! {

/// The result code that wakes a paused interpreter with a value.
pub const WAKE_WITH_RESULT: i32 = 0;

/// The result code that wakes a paused interpreter with an error.
pub const WAKE_WITH_ERROR: i32 = 1;

/// Why a blocking operation failed.
#[derive(Debug, Clone)]
pub enum BlockError {
    /// Anything else, with a description.
    Unknow(String),
    /// The value builder failed, with its reason.
    NewGlobalVar(String),
    /// The engine refused the global of this name.
    SetGlobalVar(String),
}

/// What a set-global task learns, step by step.
#[derive(Debug)]
pub enum GlobalVarEvent {
    /// The task starts: the answers of the probes for `WaitBlock`,
    /// `SingleTask` and `MultiTask`.
    Started { wait_block: i32, single_task: i32, multi_task: i32 },
    /// The value builder has run.
    Built(Result<(), String>),
    /// The engine was asked to store the global, and said whether it did.
    Stored(bool),
}

/// What a set-global task does next.
#[derive(Debug)]
pub enum GlobalVarAction {
    /// Post the same operation again and yield.
    Repost,
    /// Run the value builder.
    Build,
    /// Store the built value under this name.
    Store(String),
    /// Hand this result to the continuation.
    Finish(Result<(), BlockError>),
}

/// What a reply or throw task learns, step by step.
#[derive(Clone, Copy, Debug)]
pub enum ResumeEvent {
    /// The task starts: the answers of the probes for `WaitBlock` and
    /// `SingleTask`.
    Started { wait_block: i32, single_task: i32 },
    /// The compare-and-switch was made and found this status.
    Switched(JSStatus),
}

/// What a reply or throw task does next.
#[derive(Debug)]
pub enum ResumeAction {
    /// Post the same operation again and yield.
    Repost,
    /// Compare-and-switch the engine's status.
    Switch { from: JSStatus, to: JSStatus },
    /// Wake the interpreter with `code`, then leave on its stack the result
    /// (no `error`) or a fresh error object carrying `error`, then continue it.
    Wake { code: i32, error: Option<String> },
}

/// Whether the probes show an engine that has not reached its pause yet.
pub open spec fn still_running(wait_block: int, single_task: int) -> bool {
    wait_block > 0 || single_task > 0
}

/// Whether a resume task that starts on an engine in status `s` goes on to
/// the compare-and-switch.
pub open spec fn resume_attempts(s: JSStatus) -> bool {
    !still_running(s.probe(JSStatus::WaitBlock), s.probe(JSStatus::SingleTask))
}

/// Whether a resume task that runs on an engine in status `s` wakes it.
pub open spec fn resume_wakes(s: JSStatus) -> bool {
    resume_attempts(s) && s == JSStatus::MultiTask
}

/// The engine's status after a resume task has run on it in status `s`.
pub open spec fn status_after_resume(s: JSStatus) -> JSStatus {
    if resume_attempts(s) {
        s.switched(JSStatus::MultiTask, JSStatus::SingleTask)
    } else {
        s
    }
}

/// The task that carries a blocking operation to the engine's queue: a
/// synchronous one at priority 0, bound to the queue the engine is on.
pub fn block_task(queue: isize, info: String) -> (post: TaskPost)
    ensures
        post.kind == TaskType::Sync(false),
        post.priority == 0,
        post.queue == Some(queue),
        post.info == info,
{
    TaskPost { kind: TaskType::Sync(false), priority: 0, queue: Some(queue), info }
}

/// One step of a set-global task for the global `name`.
///
/// At its start the task reposts itself unless the engine is paused in
/// `MultiTask`. Paused, it runs the value builder. A builder failure ends the
/// operation with `NewGlobalVar`, a success asks the engine to store the
/// value, and the engine's answer ends it with success or `SetGlobalVar`. The
/// interpreter is not resumed.
pub fn block_set_global_var(name: &String, event: GlobalVarEvent) -> (action: GlobalVarAction)
    ensures
        match event {
            GlobalVarEvent::Started { wait_block, single_task, multi_task } => {
                if !still_running(wait_block as int, single_task as int) && multi_task > 0 {
                    action is Build
                } else {
                    action is Repost
                }
            },
            GlobalVarEvent::Built(Ok(_)) => action matches GlobalVarAction::Store(n) && n@ == name@,
            GlobalVarEvent::Built(Err(reason)) => action matches GlobalVarAction::Finish(
                Err(BlockError::NewGlobalVar(r)),
            ) && r@ == reason@,
            GlobalVarEvent::Stored(true) => action matches GlobalVarAction::Finish(Ok(_)),
            GlobalVarEvent::Stored(false) => action matches GlobalVarAction::Finish(
                Err(BlockError::SetGlobalVar(n)),
            ) && n@ == name@,
        },
{
    match event {
        GlobalVarEvent::Started { wait_block, single_task, multi_task } => {
            if wait_block > 0 || single_task > 0 {
                GlobalVarAction::Repost
            } else if multi_task > 0 {
                GlobalVarAction::Build
            } else {
                GlobalVarAction::Repost
            }
        },
        GlobalVarEvent::Built(Ok(_)) => GlobalVarAction::Store(name.clone()),
        GlobalVarEvent::Built(Err(reason)) => GlobalVarAction::Finish(
            Err(BlockError::NewGlobalVar(reason)),
        ),
        GlobalVarEvent::Stored(true) => GlobalVarAction::Finish(Ok(())),
        GlobalVarEvent::Stored(false) => GlobalVarAction::Finish(
            Err(BlockError::SetGlobalVar(name.clone())),
        ),
    }
}

/// Whether `action` is what a resume task does on `event`, where a task that
/// resumes wakes with `code`.
pub open spec fn resume_step(event: ResumeEvent, action: ResumeAction, code: int) -> bool {
    match event {
        ResumeEvent::Started { wait_block, single_task } => {
            if still_running(wait_block as int, single_task as int) {
                action is Repost
            } else {
                action == (ResumeAction::Switch {
                    from: JSStatus::MultiTask,
                    to: JSStatus::SingleTask,
                })
            }
        },
        ResumeEvent::Switched(found) => {
            if found == JSStatus::MultiTask {
                action matches ResumeAction::Wake { code: c, .. } && c == code
            } else {
                action is Repost
            }
        },
    }
}

/// One step of a reply task.
///
/// At its start the task reposts itself while the engine is in `WaitBlock` or
/// `SingleTask`, and otherwise asks for the switch from `MultiTask` to
/// `SingleTask`. When the switch found `MultiTask` the task wakes the
/// interpreter with the result code; when it found anything else the task
/// reposts itself.
pub fn block_reply(event: ResumeEvent) -> (action: ResumeAction)
    ensures
        resume_step(event, action, WAKE_WITH_RESULT as int),
        action matches ResumeAction::Wake { error, .. } ==> error is None,
{
    match event {
        ResumeEvent::Started { wait_block, single_task } => {
            if wait_block > 0 || single_task > 0 {
                ResumeAction::Repost
            } else {
                ResumeAction::Switch { from: JSStatus::MultiTask, to: JSStatus::SingleTask }
            }
        },
        ResumeEvent::Switched(found) => {
            if found == JSStatus::MultiTask {
                ResumeAction::Wake { code: WAKE_WITH_RESULT, error: None }
            } else {
                ResumeAction::Repost
            }
        },
    }
}

/// One step of a throw task with the given reason.
///
/// It goes as a reply task does, but wakes the interpreter with the error code
/// and has an error object with `reason` installed.
pub fn block_throw(reason: &String, event: ResumeEvent) -> (action: ResumeAction)
    ensures
        resume_step(event, action, WAKE_WITH_ERROR as int),
        action matches ResumeAction::Wake { error, .. } ==> error matches Some(r) && r@ == reason@,
{
    match event {
        ResumeEvent::Started { wait_block, single_task } => {
            if wait_block > 0 || single_task > 0 {
                ResumeAction::Repost
            } else {
                ResumeAction::Switch { from: JSStatus::MultiTask, to: JSStatus::SingleTask }
            }
        },
        ResumeEvent::Switched(found) => {
            if found == JSStatus::MultiTask {
                ResumeAction::Wake { code: WAKE_WITH_ERROR, error: Some(reason.clone()) }
            } else {
                ResumeAction::Repost
            }
        },
    }
}

/// Runs one reply or throw task to its end on an engine whose status is
/// `status`, and says whether the task woke the interpreter. `throw` gives
/// the reason of a throw task, and is `None` for a reply task.
pub fn run_resume(status: &mut JSStatus, throw: Option<&String>) -> (woke: bool)
    ensures
        woke == resume_wakes(*old(status)),
        *final(status) == status_after_resume(*old(status)),
{
    let started = ResumeEvent::Started {
        wait_block: status.status_check(JSStatus::WaitBlock),
        single_task: status.status_check(JSStatus::SingleTask),
    };
    let first = match throw {
        Some(reason) => block_throw(reason, started),
        None => block_reply(started),
    };
    match first {
        ResumeAction::Switch { from, to } => {
            let found = status.status_switch(from, to);
            let second = match throw {
                Some(reason) => block_throw(reason, ResumeEvent::Switched(found)),
                None => block_reply(ResumeEvent::Switched(found)),
            };
            match second {
                ResumeAction::Wake { .. } => true,
                _ => false,
            }
        },
        _ => false,
    }
}

/// Single completion: a resume task wakes the interpreter exactly when it
/// finds the engine paused in `MultiTask`; it then leaves the engine in
/// `SingleTask`, and a resume task that runs after it finds another status,
/// does not wake the engine again and leaves its status alone.
pub proof fn lemma_single_completion(s: JSStatus)
    ensures
        resume_wakes(s) <==> s == JSStatus::MultiTask,
        resume_wakes(s) ==> status_after_resume(s) == JSStatus::SingleTask,
        resume_wakes(s) ==> !resume_wakes(status_after_resume(s)),
        resume_wakes(s) ==> status_after_resume(status_after_resume(s)) == status_after_resume(s),
        !resume_wakes(s) ==> status_after_resume(s) == s,
{
}

} // verus!
