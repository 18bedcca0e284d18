use pi_vm::block::{
    block_reply, block_set_global_var, block_task, block_throw, run_resume, BlockError,
    GlobalVarAction, GlobalVarEvent, ResumeAction, ResumeEvent, WAKE_WITH_ERROR, WAKE_WITH_RESULT,
};
use pi_vm::status::JSStatus;
use pi_vm::task::TaskType;

const ALL: [JSStatus; 5] = [
    JSStatus::NoTask,
    JSStatus::SingleTask,
    JSStatus::MultiTask,
    JSStatus::WaitBlock,
    JSStatus::WaitCallBack,
];

fn started(status: JSStatus) -> ResumeEvent {
    ResumeEvent::Started {
        wait_block: status.status_check(JSStatus::WaitBlock),
        single_task: status.status_check(JSStatus::SingleTask),
    }
}

#[test]
fn blocking_task_goes_to_the_engine_queue() {
    let post = block_task(-7, String::from("reply"));
    assert_eq!(post.kind, TaskType::Sync(false));
    assert_eq!(post.priority, 0);
    assert_eq!(post.queue, Some(-7));
    assert_eq!(post.info, "reply");
}

#[test]
fn wake_codes() {
    assert_eq!(WAKE_WITH_RESULT, 0);
    assert_eq!(WAKE_WITH_ERROR, 1);
}

#[test]
fn set_global_waits_for_the_pause() {
    let name = String::from("g");
    for (wait_block, single_task, multi_task, build) in [
        (1, 0, 0, false),
        (0, 1, 0, false),
        (1, 1, 1, false),
        (0, 1, 1, false),
        (0, 0, 0, false),
        (0, 0, 1, true),
        (-1, -3, 2, true),
        (0, 0, -1, false),
    ] {
        let action = block_set_global_var(
            &name,
            GlobalVarEvent::Started { wait_block, single_task, multi_task },
        );
        if build {
            assert!(matches!(action, GlobalVarAction::Build));
        } else {
            assert!(matches!(action, GlobalVarAction::Repost));
        }
    }
}

#[test]
fn set_global_stores_what_was_built() {
    let name = String::from("answer");
    match block_set_global_var(&name, GlobalVarEvent::Built(Ok(()))) {
        GlobalVarAction::Store(n) => assert_eq!(n, "answer"),
        _ => panic!("the value should be stored"),
    }
    assert!(matches!(
        block_set_global_var(&name, GlobalVarEvent::Stored(true)),
        GlobalVarAction::Finish(Ok(()))
    ));
}

#[test]
fn set_global_reports_a_failed_builder() {
    let name = String::from("answer");
    match block_set_global_var(&name, GlobalVarEvent::Built(Err(String::from("no memory")))) {
        GlobalVarAction::Finish(Err(BlockError::NewGlobalVar(reason))) => {
            assert_eq!(reason, "no memory")
        }
        _ => panic!("a builder error was expected"),
    }
}

#[test]
fn set_global_reports_a_refused_store() {
    let name = String::from("answer");
    match block_set_global_var(&name, GlobalVarEvent::Stored(false)) {
        GlobalVarAction::Finish(Err(BlockError::SetGlobalVar(n))) => assert_eq!(n, "answer"),
        _ => panic!("a store error was expected"),
    }
}

#[test]
fn block_error_variants_carry_their_text() {
    let e = BlockError::Unknow(String::from("x"));
    assert!(matches!(e.clone(), BlockError::Unknow(s) if s == "x"));
    assert_eq!(format!("{:?}", BlockError::NewGlobalVar(String::from("r"))), "NewGlobalVar(\"r\")");
    assert_eq!(format!("{:?}", BlockError::SetGlobalVar(String::from("n"))), "SetGlobalVar(\"n\")");
}

#[test]
fn reply_reposts_while_the_engine_runs() {
    for status in [JSStatus::WaitBlock, JSStatus::SingleTask] {
        assert!(matches!(block_reply(started(status)), ResumeAction::Repost));
        assert!(matches!(
            block_throw(&String::from("e"), started(status)),
            ResumeAction::Repost
        ));
    }
}

#[test]
fn reply_asks_for_the_switch_otherwise() {
    for status in [JSStatus::NoTask, JSStatus::MultiTask, JSStatus::WaitCallBack] {
        match block_reply(started(status)) {
            ResumeAction::Switch { from, to } => {
                assert_eq!(from, JSStatus::MultiTask);
                assert_eq!(to, JSStatus::SingleTask);
            }
            _ => panic!("a switch was expected"),
        }
        assert!(matches!(
            block_throw(&String::from("e"), started(status)),
            ResumeAction::Switch { from: JSStatus::MultiTask, to: JSStatus::SingleTask }
        ));
    }
}

#[test]
fn reply_wakes_with_the_result_code() {
    match block_reply(ResumeEvent::Switched(JSStatus::MultiTask)) {
        ResumeAction::Wake { code, error } => {
            assert_eq!(code, 0);
            assert_eq!(error, None);
        }
        _ => panic!("a wake was expected"),
    }
}

#[test]
fn throw_wakes_with_the_error_code_and_reason() {
    match block_throw(&String::from("boom"), ResumeEvent::Switched(JSStatus::MultiTask)) {
        ResumeAction::Wake { code, error } => {
            assert_eq!(code, 1);
            assert_eq!(error, Some(String::from("boom")));
        }
        _ => panic!("a wake was expected"),
    }
}

#[test]
fn failed_switch_reposts() {
    for found in ALL {
        if found == JSStatus::MultiTask {
            continue;
        }
        assert!(matches!(block_reply(ResumeEvent::Switched(found)), ResumeAction::Repost));
        assert!(matches!(
            block_throw(&String::from("e"), ResumeEvent::Switched(found)),
            ResumeAction::Repost
        ));
    }
}

#[test]
fn run_wakes_only_a_paused_engine() {
    for start in ALL {
        let mut status = start;
        let woke = run_resume(&mut status, None);
        assert_eq!(woke, start == JSStatus::MultiTask);
        if woke {
            assert_eq!(status, JSStatus::SingleTask);
        } else {
            assert_eq!(status, start);
        }
    }
}

#[test]
fn blocking_reply_race() {
    let reason = String::from("late");
    // the reply runs first
    let mut status = JSStatus::MultiTask;
    let reply = run_resume(&mut status, None);
    let throw = run_resume(&mut status, Some(&reason));
    assert!(reply);
    assert!(!throw);
    assert_eq!(status, JSStatus::SingleTask);
    // the throw runs first
    let mut status = JSStatus::MultiTask;
    let throw = run_resume(&mut status, Some(&reason));
    let reply = run_resume(&mut status, None);
    assert!(throw);
    assert!(!reply);
    assert_eq!(status, JSStatus::SingleTask);
}

#[test]
fn loser_of_the_race_wakes_after_the_next_pause() {
    let mut status = JSStatus::MultiTask;
    assert!(run_resume(&mut status, None));
    assert!(!run_resume(&mut status, None));
    // the interpreter runs on and pauses again
    status = JSStatus::MultiTask;
    assert!(run_resume(&mut status, None));
    assert_eq!(status, JSStatus::SingleTask);
}
