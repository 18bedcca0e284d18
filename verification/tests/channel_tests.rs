use pi_vm::channel_map::{Args, GenType, Handler, VMChannel, VMChannelMap, VMChannelPeer};
use pi_vm::pi_vm_impl::{
    async_request, callback_task, get_async_request_size, get_channels_gray, push_callback,
    register_async_request, run_push, set_channels_gray, unregister_async_request,
};
use pi_vm::status::JSStatus;
use pi_vm::task::TaskType;
use std::cell::RefCell;
use std::rc::Rc;
use std::sync::Arc;

type Seen = Rc<RefCell<Vec<(u32, u32, Vec<u8>, String)>>>;

/// Answers at once with two bytes, and notes what it pushed and saw.
struct Echo {
    tag: u32,
    seen: Seen,
    grays: Rc<RefCell<Vec<Option<GenType>>>>,
}

impl Handler<u32> for Echo {
    fn handle(&self, env: VMChannel<u32>, name: String, args: Args) {
        self.grays.borrow_mut().push(env.get_attr(&String::from("_$gray")));
        let Args::ThreeArgs(_msg, _objs, callback) = args;
        if let Some(cb) = callback {
            if let Some(reply) = env.response(cb, Arc::new(vec![0x01, 0x02])) {
                assert_eq!(reply.args, 1);
                assert_eq!(reply.info, "vm async call response task");
                self.seen.borrow_mut().push((*reply.vm, reply.callback, (*reply.result).clone(), name));
            }
        }
        let _ = self.tag;
    }
}

fn echo(tag: u32) -> (Echo, Seen, Rc<RefCell<Vec<Option<GenType>>>>) {
    let seen: Seen = Rc::new(RefCell::new(Vec::new()));
    let grays = Rc::new(RefCell::new(Vec::new()));
    (Echo { tag, seen: seen.clone(), grays: grays.clone() }, seen, grays)
}

#[test]
fn new_registry_is_empty() {
    let channels: VMChannelMap<u8> = VMChannelMap::new(0);
    assert_eq!(channels.get_gray(), 0);
    assert_eq!(channels.size(), 0);
    assert_eq!(get_channels_gray(&channels), 0);
    assert_eq!(get_async_request_size(&channels), 0);
}

#[test]
fn gray_round_trip() {
    let mut channels: VMChannelMap<u8> = VMChannelMap::new(0);
    assert_eq!(set_channels_gray(&mut channels, 7), 0);
    assert_eq!(get_channels_gray(&channels), 7);
    assert_eq!(set_channels_gray(&mut channels, usize::MAX), 7);
    assert_eq!(get_channels_gray(&channels), usize::MAX);
    assert_eq!(channels.set_gray(3), usize::MAX);
    assert_eq!(channels.get_gray(), 3);
    assert_eq!(channels.size(), 0);
}

#[test]
fn size_counts_registered_names() {
    let mut channels: VMChannelMap<u8> = VMChannelMap::new(0);
    assert_eq!(register_async_request(&mut channels, String::from("a"), 1), None);
    assert_eq!(register_async_request(&mut channels, String::from("b"), 2), None);
    assert_eq!(get_async_request_size(&channels), 2);
    // a second registration of a name replaces the handler
    assert_eq!(register_async_request(&mut channels, String::from("a"), 3), Some(1));
    assert_eq!(get_async_request_size(&channels), 2);
    assert_eq!(channels.handler(&String::from("a")), Some(&3));
    assert_eq!(channels.handler(&String::from("b")), Some(&2));
    assert_eq!(unregister_async_request(&mut channels, String::from("zz")), None);
    assert_eq!(get_async_request_size(&channels), 2);
    assert_eq!(unregister_async_request(&mut channels, String::from("a")), Some(3));
    assert_eq!(get_async_request_size(&channels), 1);
    assert_eq!(unregister_async_request(&mut channels, String::from("a")), None);
    assert_eq!(channels.handler(&String::from("a")), None);
    assert_eq!(channels.remove(&String::from("b")), Some(2));
    assert_eq!(channels.size(), 0);
    assert_eq!(channels.set(String::from("b"), 9), None);
    assert_eq!(channels.size(), 1);
}

#[test]
fn names_differ_by_every_character() {
    let mut channels: VMChannelMap<u8> = VMChannelMap::new(0);
    channels.set(String::from("echo"), 1);
    channels.set(String::from("echo "), 2);
    channels.set(String::from("Echo"), 3);
    channels.set(String::new(), 4);
    assert_eq!(channels.size(), 4);
    assert_eq!(channels.handler(&String::from("echo")), Some(&1));
    assert_eq!(channels.handler(&String::new()), Some(&4));
    assert_eq!(channels.remove(&String::from("echo ")), Some(2));
    assert_eq!(channels.handler(&String::from("Echo")), Some(&3));
    assert_eq!(channels.handler(&String::from("echo")), Some(&1));
}

#[test]
fn request_of_an_unknown_name_is_refused() {
    let (handler, seen, grays) = echo(0);
    let mut channels = VMChannelMap::new(0);
    channels.set(String::from("echo"), handler);
    let found = channels.request(3u32, String::from("nobody"), Arc::new(vec![]), vec![], Some(1));
    assert!(!found);
    assert!(seen.borrow().is_empty());
    assert!(grays.borrow().is_empty());
}

#[test]
fn reply_path() {
    let (handler, seen, grays) = echo(0);
    let mut channels = VMChannelMap::new(0);
    assert!(register_async_request(&mut channels, String::from("echo"), handler).is_none());
    let found = async_request(&channels, 3u32, String::from("echo"), Arc::new(vec![]), vec![], Some(77));
    assert!(found);
    assert_eq!(*seen.borrow(), vec![(3, 77, vec![1u8, 2], String::from("echo"))]);
    assert_eq!(*grays.borrow(), vec![Some(GenType::USize(0))]);
}

#[test]
fn request_carries_the_gray_value() {
    let (handler, _seen, grays) = echo(0);
    let mut channels = VMChannelMap::new(5);
    channels.set(String::from("echo"), handler);
    assert!(channels.request(1u32, String::from("echo"), Arc::new(vec![9]), vec![4, 5], None));
    channels.set_gray(6);
    assert!(channels.request(1u32, String::from("echo"), Arc::new(vec![9]), vec![4, 5], None));
    assert_eq!(*grays.borrow(), vec![Some(GenType::USize(5)), Some(GenType::USize(6))]);
}

#[test]
fn request_without_callback_gets_no_reply() {
    let (handler, seen, _grays) = echo(0);
    let mut channels = VMChannelMap::new(0);
    channels.set(String::from("echo"), handler);
    assert!(channels.request(1u32, String::from("echo"), Arc::new(vec![]), vec![], None));
    assert!(seen.borrow().is_empty());
}

#[test]
fn request_channel_is_from_the_engine_to_any() {
    let channels: VMChannelMap<u8> = VMChannelMap::new(11);
    let channel = channels.channel(42u32);
    assert_eq!(channel.get_attr(&String::from("_$gray")), Some(GenType::USize(11)));
    assert_eq!(channel.get_attr(&String::from("gray")), None);
    let reply = channel.response(8, Arc::new(vec![5u8])).unwrap();
    assert_eq!(*reply.vm, 42);
    assert_eq!(reply.callback, 8);
    assert_eq!(*reply.result, vec![5u8]);
}

#[test]
fn channel_from_any_has_nobody_to_answer() {
    let channel: VMChannel<u32> = VMChannel::new(VMChannelPeer::Any, VMChannelPeer::VM(1));
    assert!(channel.response(1, Arc::new(vec![1u8])).is_none());
    channel.send(&String::from("x"), &Arc::new(vec![1u8]));
}

#[test]
fn attributes_are_a_bag() {
    let mut channel: VMChannel<u32> = VMChannel::new(VMChannelPeer::VM(1), VMChannelPeer::Any);
    assert_eq!(channel.get_attr(&String::from("k")), None);
    assert_eq!(channel.set_attr(String::from("k"), GenType::Bool(true)), None);
    assert_eq!(channel.set_attr(String::from("j"), GenType::ISize(-4)), None);
    assert_eq!(channel.set_attr(String::from("k"), GenType::Nil), Some(GenType::Bool(true)));
    assert_eq!(channel.get_attr(&String::from("k")), Some(GenType::Nil));
    assert_eq!(channel.get_attr(&String::from("j")), Some(GenType::ISize(-4)));
    assert_eq!(channel.remove_attr(&String::from("k")), Some(GenType::Nil));
    assert_eq!(channel.remove_attr(&String::from("k")), None);
    assert_eq!(channel.get_attr(&String::from("j")), Some(GenType::ISize(-4)));
    assert!(channel.response(2, Arc::new(vec![])).is_some());
}

#[test]
fn pushed_callback_drains_a_waiting_engine() {
    assert_eq!(callback_task(), TaskType::Sync(true));
    let outcome = push_callback(3, JSStatus::WaitCallBack);
    assert_eq!(outcome.count, 3);
    assert!(outcome.drain);
    for found in [JSStatus::NoTask, JSStatus::SingleTask, JSStatus::MultiTask, JSStatus::WaitBlock] {
        let outcome = push_callback(1, found);
        assert_eq!(outcome.count, 1);
        assert!(!outcome.drain);
    }
    let failed = push_callback(0, JSStatus::SingleTask);
    assert_eq!(failed.count, 0);
}

#[test]
fn push_switches_a_waiting_engine_to_running() {
    let mut status = JSStatus::WaitCallBack;
    let outcome = run_push(&mut status, 2);
    assert!(outcome.drain);
    assert_eq!(outcome.count, 2);
    assert_eq!(status, JSStatus::SingleTask);
    let outcome = run_push(&mut status, 3);
    assert!(!outcome.drain);
    assert_eq!(outcome.count, 3);
    assert_eq!(status, JSStatus::SingleTask);
    let mut paused = JSStatus::MultiTask;
    assert!(!run_push(&mut paused, 1).drain);
    assert_eq!(paused, JSStatus::MultiTask);
}

type Calls = Rc<RefCell<Vec<(Option<u32>, String, Vec<u8>, Vec<usize>, Option<u32>)>>>;

/// Notes every call: the engine of the channel, the name and the arguments.
struct Recorder {
    calls: Calls,
}

impl Handler<u32> for Recorder {
    fn handle(&self, env: VMChannel<u32>, name: String, args: Args) {
        let engine = env.response(0, Arc::new(vec![])).map(|reply| *reply.vm);
        let Args::ThreeArgs(msg, objs, callback) = args;
        self.calls.borrow_mut().push((engine, name, (*msg).clone(), objs, callback));
    }
}

#[test]
fn request_hands_over_the_three_arguments() {
    let calls: Calls = Rc::new(RefCell::new(Vec::new()));
    let mut channels = VMChannelMap::new(0);
    channels.set(String::from("echo"), Recorder { calls: calls.clone() });
    assert!(channels.request(9u32, String::from("echo"), Arc::new(vec![]), vec![], Some(77)));
    assert!(async_request(&channels, 4u32, String::from("echo"), Arc::new(vec![1, 2]), vec![8, 9], None));
    assert!(!channels.request(9u32, String::from("other"), Arc::new(vec![3]), vec![1], Some(1)));
    assert_eq!(
        *calls.borrow(),
        vec![
            (Some(9), String::from("echo"), vec![], vec![], Some(77)),
            (Some(4), String::from("echo"), vec![1u8, 2], vec![8usize, 9], None),
        ]
    );
    assert_eq!(channels.size(), 1);
    assert_eq!(channels.get_gray(), 0);
}
