use async_logger::lifecycle::JoinOnce;
use async_logger::message::Message;
use async_logger::queue::{MessageQueue, TryRecv};
use async_logger::worker::{render_line, Action, Worker};

#[derive(Default)]
struct Sinks {
    stdout: String,
    primary: String,
    debug: String,
}

/// Receives and performs writes until the queue is empty or the stream ends.
/// Returns whether the writer finished.
fn drain(q: &mut MessageQueue, w: &mut Worker, sinks: &mut Sinks) -> bool {
    loop {
        match w.step(q.try_recv()) {
            Action::Write(writes) => {
                sinks.stdout.push_str(&writes.stdout_line);
                if writes.to_primary {
                    sinks.primary.push_str(&writes.text);
                }
                if writes.to_debug {
                    sinks.debug.push_str(&writes.text);
                }
            }
            Action::Wait => return false,
            Action::Finish => return true,
        }
    }
}

fn log(q: &mut MessageQueue, text: &str) {
    assert!(q.send(Message::for_log(text.to_string())).is_ok());
}

#[test]
fn it_works() {
    let mut q = MessageQueue::new();
    let mut w = Worker::new("test".to_string(), true);
    let mut sinks = Sinks::default();
    log(&mut q, "Hello, world!");
    log(&mut q, "Hello, world!");
    log(&mut q, "Hello, world!");
    log(&mut q, "Hello, world!");
    q.remove_sender();
    assert!(drain(&mut q, &mut w, &mut sinks));
    assert_eq!(sinks.stdout, "test: Hello, world!\n".repeat(4));
    assert_eq!(sinks.primary, "Hello, world!".repeat(4));
    assert_eq!(sinks.debug, "Hello, world!".repeat(4));
}

#[test]
fn svc_scenario_two_lines_and_joined_file() {
    let mut q = MessageQueue::new();
    let mut w = Worker::new("svc".to_string(), false);
    let mut sinks = Sinks::default();
    log(&mut q, "hello");
    log(&mut q, "world");
    q.remove_sender();
    assert!(drain(&mut q, &mut w, &mut sinks));
    assert_eq!(sinks.primary, "helloworld");
    assert_eq!(sinks.stdout, "svc: hello\nsvc: world\n");
    assert_eq!(sinks.debug, "");
    assert!(w.is_terminated());
}

#[test]
fn single_producer_order_is_kept() {
    let mut q = MessageQueue::new();
    let mut w = Worker::new("p".to_string(), false);
    let mut sinks = Sinks::default();
    for i in 0..5 {
        log(&mut q, &format!("{i},"));
    }
    q.remove_sender();
    assert!(drain(&mut q, &mut w, &mut sinks));
    assert_eq!(sinks.primary, "0,1,2,3,4,");
    assert_eq!(sinks.stdout, "p: 0,\np: 1,\np: 2,\np: 3,\np: 4,\n");
}

#[test]
fn primary_file_skips_unsaved_entries() {
    let mut q = MessageQueue::new();
    let mut w = Worker::new("n".to_string(), false);
    let mut sinks = Sinks::default();
    log(&mut q, "a");
    let quiet = Message { text: "b".to_string(), debug: false, save: false };
    assert!(q.send(quiet).is_ok());
    log(&mut q, "c");
    q.remove_sender();
    assert!(drain(&mut q, &mut w, &mut sinks));
    assert_eq!(sinks.primary, "ac");
    assert_eq!(sinks.stdout, "n: a\nn: b\nn: c\n");
}

#[test]
fn debug_file_mirrors_every_entry_whatever_its_flag() {
    let mut q = MessageQueue::new();
    let mut w = Worker::new("d".to_string(), true);
    let mut sinks = Sinks::default();
    assert!(q.send(Message { text: "x".to_string(), debug: true, save: false }).is_ok());
    assert!(q.send(Message { text: "y".to_string(), debug: false, save: false }).is_ok());
    log(&mut q, "z");
    q.remove_sender();
    assert!(drain(&mut q, &mut w, &mut sinks));
    assert_eq!(sinks.debug, "xyz");
    assert_eq!(sinks.primary, "z");
}

#[test]
fn teardown_after_burst_loses_nothing() {
    let mut q = MessageQueue::new();
    let mut w = Worker::new("burst".to_string(), true);
    let mut sinks = Sinks::default();
    let mut expected = String::new();
    for i in 0..100 {
        let text = format!("m{i};");
        expected.push_str(&text);
        log(&mut q, &text);
    }
    q.remove_sender();
    assert!(q.is_closed());
    assert!(drain(&mut q, &mut w, &mut sinks));
    assert_eq!(sinks.primary, expected);
    assert_eq!(sinks.debug, expected);
    assert_eq!(sinks.stdout.lines().count(), 100);
}

#[test]
fn clone_sends_into_the_same_stream() {
    let mut q = MessageQueue::new();
    let mut w = Worker::new("c".to_string(), false);
    let mut sinks = Sinks::default();
    q.add_sender();
    log(&mut q, "1");
    log(&mut q, "2");
    log(&mut q, "3");
    q.remove_sender();
    assert!(!q.is_closed());
    assert!(!drain(&mut q, &mut w, &mut sinks));
    assert_eq!(sinks.primary, "123");
    log(&mut q, "4");
    q.remove_sender();
    assert!(q.is_closed());
    assert!(drain(&mut q, &mut w, &mut sinks));
    assert_eq!(sinks.primary, "1234");
    assert_eq!(sinks.stdout, "c: 1\nc: 2\nc: 3\nc: 4\n");
}

#[test]
fn empty_queue_with_live_sender_waits() {
    let mut q = MessageQueue::new();
    assert!(matches!(q.try_recv(), TryRecv::Empty));
    let mut w = Worker::new("w".to_string(), false);
    assert!(matches!(w.step(TryRecv::Empty), Action::Wait));
    assert!(!w.is_terminated());
}

#[test]
fn stream_ends_only_when_last_sender_is_gone_and_queue_is_empty() {
    let mut q = MessageQueue::new();
    log(&mut q, "last");
    q.remove_sender();
    match q.try_recv() {
        TryRecv::Ready(m) => assert_eq!(m.text, "last"),
        _ => panic!("expected the pending entry"),
    }
    assert!(matches!(q.try_recv(), TryRecv::Disconnected));
    let mut w = Worker::new("w".to_string(), false);
    assert!(matches!(w.step(TryRecv::Disconnected), Action::Finish));
    assert!(w.is_terminated());
}

#[test]
fn send_fails_once_the_receiver_is_gone() {
    let mut q = MessageQueue::new();
    q.disconnect_receiver();
    match q.send(Message::for_log("lost".to_string())) {
        Err(m) => assert_eq!(m.text, "lost"),
        Ok(()) => panic!("send must fail without a receiver"),
    }
    assert!(matches!(q.try_recv(), TryRecv::Empty));
}

#[test]
fn log_entries_are_saved_and_not_debug() {
    let m = Message::for_log("t".to_string());
    assert_eq!(m.text, "t");
    assert!(m.save);
    assert!(!m.debug);
}

#[test]
fn line_is_name_colon_space_text_newline() {
    assert_eq!(render_line(&"svc".to_string(), &"hello".to_string()), "svc: hello\n");
    assert_eq!(render_line(&String::new(), &String::new()), ": \n");
    assert_eq!(render_line(&"n".to_string(), &"a\nb".to_string()), "n: a\nb\n");
}

#[test]
fn join_handle_is_taken_once() {
    let mut j = JoinOnce::new(7u32);
    assert!(!j.is_taken());
    assert_eq!(j.take(), Some(7));
    assert!(j.is_taken());
    assert_eq!(j.take(), None);
}
