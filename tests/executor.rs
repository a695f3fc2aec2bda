use sara_mix_executor::executor::work_message;
use sara_mix_executor::message::Message;
use sara_mix_executor::worker::{Step, Worker};

fn work(p: &str, i: &str) -> Message {
    Message::Work(String::from(p), String::from(i))
}

fn deliver(p: &str, i: &str) -> Step {
    Step::Deliver(String::from(p), String::from(i))
}

#[test]
fn enqueue_on_live_executor_sends_work() {
    let m = work_message(true, Some(b"pl-1"), Some(b"it-7"));
    assert_eq!(m, Some(work("pl-1", "it-7")));
}

#[test]
fn enqueue_after_flag_flip_sends_nothing() {
    assert_eq!(work_message(false, Some(b"pl-1"), Some(b"it-7")), None);
}

#[test]
fn enqueue_with_absent_identifier_sends_nothing() {
    assert_eq!(work_message(true, None, Some(b"it")), None);
    assert_eq!(work_message(true, Some(b"pl"), None), None);
    assert_eq!(work_message(true, None, None), None);
}

#[test]
fn malformed_identifier_arrives_empty() {
    let m = work_message(true, Some(&[0xfe, 0xfe]), Some(b"item"));
    assert_eq!(m, Some(work("", "item")));
    let mut w = Worker::new(true);
    assert_eq!(w.on_receive(m), deliver("", "item"));
}

#[test]
fn fifo_order_then_silence() {
    let ids: [(&[u8], &[u8]); 3] = [(b"a", b"1"), (b"b", b"2"), (b"c", b"3")];
    let mut w = Worker::new(true);
    let mut seen = Vec::new();
    for (p, i) in ids.iter() {
        let m = work_message(true, Some(p), Some(i));
        match w.on_receive(m) {
            Step::Deliver(p, i) => seen.push((p, i)),
            other => panic!("unexpected step {:?}", other),
        }
    }
    assert_eq!(w.on_receive(Some(Message::Shutdown)), Step::Exit);
    assert!(!w.is_running());
    assert_eq!(w.on_receive(Some(work("d", "4"))), Step::Exit);
    assert_eq!(
        seen,
        vec![
            (String::from("a"), String::from("1")),
            (String::from("b"), String::from("2")),
            (String::from("c"), String::from("3")),
        ]
    );
}

#[test]
fn no_callback_drops_everything() {
    let mut w = Worker::new(false);
    for k in 0..5 {
        let id = format!("{}", k);
        assert_eq!(w.on_receive(Some(work("p", &id))), Step::Discard);
        assert!(w.is_running());
    }
    assert_eq!(w.on_receive(Some(Message::Shutdown)), Step::Exit);
    assert!(!w.is_running());
}

#[test]
fn shutdown_drains_queued_work() {
    let queue = vec![
        Some(work("p", "1")),
        Some(work("p", "2")),
        Some(work("p", "3")),
        Some(Message::Shutdown),
        Some(work("p", "late")),
    ];
    let mut w = Worker::new(true);
    let mut seen = Vec::new();
    for m in queue {
        if !w.is_running() {
            break;
        }
        if let Step::Deliver(_, i) = w.on_receive(m) {
            seen.push(i);
        }
    }
    assert_eq!(seen, vec![String::from("1"), String::from("2"), String::from("3")]);
    assert!(!w.is_running());
}

#[test]
fn stopped_worker_never_delivers() {
    let mut w = Worker::new(true);
    assert_eq!(w.on_receive(Some(Message::Shutdown)), Step::Exit);
    assert_eq!(w.on_receive(Some(work("p", "i"))), Step::Exit);
    assert_eq!(w.on_receive(None), Step::Exit);
    assert_eq!(work_message(false, Some(b"p"), Some(b"i")), None);
}

#[test]
fn closed_channel_stops_worker() {
    let mut w = Worker::new(true);
    assert!(w.is_running());
    assert_eq!(w.on_receive(None), Step::Exit);
    assert!(!w.is_running());
}
