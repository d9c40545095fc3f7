use std::sync::Arc;
use std::sync::Mutex;

use kafka_threadpool::message::KafkaPublishMessage;
use kafka_threadpool::message::KafkaPublishMessageType;
use kafka_threadpool::work_queue::add_messages_to_locked_work_vec;
use kafka_threadpool::work_queue::append_messages;
use kafka_threadpool::work_queue::drain_batch;
use kafka_threadpool::work_queue::drain_messages_from_locked_work_vec;
use kafka_threadpool::work_queue::drain_messages_up_to;
use kafka_threadpool::work_queue::new_work_vec;
use kafka_threadpool::work_queue::MAX_BATCH;

fn data(i: usize) -> KafkaPublishMessage {
    KafkaPublishMessage::new_from(
        KafkaPublishMessageType::Data,
        "testing",
        "testing",
        None,
        &format!("test message {i}"),
    )
}

fn batch(n: usize) -> Vec<KafkaPublishMessage> {
    (0..n).map(data).collect()
}

fn payloads(v: &[KafkaPublishMessage]) -> Vec<String> {
    v.iter().map(|m| m.payload.clone()).collect()
}

#[test]
fn empty_batch_is_refused() {
    let q = new_work_vec();
    add_messages_to_locked_work_vec(&q, batch(3)).unwrap();
    let r = add_messages_to_locked_work_vec(&q, Vec::new());
    assert_eq!(r, Err("no msgs to add".to_string()));
    assert_eq!(q.lock().unwrap().len(), 3);
}

#[test]
fn append_refuses_empty_and_keeps_queue() {
    let mut work = batch(2);
    let r = append_messages(&mut work, Vec::new());
    assert_eq!(r, Err("no msgs to add".to_string()));
    assert_eq!(work.len(), 2);
}

#[test]
fn append_keeps_order_and_counts() {
    let mut work = batch(2);
    let r = append_messages(&mut work, vec![data(7), data(8)]);
    assert_eq!(r, Ok(4));
    assert_eq!(
        payloads(&work),
        vec!["test message 0", "test message 1", "test message 7", "test message 8"]
    );
}

#[test]
fn enqueue_returns_new_length() {
    let q: Arc<Mutex<Vec<KafkaPublishMessage>>> = Arc::new(Mutex::new(Vec::new()));
    assert_eq!(add_messages_to_locked_work_vec(&q, batch(4)), Ok(4));
    assert_eq!(add_messages_to_locked_work_vec(&q, batch(1)), Ok(5));
}

#[test]
fn drain_batch_takes_front_in_order() {
    let mut work = batch(5);
    let out = drain_batch(&mut work, 3);
    assert_eq!(payloads(&out), vec!["test message 0", "test message 1", "test message 2"]);
    assert_eq!(payloads(&work), vec!["test message 3", "test message 4"]);
    let out = drain_batch(&mut work, 10);
    assert_eq!(out.len(), 2);
    assert!(work.is_empty());
    let out = drain_batch(&mut work, 10);
    assert!(out.is_empty());
}

#[test]
fn drain_of_fifteen_gives_ten_then_five() {
    let q = new_work_vec();
    add_messages_to_locked_work_vec(&q, batch(15)).unwrap();
    let first = drain_messages_from_locked_work_vec(&q);
    assert_eq!(first.len(), 10);
    assert_eq!(payloads(&first), payloads(&batch(10)));
    assert_eq!(q.lock().unwrap().len(), 5);
    let second = drain_messages_from_locked_work_vec(&q);
    assert_eq!(
        payloads(&second),
        vec![
            "test message 10",
            "test message 11",
            "test message 12",
            "test message 13",
            "test message 14"
        ]
    );
    assert_eq!(q.lock().unwrap().len(), 0);
    assert_eq!(MAX_BATCH, 10);
}

#[test]
fn drain_in_order_leaves_the_rest() {
    for max in [1usize, 3, 7, 12] {
        let q = new_work_vec();
        add_messages_to_locked_work_vec(&q, batch(7)).unwrap();
        let out = drain_messages_up_to(&q, max);
        let k = max.min(7);
        assert_eq!(payloads(&out), payloads(&batch(k)));
        assert_eq!(q.lock().unwrap().len(), 7 - k);
    }
}

#[test]
fn drain_of_empty_queue_is_empty() {
    let q = new_work_vec();
    assert!(drain_messages_from_locked_work_vec(&q).is_empty());
}
