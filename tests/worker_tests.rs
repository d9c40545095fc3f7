use std::collections::HashMap;

use kafka_threadpool::config::KafkaClientConfig;
use kafka_threadpool::message::KafkaPublishMessage;
use kafka_threadpool::message::KafkaPublishMessageType;
use kafka_threadpool::worker::pool_workers;
use kafka_threadpool::worker::Worker;
use kafka_threadpool::worker::WorkerAction;
use kafka_threadpool::worker::WorkerEvent;
use kafka_threadpool::worker::WorkerState;

fn config(threads: u8, brokers: Vec<&str>) -> KafkaClientConfig {
    KafkaClientConfig {
        label: "ktp".to_string(),
        is_enabled: true,
        broker_list: brokers.into_iter().map(|b| b.to_string()).collect(),
        publish_topics: HashMap::new(),
        num_threads: threads,
        retry_sleep_sec: 1000,
        idle_sleep_sec: 500,
        tls_key: String::new(),
        tls_cert: String::new(),
        tls_ca: String::new(),
    }
}

fn msg(kind: KafkaPublishMessageType, payload: &str) -> KafkaPublishMessage {
    KafkaPublishMessage::new_from(kind, "testing", "key", None, payload)
}

#[test]
fn worker_without_brokers_stops_at_once() {
    let w = Worker::new(0, &config(1, vec![]));
    assert_eq!(w.state(), WorkerState::Terminated);
    assert!(matches!(w.pending_action(), WorkerAction::Exit(0)));
    let w = Worker::new(0, &config(1, vec![""]));
    assert_eq!(w.state(), WorkerState::Terminated);
}

#[test]
fn worker_with_brokers_starts_draining() {
    let w = Worker::new(3, &config(4, vec!["host:9092"]));
    assert_eq!(w.state(), WorkerState::Draining);
    assert_eq!(w.thread_num(), 3);
    assert!(matches!(w.pending_action(), WorkerAction::Drain(10)));
}

#[test]
fn empty_drain_sleeps_idle_then_drains() {
    let mut w = Worker::new(0, &config(1, vec!["host:9092"]));
    let a = w.step(WorkerEvent::Drained(Vec::new()));
    assert!(matches!(a, WorkerAction::Sleep(500)));
    assert_eq!(w.state(), WorkerState::Idle);
    let a = w.step(WorkerEvent::Slept);
    assert!(matches!(a, WorkerAction::Drain(10)));
    assert_eq!(w.state(), WorkerState::Draining);
}

#[test]
fn publish_retries_same_message_until_success() {
    let mut w = Worker::new(0, &config(1, vec!["host:9092"]));
    let a = w.step(WorkerEvent::Drained(vec![
        msg(KafkaPublishMessageType::Data, "one"),
        msg(KafkaPublishMessageType::Sensitive, "two"),
    ]));
    match a {
        WorkerAction::Publish(m) => assert_eq!(m.payload, "one"),
        _ => panic!("expected a publish"),
    }
    let a = w.step(WorkerEvent::Published(-1));
    assert!(matches!(a, WorkerAction::Sleep(1000)));
    assert_eq!(w.state(), WorkerState::RetryWait);
    match w.step(WorkerEvent::Slept) {
        WorkerAction::Publish(m) => assert_eq!(m.payload, "one"),
        _ => panic!("expected the same publish"),
    }
    match w.step(WorkerEvent::Published(0)) {
        WorkerAction::Publish(m) => {
            assert_eq!(m.payload, "two");
            assert_eq!(m.msg_type, KafkaPublishMessageType::Sensitive);
        }
        _ => panic!("expected the next publish"),
    }
    let a = w.step(WorkerEvent::Published(0));
    assert!(matches!(a, WorkerAction::Drain(10)));
    assert_eq!(w.batch_len(), 0);
    assert_eq!(w.dropped(), 0);
}

#[test]
fn shutdown_requeues_and_stops_dropping_the_rest() {
    let mut w = Worker::new(0, &config(1, vec!["host:9092"]));
    let _ = w.step(WorkerEvent::Drained(vec![
        msg(KafkaPublishMessageType::Data, "one"),
        msg(KafkaPublishMessageType::Shutdown, ""),
        msg(KafkaPublishMessageType::Data, "left behind"),
    ]));
    match w.step(WorkerEvent::Published(0)) {
        WorkerAction::Requeue(m) => assert_eq!(m.msg_type, KafkaPublishMessageType::Shutdown),
        _ => panic!("expected a requeue"),
    }
    assert_eq!(w.state(), WorkerState::ShuttingDown);
    let a = w.step(WorkerEvent::Requeued(Ok(1)));
    assert!(matches!(a, WorkerAction::Exit(1)));
    assert_eq!(w.state(), WorkerState::Terminated);
    assert_eq!(w.dropped(), 1);
    assert!(matches!(w.step(WorkerEvent::Slept), WorkerAction::Exit(0)));
}

#[test]
fn unsupported_kind_discards_rest_of_batch() {
    let mut w = Worker::new(0, &config(1, vec!["host:9092"]));
    let a = w.step(WorkerEvent::Drained(vec![
        msg(KafkaPublishMessageType::LogBrokerDetails, ""),
        msg(KafkaPublishMessageType::Data, "lost"),
        msg(KafkaPublishMessageType::Data, "lost too"),
    ]));
    assert!(matches!(a, WorkerAction::Drain(10)));
    assert_eq!(w.state(), WorkerState::Draining);
    assert_eq!(w.dropped(), 3);
    let _ = w.step(WorkerEvent::Drained(vec![msg(KafkaPublishMessageType::LogBrokerTopicDetails, "")]));
    assert_eq!(w.dropped(), 4);
}

#[test]
fn unexpected_event_repeats_pending_action() {
    let mut w = Worker::new(0, &config(1, vec!["host:9092"]));
    assert!(matches!(w.step(WorkerEvent::Published(0)), WorkerAction::Drain(10)));
    assert_eq!(w.state(), WorkerState::Draining);
}

#[test]
fn pool_has_one_worker_per_thread() {
    let ws = pool_workers(&config(4, vec!["a:1"]));
    assert_eq!(ws.len(), 4);
    for (i, w) in ws.iter().enumerate() {
        assert_eq!(w.thread_num() as usize, i);
        assert_eq!(w.state(), WorkerState::Draining);
    }
    assert!(pool_workers(&config(0, vec!["a:1"])).is_empty());
}
