use std::collections::HashMap;

use kafka_threadpool::message::build_kafka_publish_message;
use kafka_threadpool::message::describe_message;
use kafka_threadpool::message::KafkaPublishMessage;
use kafka_threadpool::message::KafkaPublishMessageType;

fn headers_one() -> Option<HashMap<String, String>> {
    let mut h = HashMap::new();
    h.insert("header 1".to_string(), "value 1".to_string());
    Some(h)
}

#[test]
fn new_message_is_empty_data() {
    let m = KafkaPublishMessage::new();
    assert_eq!(m.msg_type, KafkaPublishMessageType::Data);
    assert_eq!(m.topic, "");
    assert_eq!(m.key, "");
    assert!(m.headers.is_none());
    assert_eq!(m.payload, "");
    let d = KafkaPublishMessage::default();
    assert_eq!(d.msg_type, KafkaPublishMessageType::Data);
    assert_eq!(KafkaPublishMessageType::default(), KafkaPublishMessageType::Data);
}

#[test]
fn new_from_copies_fields() {
    let m = KafkaPublishMessage::new_from(
        KafkaPublishMessageType::Sensitive,
        "testing",
        "custom-key",
        headers_one(),
        "payload",
    );
    assert_eq!(m.msg_type, KafkaPublishMessageType::Sensitive);
    assert_eq!(m.topic, "testing");
    assert_eq!(m.key, "custom-key");
    assert_eq!(m.headers.as_ref().unwrap().get("header 1").unwrap(), "value 1");
    assert_eq!(m.payload, "payload");
    let c = m.clone();
    assert_eq!(c.topic, "testing");
    assert_eq!(c.payload, "payload");
    assert_eq!(c.headers.as_ref().unwrap().len(), 1);
}

#[test]
fn build_message_matches_new_from() {
    let m = build_kafka_publish_message(
        KafkaPublishMessageType::Data,
        "testing",
        "custom-partition-key",
        headers_one(),
        "testing build_kafka_publish_message",
    );
    assert_eq!(m.msg_type, KafkaPublishMessageType::Data);
    assert_eq!(m.topic, "testing");
    assert_eq!(m.key, "custom-partition-key");
    assert_eq!(m.payload, "testing build_kafka_publish_message");
}

#[test]
fn kind_names() {
    assert_eq!(KafkaPublishMessageType::Data.name(), "Data");
    assert_eq!(KafkaPublishMessageType::Shutdown.name(), "Shutdown");
    assert_eq!(KafkaPublishMessageType::LogBrokerDetails.name(), "LogBrokerDetails");
    assert_eq!(KafkaPublishMessageType::LogBrokerTopicDetails.name(), "LogBrokerTopicDetails");
    assert_eq!(KafkaPublishMessageType::Sensitive.name(), "Sensitive");
}

#[test]
fn describe_data_message_exactly() {
    let s = describe_message(KafkaPublishMessageType::Data, "t", "k", "None", "hello");
    assert_eq!(s, "KafkaPublishMessage type=Data topic=t key=k headers=None payload=hello");
}

#[test]
fn describe_sensitive_message_exactly() {
    let s = describe_message(KafkaPublishMessageType::Sensitive, "t", "k", "None", "secret");
    assert_eq!(s, "SENSITIVE KafkaPublishMessage type=Sensitive topic=t key=k headers=None");
}

#[test]
fn sensitive_text_never_shows_payload() {
    let m = KafkaPublishMessage::new_from(
        KafkaPublishMessageType::Sensitive,
        "topic-a",
        "key-a",
        headers_one(),
        "very-secret-payload",
    );
    let s = m.to_string();
    assert!(!s.contains("very-secret-payload"));
    assert!(s.starts_with("SENSITIVE KafkaPublishMessage type=Sensitive topic=topic-a key=key-a headers=Some("));
    let d = m.to_debug_string();
    assert!(!d.contains("very-secret-payload"));
    assert!(d.starts_with("DEBUG SENSITIVE KafkaPublishMessage"));
}

#[test]
fn data_text_shows_payload() {
    let m = KafkaPublishMessage::new_from(
        KafkaPublishMessageType::Data,
        "topic-a",
        "key-a",
        None,
        "visible-payload",
    );
    assert_eq!(
        m.to_string(),
        "KafkaPublishMessage type=Data topic=topic-a key=key-a headers=None payload=visible-payload"
    );
    assert_eq!(
        m.to_debug_string(),
        "DEBUG KafkaPublishMessage type=Data topic=topic-a key=key-a headers=None payload=visible-payload"
    );
}

#[test]
fn headers_text_lists_the_entry() {
    let m = KafkaPublishMessage::new_from(KafkaPublishMessageType::Data, "t", "k", headers_one(), "p");
    let s = m.to_string();
    assert!(s.contains("headers=Some({\"header 1\": \"value 1\"})"));
}
