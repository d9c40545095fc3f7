use std::collections::HashMap;

use kafka_threadpool::config::build_kafka_client_config;
use kafka_threadpool::config::is_enabled_value;
use kafka_threadpool::config::parse_u8;
use kafka_threadpool::config::split_on_commas;
use kafka_threadpool::config::ConfigError;
use kafka_threadpool::config::ConfigSettings;
use kafka_threadpool::config::KafkaClientConfig;

fn unset() -> ConfigSettings {
    ConfigSettings {
        enabled: None,
        log_label: None,
        brokers: None,
        topics: None,
        retry_sleep_ms: None,
        idle_sleep_ms: None,
        num_threads: None,
        tls_key: None,
        tls_cert: None,
        tls_ca: None,
    }
}

#[test]
fn switch_values() {
    assert!(is_enabled_value("true"));
    assert!(is_enabled_value("TRUE"));
    assert!(is_enabled_value("True"));
    assert!(is_enabled_value("1"));
    assert!(!is_enabled_value("0"));
    assert!(!is_enabled_value("false"));
    assert!(!is_enabled_value(""));
}

#[test]
fn split_cuts_at_every_comma() {
    assert_eq!(split_on_commas("a:1,b:2,,c:3"), vec!["a:1", "b:2", "", "c:3"]);
    assert_eq!(split_on_commas(""), vec![""]);
    assert_eq!(split_on_commas("one"), vec!["one"]);
    assert_eq!(split_on_commas(","), vec!["", ""]);
}

#[test]
fn parse_u8_as_std_does() {
    for s in ["0", "5", "+7", "255", "007", "256", "", "+", "-1", "1a", " 1", "999"] {
        assert_eq!(parse_u8(s), s.parse::<u8>().ok(), "text {s:?}");
    }
}

#[test]
fn defaults_when_nothing_is_set() {
    let c = KafkaClientConfig::from_settings("ktp", &unset()).unwrap();
    assert!(c.is_enabled);
    assert_eq!(c.label, "ktp");
    assert_eq!(c.broker_list, vec![""]);
    assert_eq!(c.num_threads, 5);
    assert_eq!(c.retry_sleep_sec, 1000);
    assert_eq!(c.idle_sleep_sec, 500);
    assert_eq!(c.tls_key, "");
    assert_eq!(c.tls_cert, "");
    assert_eq!(c.tls_ca, "");
}

#[test]
fn values_are_taken() {
    let mut s = unset();
    s.enabled = Some("1".to_string());
    s.log_label = Some("mine".to_string());
    s.brokers = Some("h1:9092,h2:9092".to_string());
    s.topics = Some("testing,other".to_string());
    s.retry_sleep_ms = Some(2500);
    s.idle_sleep_ms = Some(10);
    s.num_threads = Some("12".to_string());
    s.tls_key = Some("k.pem".to_string());
    s.tls_cert = Some("c.pem".to_string());
    s.tls_ca = Some("ca.pem".to_string());
    let c = build_kafka_client_config("ktp", &s).unwrap();
    assert_eq!(c.label, "mine");
    assert_eq!(c.broker_list, vec!["h1:9092", "h2:9092"]);
    let mut expected: HashMap<String, String> = HashMap::new();
    expected.insert("testing".to_string(), "0".to_string());
    expected.insert("other".to_string(), "0".to_string());
    assert_eq!(c.publish_topics, expected);
    assert_eq!(c.num_threads, 12);
    assert_eq!(c.retry_sleep_sec, 2500);
    assert_eq!(c.idle_sleep_sec, 10);
    assert_eq!(c.tls_key, "k.pem");
    assert_eq!(c.tls_cert, "c.pem");
    assert_eq!(c.tls_ca, "ca.pem");
}

#[test]
fn switched_off_gives_empty_settings() {
    let mut s = unset();
    s.enabled = Some("no".to_string());
    s.log_label = Some("ignored".to_string());
    s.brokers = Some("h:1".to_string());
    let c = KafkaClientConfig::from_settings("ktp", &s).unwrap();
    assert!(!c.is_enabled);
    assert_eq!(c.label, "ktp");
    assert!(c.broker_list.is_empty());
    assert_eq!(c.num_threads, 0);
    assert_eq!(c.retry_sleep_sec, 0);
    let d = KafkaClientConfig::default();
    assert!(!d.is_enabled);
    assert_eq!(d.num_threads, 0);
}

#[test]
fn each_error_has_its_input() {
    let mut s = unset();
    s.retry_sleep_ms = Some(1);
    assert_eq!(KafkaClientConfig::from_settings("l", &s).err(), Some(ConfigError::RetrySleepTooShort));
    let mut s = unset();
    s.idle_sleep_ms = Some(0);
    assert_eq!(KafkaClientConfig::from_settings("l", &s).err(), Some(ConfigError::IdleSleepTooShort));
    let mut s = unset();
    s.num_threads = Some("many".to_string());
    assert_eq!(KafkaClientConfig::from_settings("l", &s).err(), Some(ConfigError::InvalidThreadCount));
    let mut s = unset();
    s.num_threads = Some("300".to_string());
    assert_eq!(KafkaClientConfig::from_settings("l", &s).err(), Some(ConfigError::InvalidThreadCount));
    let mut s = unset();
    s.num_threads = Some("0".to_string());
    assert_eq!(KafkaClientConfig::from_settings("l", &s).err(), Some(ConfigError::NoThreads));
}

#[test]
fn brokers_available_needs_a_first_entry() {
    let mut c = KafkaClientConfig::default();
    assert!(!c.brokers_available());
    c.broker_list = vec!["".to_string(), "h:1".to_string()];
    assert!(!c.brokers_available());
    c.broker_list = vec!["h:1".to_string()];
    assert!(c.brokers_available());
}
