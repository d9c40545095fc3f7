use std::collections::HashMap;

use kafka_threadpool::client::consumer_client_config;
use kafka_threadpool::client::join_brokers;
use kafka_threadpool::client::producer_client_config;
use kafka_threadpool::config::KafkaClientConfig;
use kafka_threadpool::headers::convert_hashmap_headers_to_ownedheaders;
use kafka_threadpool::headers::message_headers;
use rdkafka::message::Headers;
use rdkafka::message::OwnedHeaders;

fn config(tls: bool) -> KafkaClientConfig {
    let mut c = KafkaClientConfig::default();
    c.is_enabled = true;
    c.broker_list = vec!["h1:9092".to_string(), "h2:9093".to_string()];
    if tls {
        c.tls_key = "key.pem".to_string();
        c.tls_cert = "cert.pem".to_string();
        c.tls_ca = "ca.pem".to_string();
    }
    c
}

#[test]
fn brokers_are_joined_with_commas() {
    assert_eq!(join_brokers(&vec!["a:1".to_string(), "b:2".to_string()]), "a:1,b:2");
    assert_eq!(join_brokers(&vec!["a:1".to_string()]), "a:1");
    assert_eq!(join_brokers(&Vec::new()), "");
}

#[test]
fn plaintext_producer_settings() {
    let c = producer_client_config(&config(false));
    assert_eq!(c.get("bootstrap.servers"), Some("h1:9092,h2:9093"));
    assert_eq!(c.get("message.timeout.ms"), Some("5000"));
    assert_eq!(c.get("security.protocol"), Some("PLAINTEXT"));
    assert_eq!(c.get("ssl.ca.location"), None);
    assert_eq!(c.config_map().len(), 3);
}

#[test]
fn tls_producer_settings() {
    let c = producer_client_config(&config(true));
    assert_eq!(c.get("bootstrap.servers"), Some("h1:9092,h2:9093"));
    assert_eq!(c.get("security.protocol"), Some("SSL"));
    assert_eq!(c.get("ssl.ca.location"), Some("ca.pem"));
    assert_eq!(c.get("ssl.certificate.location"), Some("cert.pem"));
    assert_eq!(c.get("enable.ssl.certificate.verification"), Some("true"));
    assert_eq!(c.config_map().len(), 7);
}

#[test]
fn consumer_settings_have_no_timeout() {
    let c = consumer_client_config(&config(false));
    assert_eq!(c.get("message.timeout.ms"), None);
    assert_eq!(c.get("security.protocol"), Some("PLAINTEXT"));
    assert_eq!(c.config_map().len(), 2);
    let t = consumer_client_config(&config(true));
    assert_eq!(t.get("security.protocol"), Some("SSL"));
    assert_eq!(t.config_map().len(), 6);
}

#[test]
fn one_tls_path_is_enough_for_ssl() {
    let mut c = config(false);
    c.tls_ca = "ca.pem".to_string();
    let p = producer_client_config(&c);
    assert_eq!(p.get("security.protocol"), Some("SSL"));
    assert_eq!(p.get("ssl.key.location"), Some(""));
}

#[test]
fn headers_are_converted() {
    let mut h: HashMap<String, String> = HashMap::new();
    h.insert("a".to_string(), "1".to_string());
    h.insert("b".to_string(), "22".to_string());
    let out = convert_hashmap_headers_to_ownedheaders(h.clone(), OwnedHeaders::new());
    assert_eq!(out.count(), 2);
    let mut seen: Vec<(String, Vec<u8>)> = Vec::new();
    for i in 0..out.count() {
        let hd = out.get(i);
        seen.push((hd.key.to_string(), hd.value.unwrap().to_vec()));
    }
    seen.sort();
    assert_eq!(seen, vec![("a".to_string(), b"1".to_vec()), ("b".to_string(), b"22".to_vec())]);
    assert_eq!(message_headers(&Some(h)).count(), 2);
    assert_eq!(message_headers(&None).count(), 0);
}
