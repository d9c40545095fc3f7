//! The object callers hold: it puts messages on the shared queue, takes them
//! off for inspection, and starts a shutdown of the pool.
use std::collections::HashMap;
use std::sync::Arc;
use std::sync::Mutex;
use vstd::prelude::*;

use crate::config::KafkaClientConfig;
use crate::message::build_kafka_publish_message;
use crate::message::KafkaPublishMessage;
use crate::message::KafkaPublishMessageType;
use crate::work_queue::add_messages_to_locked_work_vec;
use crate::work_queue::drain_messages_up_to;
use crate::work_queue::empty_batch_text;
use crate::work_queue::lock_failure_prefix;
use crate::work_queue::new_work_vec;

verus! {

/// Whether `e` is the text of a failure to take the queue's lock.
pub open spec fn is_lock_failure(e: Seq<char>) -> bool {
    e.len() >= lock_failure_prefix().len() && e.take(lock_failure_prefix().len() as int)
        == lock_failure_prefix()
}

/// What `shutdown` answers once the shutdown message is queued.
pub open spec fn shutdown_started_text() -> Seq<char> {
    "shutdown started"@
}

/// What `shutdown` answers when the pool is disabled.
pub open spec fn not_enabled_text() -> Seq<char> {
    "kafka not enabled"@
}

/// The callers' handle on the pool: its settings and the shared queue.
#[derive(Clone)]
pub struct KafkaPublisher {
    pub config: KafkaClientConfig,
    pub publish_msgs: Arc<Mutex<Vec<KafkaPublishMessage>>>,
}

impl Default for KafkaPublisher {
    fn default() -> (r: Self)
        ensures
            !r.config.is_enabled,
    {
        KafkaPublisher { config: KafkaClientConfig::default(), publish_msgs: new_work_vec() }
    }
}

impl KafkaPublisher {
    /// A handle with `config` and a new, empty queue.
    pub fn new(config: KafkaClientConfig) -> (r: Self)
        ensures
            r.config == config,
    {
        KafkaPublisher { config, publish_msgs: new_work_vec() }
    }

    /// Queues one `Data` message built from the arguments; returns the
    /// queue's new length, or `Ok(0)` with nothing queued when the pool is
    /// disabled.
    pub fn add_data_msg(
        &self,
        topic: &str,
        key: &str,
        headers: Option<HashMap<String, String>>,
        payload: &str,
    ) -> (r: Result<usize, String>)
        ensures
            !self.config.is_enabled ==> r == Ok::<usize, String>(0),
            self.config.is_enabled ==> (r matches Ok(n) ==> n >= 1),
            self.config.is_enabled ==> (r matches Err(e) ==> is_lock_failure(e@)),
    {
        if self.config.is_enabled {
            let msg = build_kafka_publish_message(
                KafkaPublishMessageType::Data,
                topic,
                key,
                headers,
                payload,
            );
            let pub_vec = vec![msg];
            add_messages_to_locked_work_vec(&self.publish_msgs, pub_vec)
        } else {
            Ok(0)
        }
    }

    /// Queues `msg`; returns the queue's new length, or `Ok(0)` with nothing
    /// queued when the pool is disabled.
    pub fn add_msg(&self, msg: KafkaPublishMessage) -> (r: Result<usize, String>)
        ensures
            !self.config.is_enabled ==> r == Ok::<usize, String>(0),
            self.config.is_enabled ==> (r matches Ok(n) ==> n >= 1),
            self.config.is_enabled ==> (r matches Err(e) ==> is_lock_failure(e@)),
    {
        if self.config.is_enabled {
            let pub_vec = vec![msg];
            add_messages_to_locked_work_vec(&self.publish_msgs, pub_vec)
        } else {
            Ok(0)
        }
    }

    /// Queues `msgs` in order; returns the queue's new length. An empty batch
    /// is refused; a disabled pool queues nothing and answers `Ok(0)`.
    pub fn add_msgs(&self, msgs: Vec<KafkaPublishMessage>) -> (r: Result<usize, String>)
        ensures
            !self.config.is_enabled ==> r == Ok::<usize, String>(0),
            self.config.is_enabled ==> (msgs@.len() == 0 <==> (r matches Err(e) && e@
                == empty_batch_text())),
            self.config.is_enabled ==> (r matches Ok(n) ==> n >= msgs@.len()),
            self.config.is_enabled && msgs@.len() > 0 ==> (r matches Err(e) ==> is_lock_failure(
                e@,
            )),
    {
        if self.config.is_enabled {
            add_messages_to_locked_work_vec(&self.publish_msgs, msgs)
        } else {
            Ok(0)
        }
    }

    /// Takes every queued message off the queue, in order, past the workers;
    /// nothing when the pool is disabled.
    pub fn drain_msgs(&self) -> (r: Vec<KafkaPublishMessage>)
        ensures
            !self.config.is_enabled ==> r@.len() == 0,
    {
        if self.config.is_enabled {
            drain_messages_up_to(&self.publish_msgs, usize::MAX)
        } else {
            Vec::new()
        }
    }

    /// Queues one `Shutdown` message for the workers and returns at once,
    /// without waiting for them to stop.
    pub fn shutdown(&self) -> (r: Result<String, String>)
        ensures
            !self.config.is_enabled ==> (r matches Ok(s) && s@ == not_enabled_text()),
            self.config.is_enabled ==> (r matches Ok(s) ==> s@ == shutdown_started_text()),
            self.config.is_enabled ==> (r matches Err(e) ==> is_lock_failure(e@)),
    {
        if self.config.is_enabled {
            let shutdown_msg = build_kafka_publish_message(
                KafkaPublishMessageType::Shutdown,
                "",
                "",
                None,
                "",
            );
            let shutdown_msg_vec = vec![shutdown_msg];
            match add_messages_to_locked_work_vec(&self.publish_msgs, shutdown_msg_vec) {
                Ok(_) => Ok(String::from_str("shutdown started")),
                Err(e) => Err(e),
            }
        } else {
            Ok(String::from_str("kafka not enabled"))
        }
    }
}

} // verus!
