//! Messages that callers hand to the pool, and their printable text.
use std::collections::HashMap;
use vstd::prelude::*;

verus! {

/// What a worker does with a message it takes off the queue.
///
/// - `Data`: published, payload may be logged
/// - `Sensitive`: published like `Data`, payload never shown
/// - `Shutdown`: the poison pill that stops every worker
/// - `LogBrokerDetails`, `LogBrokerTopicDetails`: accepted, not handled yet
#[derive(Debug, Clone, Copy, PartialEq, Eq, Structural)]
pub enum KafkaPublishMessageType {
    Data,
    Shutdown,
    LogBrokerDetails,
    LogBrokerTopicDetails,
    Sensitive,
}

pub open spec fn kind_name(t: KafkaPublishMessageType) -> Seq<char> {
    match t {
        KafkaPublishMessageType::Data => "Data"@,
        KafkaPublishMessageType::Shutdown => "Shutdown"@,
        KafkaPublishMessageType::LogBrokerDetails => "LogBrokerDetails"@,
        KafkaPublishMessageType::LogBrokerTopicDetails => "LogBrokerTopicDetails"@,
        KafkaPublishMessageType::Sensitive => "Sensitive"@,
    }
}

impl Default for KafkaPublishMessageType {
    fn default() -> (r: Self)
        ensures
            r == KafkaPublishMessageType::Data,
    {
        KafkaPublishMessageType::Data
    }
}

impl KafkaPublishMessageType {
    /// The name of the variant, as it reads in a message's text.
    pub fn name(&self) -> (r: &'static str)
        ensures
            r@ == kind_name(*self),
    {
        match self {
            KafkaPublishMessageType::Data => "Data",
            KafkaPublishMessageType::Shutdown => "Shutdown",
            KafkaPublishMessageType::LogBrokerDetails => "LogBrokerDetails",
            KafkaPublishMessageType::LogBrokerTopicDetails => "LogBrokerTopicDetails",
            KafkaPublishMessageType::Sensitive => "Sensitive",
        }
    }
}

/// One unit of work: where it goes, how it is routed, and what it carries.
pub struct KafkaPublishMessage {
    pub msg_type: KafkaPublishMessageType,
    pub topic: String,
    pub key: String,
    pub headers: Option<HashMap<String, String>>,
    pub payload: String,
}

/// A message as plain values.
pub ghost struct MessageView {
    pub msg_type: KafkaPublishMessageType,
    pub topic: Seq<char>,
    pub key: Seq<char>,
    pub headers: Option<Map<String, String>>,
    pub payload: Seq<char>,
}

impl View for KafkaPublishMessage {
    type V = MessageView;

    open spec fn view(&self) -> MessageView {
        MessageView {
            msg_type: self.msg_type,
            topic: self.topic@,
            key: self.key@,
            headers: match self.headers {
                Some(h) => Some(h@),
                None => None,
            },
            payload: self.payload@,
        }
    }
}

impl Clone for KafkaPublishMessage {
    fn clone(&self) -> (r: Self)
        ensures
            r@ == self@,
    {
        let headers = match &self.headers {
            Some(h) => Some(h.clone()),
            None => None,
        };
        KafkaPublishMessage {
            msg_type: self.msg_type,
            topic: self.topic.clone(),
            key: self.key.clone(),
            headers,
            payload: self.payload.clone(),
        }
    }
}

impl Default for KafkaPublishMessage {
    fn default() -> (r: Self)
        ensures
            r@ == empty_data_message(),
    {
        Self::new()
    }
}

/// A `Data` message with empty topic, key and payload and no headers.
pub open spec fn empty_data_message() -> MessageView {
    MessageView {
        msg_type: KafkaPublishMessageType::Data,
        topic: Seq::empty(),
        key: Seq::empty(),
        headers: None,
        payload: Seq::empty(),
    }
}

impl KafkaPublishMessage {
    /// A `Data` message with empty topic, key and payload and no headers.
    pub fn new() -> (r: Self)
        ensures
            r@ == empty_data_message(),
    {
        KafkaPublishMessage {
            msg_type: KafkaPublishMessageType::Data,
            topic: String::new(),
            key: String::new(),
            headers: None,
            payload: String::new(),
        }
    }

    /// A message of the given kind with copies of the given fields.
    pub fn new_from(
        msg_type: KafkaPublishMessageType,
        topic: &str,
        key: &str,
        headers: Option<HashMap<String, String>>,
        payload: &str,
    ) -> (r: Self)
        ensures
            r.msg_type == msg_type,
            r.topic@ == topic@,
            r.key@ == key@,
            r.headers == headers,
            r.payload@ == payload@,
    {
        KafkaPublishMessage {
            msg_type,
            topic: String::from_str(topic),
            key: String::from_str(key),
            headers,
            payload: String::from_str(payload),
        }
    }

    /// The message's text: kind, topic, key and headers, and the payload
    /// unless the message is `Sensitive`.
    pub fn to_string(&self) -> (r: String)
        ensures
            exists|h: Seq<char>|
                r@ == message_text(self.msg_type, self.topic@, self.key@, h, self.payload@),
    {
        let h = headers_text(&self.headers);
        describe_message(self.msg_type, self.topic.as_str(), self.key.as_str(), h.as_str(), self.payload.as_str())
    }

    /// The message's text for debugging: as `to_string`, with a `DEBUG ` prefix.
    pub fn to_debug_string(&self) -> (r: String)
        ensures
            exists|h: Seq<char>|
                r@ == "DEBUG "@ + message_text(self.msg_type, self.topic@, self.key@, h, self.payload@),
    {
        let h = headers_text(&self.headers);
        let body = describe_message(self.msg_type, self.topic.as_str(), self.key.as_str(), h.as_str(), self.payload.as_str());
        String::from_str("DEBUG ").concat(body.as_str())
    }
}

/// Builds a message of the given kind; the same as `KafkaPublishMessage::new_from`.
pub fn build_kafka_publish_message(
    msg_type: KafkaPublishMessageType,
    topic: &str,
    key: &str,
    headers: Option<HashMap<String, String>>,
    payload: &str,
) -> (r: KafkaPublishMessage)
    ensures
        r.msg_type == msg_type,
        r.topic@ == topic@,
        r.key@ == key@,
        r.headers == headers,
        r.payload@ == payload@,
{
    KafkaPublishMessage::new_from(msg_type, topic, key, headers, payload)
}

/// The printed form of a message, given the printed form `headers` of its
/// headers. A `Sensitive` message leaves its payload out.
pub open spec fn message_text(
    msg_type: KafkaPublishMessageType,
    topic: Seq<char>,
    key: Seq<char>,
    headers: Seq<char>,
    payload: Seq<char>,
) -> Seq<char> {
    let fields = kind_name(msg_type) + " topic="@ + topic + " key="@ + key + " headers="@
        + headers;
    if msg_type == KafkaPublishMessageType::Sensitive {
        "SENSITIVE KafkaPublishMessage type="@ + fields
    } else {
        "KafkaPublishMessage type="@ + fields + " payload="@ + payload
    }
}

/// Relies on the `Debug` formatting of `Option<HashMap<String, String>>`;
/// the order of the entries follows the map's hasher, so nothing is said of
/// it but for a missing map.
#[verifier::external_body]
fn headers_text(headers: &Option<HashMap<String, String>>) -> (r: String)
    ensures
        headers.is_none() ==> r@ == "None"@,
{
    format!("{:?}", headers)
}

/// The printed form of a message from its parts, the headers already printed.
pub fn describe_message(
    msg_type: KafkaPublishMessageType,
    topic: &str,
    key: &str,
    headers: &str,
    payload: &str,
) -> (r: String)
    ensures
        r@ == message_text(msg_type, topic@, key@, headers@, payload@),
{
    let ghost fields = kind_name(msg_type) + " topic="@ + topic@ + " key="@ + key@ + " headers="@
        + headers@;
    let mut s = if msg_type == KafkaPublishMessageType::Sensitive {
        String::from_str("SENSITIVE KafkaPublishMessage type=")
    } else {
        String::from_str("KafkaPublishMessage type=")
    };
    s.append(msg_type.name());
    s.append(" topic=");
    s.append(topic);
    s.append(" key=");
    s.append(key);
    s.append(" headers=");
    s.append(headers);
    assert(s@ =~= (if msg_type == KafkaPublishMessageType::Sensitive {
        "SENSITIVE KafkaPublishMessage type="@
    } else {
        "KafkaPublishMessage type="@
    }) + fields);
    if msg_type != KafkaPublishMessageType::Sensitive {
        s.append(" payload=");
        s.append(payload);
    }
    s
}

/// The text of a `Sensitive` message does not depend on its payload: two
/// sensitive messages that differ only in payload print the same.
pub proof fn lemma_sensitive_text_hides_payload(
    topic: Seq<char>,
    key: Seq<char>,
    headers: Seq<char>,
    payload: Seq<char>,
    other_payload: Seq<char>,
)
    ensures
        message_text(KafkaPublishMessageType::Sensitive, topic, key, headers, payload)
            == message_text(KafkaPublishMessageType::Sensitive, topic, key, headers, other_payload),
{
}

/// The text of a `Data` message ends with its payload.
pub proof fn lemma_data_text_shows_payload(
    topic: Seq<char>,
    key: Seq<char>,
    headers: Seq<char>,
    payload: Seq<char>,
)
    ensures
        ({
            let t = message_text(KafkaPublishMessageType::Data, topic, key, headers, payload);
            t.len() >= payload.len() && t.subrange(t.len() - payload.len(), t.len() as int) == payload
        }),
{
    let t = message_text(KafkaPublishMessageType::Data, topic, key, headers, payload);
    let front = "KafkaPublishMessage type="@ + (kind_name(KafkaPublishMessageType::Data)
        + " topic="@ + topic + " key="@ + key + " headers="@ + headers) + " payload="@;
    assert(t == front + payload);
    assert(t.subrange(front.len() as int, t.len() as int) =~= payload);
}

} // verus!
