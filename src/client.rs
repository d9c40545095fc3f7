//! The settings a worker's producer and the metadata consumer connect with:
//! plaintext when no TLS material is given, else mutual TLS with certificate
//! verification.
use rdkafka::config::ClientConfig;
use vstd::prelude::*;

use crate::config::text_views;
use crate::config::KafkaClientConfig;

verus! {

#[verifier::external_type_specification]
#[verifier::external_body]
pub struct ExClientConfig(ClientConfig);

/// The key-value settings that a `ClientConfig` holds.
pub uninterp spec fn client_settings(c: ClientConfig) -> Map<Seq<char>, Seq<char>>;

/// Relies on `ClientConfig::new`: a configuration with no settings.
#[verifier::external_body]
fn new_client_config() -> (r: ClientConfig)
    ensures
        client_settings(r).dom() == Set::<Seq<char>>::empty(),
{
    ClientConfig::new()
}

/// Relies on `ClientConfig::set`: sets `key` to `value`, replacing an
/// earlier value of `key`.
#[verifier::external_body]
fn set_option(c: &mut ClientConfig, key: &str, value: &str)
    ensures
        client_settings(*final(c)) == client_settings(*old(c)).insert(key@, value@),
{
    c.set(key, value);
}

/// `items` joined with commas between them.
pub open spec fn comma_joined(items: Seq<Seq<char>>) -> Seq<char>
    decreases items.len(),
{
    if items.len() == 0 {
        Seq::empty()
    } else if items.len() == 1 {
        items[0]
    } else {
        comma_joined(items.drop_last()) + ","@ + items.last()
    }
}

/// The brokers as one comma-separated list.
pub fn join_brokers(broker_list: &Vec<String>) -> (r: String)
    ensures
        r@ == comma_joined(text_views(broker_list@)),
{
    let mut out = String::new();
    let mut i: usize = 0;
    while i < broker_list.len()
        invariant
            i <= broker_list@.len(),
            out@ == comma_joined(text_views(broker_list@).take(i as int)),
        decreases broker_list@.len() - i,
    {
        let ghost before = text_views(broker_list@).take(i as int);
        if i > 0 {
            out.append(",");
        }
        out.append(broker_list[i].as_str());
        proof {
            let after = text_views(broker_list@).take(i + 1);
            assert(after.drop_last() =~= before);
            assert(after.last() == broker_list@[i as int]@);
            if i == 0 {
                assert(out@ =~= after[0]);
            }
        }
        i = i + 1;
    }
    assert(text_views(broker_list@).take(i as int) =~= text_views(broker_list@));
    out
}

/// The settings to connect with: the brokers, and for a producer a delivery
/// timeout of five seconds; then plaintext, or TLS with the configured CA,
/// key and certificate and certificate verification on.
pub open spec fn connection_settings(config: KafkaClientConfig, producer: bool) -> Map<
    Seq<char>,
    Seq<char>,
> {
    let brokers = Map::<Seq<char>, Seq<char>>::empty().insert(
        "bootstrap.servers"@,
        comma_joined(text_views(config.broker_list@)),
    );
    let base = if producer {
        brokers.insert("message.timeout.ms"@, "5000"@)
    } else {
        brokers
    };
    if config.is_plaintext() {
        base.insert("security.protocol"@, "PLAINTEXT"@)
    } else {
        base.insert("security.protocol"@, "SSL"@).insert("ssl.ca.location"@, config.tls_ca@).insert(
            "ssl.key.location"@,
            config.tls_key@,
        ).insert("ssl.certificate.location"@, config.tls_cert@).insert(
            "enable.ssl.certificate.verification"@,
            "true"@,
        )
    }
}

fn connection_client_config(config: &KafkaClientConfig, producer: bool) -> (r: ClientConfig)
    ensures
        client_settings(r) == connection_settings(*config, producer),
{
    let mut c = new_client_config();
    let brokers = join_brokers(&config.broker_list);
    set_option(&mut c, "bootstrap.servers", brokers.as_str());
    assert(client_settings(c) =~= Map::<Seq<char>, Seq<char>>::empty().insert(
        "bootstrap.servers"@,
        comma_joined(text_views(config.broker_list@)),
    ));
    if producer {
        set_option(&mut c, "message.timeout.ms", "5000");
    }
    if config.tls_key.as_str().is_empty() && config.tls_cert.as_str().is_empty()
        && config.tls_ca.as_str().is_empty() {
        set_option(&mut c, "security.protocol", "PLAINTEXT");
    } else {
        set_option(&mut c, "security.protocol", "SSL");
        set_option(&mut c, "ssl.ca.location", config.tls_ca.as_str());
        set_option(&mut c, "ssl.key.location", config.tls_key.as_str());
        set_option(&mut c, "ssl.certificate.location", config.tls_cert.as_str());
        set_option(&mut c, "enable.ssl.certificate.verification", "true");
    }
    c
}

/// The client configuration that a worker's producer is created from.
pub fn producer_client_config(config: &KafkaClientConfig) -> (r: ClientConfig)
    ensures
        client_settings(r) == connection_settings(*config, true),
{
    connection_client_config(config, true)
}

/// The client configuration that the metadata consumer is created from.
pub fn consumer_client_config(config: &KafkaClientConfig) -> (r: ClientConfig)
    ensures
        client_settings(r) == connection_settings(*config, false),
{
    connection_client_config(config, false)
}

} // verus!
