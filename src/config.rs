//! The pool's settings: whether it runs, where the brokers are, how many
//! workers, how long they sleep, and the TLS material.
use std::collections::HashMap;
use vstd::prelude::*;

verus! {

/// Settings shared read-only by the facade and every worker.
#[derive(Clone)]
pub struct KafkaClientConfig {
    pub label: String,
    pub is_enabled: bool,
    pub broker_list: Vec<String>,
    pub publish_topics: HashMap<String, String>,
    pub num_threads: u8,
    pub retry_sleep_sec: u64,
    pub idle_sleep_sec: u64,
    pub tls_key: String,
    pub tls_cert: String,
    pub tls_ca: String,
}

impl Default for KafkaClientConfig {
    fn default() -> (r: Self)
        ensures
            r.label@.len() == 0,
            !r.is_enabled,
            r.broker_list@.len() == 0,
            r.publish_topics@.dom().len() == 0,
            r.num_threads == 0,
            r.retry_sleep_sec == 0,
            r.idle_sleep_sec == 0,
            r.tls_key@.len() == 0,
            r.tls_cert@.len() == 0,
            r.tls_ca@.len() == 0,
    {
        KafkaClientConfig {
            label: String::new(),
            is_enabled: false,
            broker_list: Vec::new(),
            publish_topics: HashMap::new(),
            num_threads: 0,
            retry_sleep_sec: 0,
            idle_sleep_sec: 0,
            tls_key: String::new(),
            tls_cert: String::new(),
            tls_ca: String::new(),
        }
    }
}

impl KafkaClientConfig {
    /// Whether a worker has a broker to connect to: the list is not empty and
    /// its first entry is not blank.
    pub open spec fn has_brokers(&self) -> bool {
        self.broker_list@.len() > 0 && self.broker_list@[0]@.len() > 0
    }

    /// Whether all three TLS paths are empty, so the transport is plaintext.
    pub open spec fn is_plaintext(&self) -> bool {
        self.tls_key@.len() == 0 && self.tls_cert@.len() == 0 && self.tls_ca@.len() == 0
    }

    /// Whether a worker has a broker to connect to.
    pub fn brokers_available(&self) -> (r: bool)
        ensures
            r == self.has_brokers(),
    {
        self.broker_list.len() > 0 && !self.broker_list[0].as_str().is_empty()
    }
}

/// The raw values the settings are read from, each `None` where it is not
/// set. The two sleeps are already in milliseconds.
pub struct ConfigSettings {
    pub enabled: Option<String>,
    pub log_label: Option<String>,
    pub brokers: Option<String>,
    pub topics: Option<String>,
    pub retry_sleep_ms: Option<u64>,
    pub idle_sleep_ms: Option<u64>,
    pub num_threads: Option<String>,
    pub tls_key: Option<String>,
    pub tls_cert: Option<String>,
    pub tls_ca: Option<String>,
}

/// The milliseconds slept before a publish is retried when none is set.
pub const DEFAULT_RETRY_SLEEP_MS: u64 = 1000;

/// The milliseconds slept on an empty queue when none is set.
pub const DEFAULT_IDLE_SLEEP_MS: u64 = 500;

/// The lower-case form of `s`, as Unicode defines it.
pub uninterp spec fn lower_of(s: Seq<char>) -> Seq<char>;

/// Relies on `str::to_lowercase`: the result depends on the characters
/// alone.
#[verifier::external_body]
fn lowercase(s: &str) -> (r: String)
    ensures
        r@ == lower_of(s@),
{
    s.to_lowercase()
}

/// Whether an already lower-cased switch value turns the pool on.
pub open spec fn switch_is_on(lowered: Seq<char>) -> bool {
    lowered == "true"@ || lowered == "1"@
}

/// Whether the lower-cased switch value `lowered` turns the pool on.
pub fn is_switch_on(lowered: &str) -> (r: bool)
    ensures
        r == switch_is_on(lowered@),
{
    let t = String::from_str("true");
    let one = String::from_str("1");
    let l = String::from_str(lowered);
    l == t || l == one
}

/// Whether a switch value, in any case, turns the pool on: `true` or `1`.
pub fn is_enabled_value(value: &str) -> (r: bool)
    ensures
        r == switch_is_on(lower_of(value@)),
{
    let lowered = lowercase(value);
    is_switch_on(lowered.as_str())
}

/// `s` cut at every comma; an empty text gives one empty piece.
pub open spec fn split_commas(s: Seq<char>) -> Seq<Seq<char>>
    decreases s.len(),
{
    if s.len() == 0 {
        seq![Seq::empty()]
    } else {
        let prev = split_commas(s.drop_last());
        if s.last() == ',' {
            prev.push(Seq::empty())
        } else {
            prev.update(prev.len() - 1, prev.last().push(s.last()))
        }
    }
}

proof fn lemma_split_nonempty(s: Seq<char>)
    ensures
        split_commas(s).len() >= 1,
    decreases s.len(),
{
    if s.len() > 0 {
        lemma_split_nonempty(s.drop_last());
    }
}

/// The texts of `items`, in order.
pub open spec fn text_views(items: Seq<String>) -> Seq<Seq<char>> {
    items.map_values(|s: String| s@)
}

/// The comma-separated pieces of `s`, in order.
pub fn split_on_commas(s: &str) -> (r: Vec<String>)
    ensures
        text_views(r@) == split_commas(s@),
{
    let n = s.unicode_len();
    let mut done: Vec<String> = Vec::new();
    let mut start: usize = 0;
    let mut i: usize = 0;
    proof {
        assert(s@.subrange(0, 0) =~= Seq::<char>::empty());
        assert(text_views(done@) =~= Seq::<Seq<char>>::empty());
        assert(s@.take(0) =~= Seq::<char>::empty());
        assert(text_views(done@).push(s@.subrange(0, 0)) =~= split_commas(s@.take(0)));
    }
    while i < n
        invariant
            n == s@.len(),
            start <= i <= n,
            text_views(done@).push(s@.subrange(start as int, i as int)) == split_commas(
                s@.take(i as int),
            ),
        decreases n - i,
    {
        let c = s.get_char(i);
        let ghost before = s@.take(i as int);
        let ghost after = s@.take(i + 1);
        proof {
            assert(after.drop_last() =~= before);
            assert(after.last() == c);
            lemma_split_nonempty(before);
        }
        if c == ',' {
            let ghost earlier = done@;
            let piece = String::from_str(s.substring_char(start, i));
            done.push(piece);
            assert(text_views(done@) =~= text_views(earlier).push(s@.subrange(start as int, i as int)));
            start = i + 1;
            assert(s@.subrange(start as int, i + 1) =~= Seq::<char>::empty());
            assert(text_views(done@).push(s@.subrange(start as int, i + 1)) =~= split_commas(
                before,
            ).push(Seq::empty()));
        } else {
            assert(s@.subrange(start as int, i + 1) =~= s@.subrange(start as int, i as int).push(c));
            assert(text_views(done@).push(s@.subrange(start as int, i + 1)) =~= split_commas(
                before,
            ).update(split_commas(before).len() - 1, split_commas(before).last().push(c)));
        }
        i = i + 1;
    }
    assert(s@.take(n as int) =~= s@);
    let last = String::from_str(s.substring_char(start, n));
    done.push(last);
    assert(text_views(done@) =~= split_commas(s@)) by {
        assert(text_views(done@) =~= text_views(done@.drop_last()).push(done@.last()@));
    }
    done
}

/// The value of a run of decimal digits.
pub open spec fn digits_value(d: Seq<char>) -> int
    decreases d.len(),
{
    if d.len() == 0 {
        0
    } else {
        digits_value(d.drop_last()) * 10 + (d.last() as int - '0' as int)
    }
}

pub open spec fn all_digits(d: Seq<char>) -> bool {
    forall|i: int| 0 <= i < d.len() ==> '0' <= #[trigger] d[i] <= '9'
}

/// The digits of an unsigned number's text: without a leading `+`.
pub open spec fn unsigned_digits(s: Seq<char>) -> Seq<char> {
    if s.len() > 0 && s[0] == '+' {
        s.drop_first()
    } else {
        s
    }
}

/// Whether `s` is the text of a number from 0 to 255: an optional `+`, then
/// one or more decimal digits.
pub open spec fn is_u8_text(s: Seq<char>) -> bool {
    let d = unsigned_digits(s);
    d.len() > 0 && all_digits(d) && digits_value(d) <= 255
}

proof fn lemma_digits_grow(d: Seq<char>, i: int)
    requires
        all_digits(d),
        0 <= i <= d.len(),
    ensures
        0 <= digits_value(d.take(i)) <= digits_value(d),
    decreases d.len() - i,
{
    if i < d.len() {
        lemma_digits_grow(d, i + 1);
        assert(d.take(i + 1).drop_last() =~= d.take(i));
        lemma_digits_nonneg(d.take(i));
    } else {
        assert(d.take(i) =~= d);
        lemma_digits_nonneg(d);
    }
}

proof fn lemma_digits_nonneg(d: Seq<char>)
    requires
        all_digits(d),
    ensures
        digits_value(d) >= 0,
    decreases d.len(),
{
    if d.len() > 0 {
        lemma_digits_nonneg(d.drop_last());
    }
}

/// The number that `s` is the text of, if it is one from 0 to 255.
pub fn parse_u8(s: &str) -> (r: Option<u8>)
    ensures
        r == if is_u8_text(s@) {
            Some(digits_value(unsigned_digits(s@)) as u8)
        } else {
            None::<u8>
        },
        r matches Some(v) ==> v == digits_value(unsigned_digits(s@)),
{
    let n = s.unicode_len();
    let start: usize = if n > 0 && s.get_char(0) == '+' {
        1
    } else {
        0
    };
    let ghost d = unsigned_digits(s@);
    assert(d =~= s@.skip(start as int));
    if start == n {
        return None;
    }
    let mut value: u32 = 0;
    let mut i: usize = start;
    while i < n
        invariant
            n == s@.len(),
            start <= i <= n,
            d == s@.skip(start as int),
            d == unsigned_digits(s@),
            all_digits(d.take(i - start)),
            value == digits_value(d.take(i - start)),
            value <= 255,
        decreases n - i,
    {
        let c = s.get_char(i);
        let ghost prefix = d.take(i - start);
        let ghost next = d.take(i + 1 - start);
        assert(next.drop_last() =~= prefix);
        assert(next.last() == c);
        if !('0' <= c && c <= '9') {
            assert(!all_digits(d)) by {
                assert(d[i - start] == c);
            }
            assert(!is_u8_text(s@));
            return None;
        }
        assert(all_digits(next)) by {
            assert forall|j: int| 0 <= j < next.len() implies '0' <= #[trigger] next[j] <= '9' by {
                if j < prefix.len() {
                    assert(next[j] == prefix[j]);
                }
            }
        }
        let digit = (c as u32) - ('0' as u32);
        value = value * 10 + digit;
        assert(value == digits_value(next));
        if value > 255 {
            proof {
                if all_digits(d) {
                    lemma_digits_grow(d, i + 1 - start);
                }
            }
            assert(!is_u8_text(s@));
            return None;
        }
        i = i + 1;
    }
    assert(d.take(i - start) =~= d);
    Some(value as u8)
}

/// Why a set of raw values gives no settings.
#[derive(Debug, Clone, Copy, PartialEq, Eq, Structural)]
pub enum ConfigError {
    /// The retry sleep is 1 ms or less.
    RetrySleepTooShort,
    /// The idle sleep is 1 ms or less.
    IdleSleepTooShort,
    /// The worker count is not a number from 0 to 255.
    InvalidThreadCount,
    /// The worker count is 0.
    NoThreads,
}

/// The text of a value, or `default` where it is not set.
pub open spec fn text_or(v: Option<String>, default: Seq<char>) -> Seq<char> {
    match v {
        Some(s) => s@,
        None => default,
    }
}

/// A number, or `default` where it is not set.
pub open spec fn number_or(v: Option<u64>, default: u64) -> u64 {
    match v {
        Some(n) => n,
        None => default,
    }
}

impl ConfigSettings {
    /// Whether the pool runs: on unless the switch is set to something other
    /// than `true` or `1`, in any case.
    pub open spec fn spec_enabled(&self) -> bool {
        match self.enabled {
            Some(v) => switch_is_on(lower_of(v@)),
            None => true,
        }
    }

    /// The worker count's text, `5` where it is not set.
    pub open spec fn threads_text(&self) -> Seq<char> {
        text_or(self.num_threads, "5"@)
    }

    /// Whether `r` is what these values give under `label`; see
    /// `KafkaClientConfig::from_settings`.
    pub open spec fn gives(&self, label: Seq<char>, r: Result<KafkaClientConfig, ConfigError>) -> bool {
        &&& !self.spec_enabled() ==> (r matches Ok(c) && c.label@ == label && !c.is_enabled
            && c.broker_list@.len() == 0 && c.num_threads == 0 && c.retry_sleep_sec == 0
            && c.idle_sleep_sec == 0 && c.tls_key@.len() == 0 && c.tls_cert@.len() == 0
            && c.tls_ca@.len() == 0)
        &&& self.spec_enabled() ==> (r is Err <==> self.error() is Some)
        &&& self.spec_enabled() ==> (r matches Err(e) ==> self.error() == Some(e))
        &&& self.spec_enabled() ==> (r matches Ok(c) ==> {
            &&& c.is_enabled
            &&& c.label@ == text_or(self.log_label, label)
            &&& text_views(c.broker_list@) == split_commas(text_or(self.brokers, ""@))
            &&& c.num_threads == digits_value(unsigned_digits(self.threads_text()))
            &&& c.retry_sleep_sec == number_or(self.retry_sleep_ms, DEFAULT_RETRY_SLEEP_MS)
            &&& c.idle_sleep_sec == number_or(self.idle_sleep_ms, DEFAULT_IDLE_SLEEP_MS)
            &&& c.tls_key@ == text_or(self.tls_key, ""@)
            &&& c.tls_cert@ == text_or(self.tls_cert, ""@)
            &&& c.tls_ca@ == text_or(self.tls_ca, ""@)
        })
    }

    /// The error that these values give, if any, checked in this order:
    /// retry sleep, idle sleep, worker count.
    pub open spec fn error(&self) -> Option<ConfigError> {
        if number_or(self.retry_sleep_ms, DEFAULT_RETRY_SLEEP_MS) <= 1 {
            Some(ConfigError::RetrySleepTooShort)
        } else if number_or(self.idle_sleep_ms, DEFAULT_IDLE_SLEEP_MS) <= 1 {
            Some(ConfigError::IdleSleepTooShort)
        } else if !is_u8_text(self.threads_text()) {
            Some(ConfigError::InvalidThreadCount)
        } else if digits_value(unsigned_digits(self.threads_text())) == 0 {
            Some(ConfigError::NoThreads)
        } else {
            None
        }
    }
}

/// A copy of the text of a value, or `default` where it is not set.
fn text_or_default(v: &Option<String>, default: &str) -> (r: String)
    ensures
        r@ == text_or(*v, default@),
{
    match v {
        Some(s) => s.clone(),
        None => String::from_str(default),
    }
}

impl KafkaClientConfig {
    /// The settings that `settings` give, under `label`.
    ///
    /// A pool switched off gets `label`, no brokers, topics or workers, and
    /// zero sleeps. A pool switched on gets the log label where one is set,
    /// else `label`; the brokers and topics cut at commas (none set reads
    /// as one empty entry); the sleeps, 1000 and 500 ms where not set; the
    /// worker count, 5 where not set; and the TLS paths, empty where not
    /// set. It is refused when a sleep is 1 ms or less or the worker count is
    /// not a number from 1 to 255.
    pub fn from_settings(label: &str, settings: &ConfigSettings) -> (r: Result<
        KafkaClientConfig,
        ConfigError,
    >)
        ensures
            settings.gives(label@, r),
    {
        let enabled = match &settings.enabled {
            Some(v) => is_enabled_value(v.as_str()),
            None => true,
        };
        if !enabled {
            let mut off = KafkaClientConfig::default();
            off.label = String::from_str(label);
            return Ok(off);
        }
        let retry_sleep_sec = match settings.retry_sleep_ms {
            Some(ms) => ms,
            None => DEFAULT_RETRY_SLEEP_MS,
        };
        if retry_sleep_sec <= 1 {
            return Err(ConfigError::RetrySleepTooShort);
        }
        let idle_sleep_sec = match settings.idle_sleep_ms {
            Some(ms) => ms,
            None => DEFAULT_IDLE_SLEEP_MS,
        };
        if idle_sleep_sec <= 1 {
            return Err(ConfigError::IdleSleepTooShort);
        }
        let threads_text = text_or_default(&settings.num_threads, "5");
        let num_threads = match parse_u8(threads_text.as_str()) {
            Some(n) => n,
            None => {
                return Err(ConfigError::InvalidThreadCount);
            },
        };
        if num_threads == 0 {
            return Err(ConfigError::NoThreads);
        }
        let brokers_text = text_or_default(&settings.brokers, "");
        let broker_list = split_on_commas(brokers_text.as_str());
        let topics_text = text_or_default(&settings.topics, "");
        let topic_list = split_on_commas(topics_text.as_str());
        let mut publish_topics: HashMap<String, String> = HashMap::new();
        let mut topic_list = topic_list;
        while topic_list.len() > 0
            decreases topic_list@.len(),
        {
            let topic = topic_list.pop().unwrap();
            publish_topics.insert(topic, String::from_str("0"));
        }
        Ok(
            KafkaClientConfig {
                label: text_or_default(&settings.log_label, label),
                is_enabled: true,
                broker_list,
                publish_topics,
                num_threads,
                retry_sleep_sec,
                idle_sleep_sec,
                tls_key: text_or_default(&settings.tls_key, ""),
                tls_cert: text_or_default(&settings.tls_cert, ""),
                tls_ca: text_or_default(&settings.tls_ca, ""),
            },
        )
    }
}

/// The settings that `settings` give under `label`; see
/// `KafkaClientConfig::from_settings`.
pub fn build_kafka_client_config(label: &str, settings: &ConfigSettings) -> (r: Result<
    KafkaClientConfig,
    ConfigError,
>)
    ensures
        settings.gives(label@, r),
{
    KafkaClientConfig::from_settings(label, settings)
}

} // verus!
