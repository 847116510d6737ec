//! Kafka backend: connection options, client configuration and the choice of
//! the partition a message is sent to.

use vstd::prelude::*;
use crate::env::{
    env_view, errors_view, errs, i32_setting, i32_spec, list_spec, lookup, lookup_spec,
    optional_list_setting, required_setting, required_spec, EnvError, EnvErrorView,
};
use crate::res_kafka::{
    entries_view, opt_sasl_entries, push_sasl_entries, random_suffix, registry_error_part,
    registry_spec, take_registry, EntryView,
};
use crate::res_kafka::message::{description, description_spec, header_view, kafka_metadata, kafka_metadata_spec};
use crate::messaging::metadata_view;
use crate::text::{decimal, parse_i32, parse_i32_spec, push_decimal, push_str, split_on, split_spec, views};

pub use crate::res_kafka::RegistryOptions;

verus! {

/// Connection options of the Kafka backend.
#[derive(Debug, Clone)]
pub struct ConnectOptions {
    pub client_id: String,
    pub brokers: String,
    pub username: Option<String>,
    pub password: Option<String>,
    pub partition_count: i32,
    pub consumer: Option<ConsumerOptions>,
    pub registry: Option<RegistryOptions>,
}

/// Consumer options: the topics to subscribe to and the consumer group.
#[derive(Debug, Clone)]
pub struct ConsumerOptions {
    pub topics: Vec<String>,
    pub group_id: Option<String>,
}

/// The partition count used when none is given.
pub const DEFAULT_PARTITION_COUNT: i32 = 12;

/// The consumer group used when a consumer names none.
pub const DEFAULT_GROUP: &'static str = "wrt-kafka-consumer";

/// The topics of a comma-separated list, as given (pieces are not trimmed).
pub fn split(s: &str) -> (topics: Vec<String>)
    ensures
        views(topics@) == split_spec(s@, ','),
{
    split_on(s, ',')
}

/// The client configuration of the options with `suffix` as the random part of
/// the client id: the client id `<client_id>-<suffix>`, the brokers, and the
/// SASL entries when both user and password are given.
pub open spec fn config_entries_spec(o: ConnectOptions, suffix: u32) -> Seq<EntryView> {
    seq![
        ("client.id"@, o.client_id@ + "-"@ + decimal(suffix as nat)),
        ("bootstrap.servers"@, o.brokers@),
    ] + opt_sasl_entries(o.username, o.password)
}

/// The consumer group of the options: the consumer's group, or the default
/// group when the consumer names none; `None` without a consumer.
pub open spec fn consumer_group_spec(o: ConnectOptions) -> Option<Seq<char>> {
    match o.consumer {
        Some(c) => match c.group_id {
            Some(g) => Some(g@),
            None => Some(DEFAULT_GROUP@),
        },
        None => None,
    }
}

impl ConnectOptions {
    /// The client configuration entries, with `suffix` as the random part of
    /// the client id.
    pub fn config_entries_with(&self, suffix: u32) -> (entries: Vec<(String, String)>)
        ensures
            entries_view(entries@) == config_entries_spec(*self, suffix),
    {
        let mut id = String::new();
        push_str(&mut id, self.client_id.as_str());
        push_str(&mut id, "-");
        push_decimal(&mut id, suffix as u64);
        let mut entries: Vec<(String, String)> = Vec::new();
        entries.push(("client.id".to_owned(), id));
        entries.push(("bootstrap.servers".to_owned(), self.brokers.clone()));
        assert(entries_view(entries@) =~= seq![
            ("client.id"@, self.client_id@ + "-"@ + decimal(suffix as nat)),
            ("bootstrap.servers"@, self.brokers@),
        ]);
        push_sasl_entries(&mut entries, &self.username, &self.password);
        entries
    }

    /// The client configuration entries, with a random client id suffix from
    /// 1000 to 9998.
    pub fn config_entries(&self) -> (entries: Vec<(String, String)>)
        ensures
            exists|suffix: u32|
                1000 <= suffix < 9999 && entries_view(entries@) == config_entries_spec(*self, suffix),
    {
        let suffix = random_suffix();
        self.config_entries_with(suffix)
    }

    /// The consumer's client configuration, with `suffix` as the random part
    /// of the client id: the producer's entries with the consumer group,
    /// when the options have a consumer.
    pub fn consumer_config_entries_with(&self, suffix: u32) -> (entries: Option<Vec<(String, String)>>)
        ensures
            match entries {
                Some(e) => consumer_group_spec(*self) matches Some(g) && entries_view(e@) == config_entries_spec(*self, suffix).push(
                    ("group.id"@, g),
                ),
                None => self.consumer is None,
            },
    {
        let group = match self.consumer_group() {
            Some(g) => g,
            None => return None,
        };
        let mut entries = self.config_entries_with(suffix);
        let ghost before = entries@;
        entries.push(("group.id".to_owned(), group));
        assert(entries_view(entries@) =~= entries_view(before).push(("group.id"@, group@)));
        Some(entries)
    }

    /// The consumer group to join, when the options have a consumer.
    pub fn consumer_group(&self) -> (g: Option<String>)
        ensures
            match g {
                Some(x) => consumer_group_spec(*self) == Some(x@),
                None => consumer_group_spec(*self) is None,
            },
    {
        match &self.consumer {
            Some(c) => match &c.group_id {
                Some(g) => Some(g.clone()),
                None => Some(DEFAULT_GROUP.to_owned()),
            },
            None => None,
        }
    }
}

/// The partition a message goes to: the `partition` metadata when it reads as
/// a non-negative number; otherwise the partition the partitioner gives for the
/// message key, when there is a partitioner and a key; otherwise none, and the
/// producer chooses.
pub open spec fn partition_spec(partition_meta: Option<Seq<char>>, keyed: Option<i32>) -> Option<i32> {
    let explicit = match partition_meta {
        Some(p) => match parse_i32_spec(p) {
            Some(n) => n,
            None => -1i32,
        },
        None => -1i32,
    };
    if explicit >= 0 {
        Some(explicit)
    } else {
        keyed
    }
}

/// Chooses the partition of a message from its `partition` metadata and, when
/// there is a partitioner and a key, the partition the partitioner gives for
/// the key.
pub fn select_partition(partition_meta: Option<&str>, keyed: Option<i32>) -> (p: Option<i32>)
    ensures
        p == partition_spec(
            match partition_meta {
                Some(s) => Some(s@),
                None => None,
            },
            keyed,
        ),
{
    let parsed = match partition_meta {
        Some(s) => parse_i32(s),
        None => None,
    };
    let explicit: i32 = match parsed {
        Some(n) => n,
        None => -1,
    };
    if explicit >= 0 {
        Some(explicit)
    } else {
        keyed
    }
}

/// The tracer of delivery reports.
pub struct Tracer;

/// A Kafka record as the backend's guests build and read it: topic,
/// payload, headers in order (each with an optional value) and creation
/// time in milliseconds.
#[derive(Clone, Debug)]
pub struct KafkaMessage {
    pub topic: String,
    pub payload: Option<Vec<u8>>,
    pub headers: Option<Vec<(String, Option<Vec<u8>>)>>,
    pub timestamp: i64,
}

/// Headers by views.
pub open spec fn kafka_headers_view(h: Seq<(String, Option<Vec<u8>>)>) -> Seq<(Seq<char>, Option<Seq<u8>>)> {
    h.map_values(|x: (String, Option<Vec<u8>>)| header_view(x))
}

/// The headers of a message by views, none when it has no headers.
pub open spec fn headers_or_empty(h: Option<Vec<(String, Option<Vec<u8>>)>>) -> Seq<(Seq<char>, Option<Seq<u8>>)> {
    match h {
        Some(v) => kafka_headers_view(v@),
        None => Seq::empty(),
    }
}

/// The UTF-8 bytes of a string.
fn text_bytes(s: &str) -> (b: Vec<u8>)
    ensures
        b@ == vstd::utf8::encode_utf8(s@),
{
    vstd::slice::slice_to_vec(s.as_bytes())
}

impl KafkaMessage {
    /// A new message with payload `data`, created at `now_millis`: no
    /// topic, no headers.
    pub fn new_message(data: Vec<u8>, now_millis: i64) -> (m: KafkaMessage)
        ensures
            m.topic@ == Seq::<char>::empty(),
            m.payload matches Some(p) && p@ == data@,
            m.headers is None,
            m.timestamp == now_millis,
    {
        KafkaMessage { topic: String::new(), payload: Some(data), headers: None, timestamp: now_millis }
    }

    /// Appends a header with a value, after the existing ones.
    fn append_header(&mut self, key: String, value: &str)
        ensures
            final(self).topic == old(self).topic,
            final(self).payload == old(self).payload,
            final(self).timestamp == old(self).timestamp,
            final(self).headers matches Some(h) && kafka_headers_view(h@) == headers_or_empty(old(self).headers).push(
                (key@, Some(vstd::utf8::encode_utf8(value@))),
            ),
    {
        let mut headers = match self.headers.take() {
            Some(h) => h,
            None => Vec::new(),
        };
        let ghost before = headers@;
        headers.push((key, Some(text_bytes(value))));
        assert(kafka_headers_view(headers@) =~= kafka_headers_view(before).push(
            (key@, Some(vstd::utf8::encode_utf8(value@))),
        ));
        self.headers = Some(headers);
    }

    /// Adds a `content-type` header, after the existing ones.
    pub fn set_content_type(&mut self, content_type: &str)
        ensures
            final(self).topic == old(self).topic,
            final(self).payload == old(self).payload,
            final(self).headers matches Some(h) && kafka_headers_view(h@) == headers_or_empty(old(self).headers).push(
                ("content-type"@, Some(vstd::utf8::encode_utf8(content_type@))),
            ),
    {
        self.append_header("content-type".to_string(), content_type);
    }

    /// Adds a header `key` with `value`, after the existing ones.
    pub fn add_metadata(&mut self, key: String, value: &str)
        ensures
            final(self).topic == old(self).topic,
            final(self).payload == old(self).payload,
            final(self).headers matches Some(h) && kafka_headers_view(h@) == headers_or_empty(old(self).headers).push(
                (key@, Some(vstd::utf8::encode_utf8(value@))),
            ),
    {
        self.append_header(key, value);
    }

    /// Replaces the payload.
    pub fn set_payload(&mut self, data: Vec<u8>)
        ensures
            final(self).topic == old(self).topic,
            final(self).headers == old(self).headers,
            final(self).payload matches Some(p) && p@ == data@,
    {
        self.payload = Some(data);
    }

    /// Replaces the headers by `metadata`, in its order.
    pub fn set_metadata(&mut self, metadata: &Vec<(String, String)>)
        ensures
            final(self).topic == old(self).topic,
            final(self).payload == old(self).payload,
            final(self).headers matches Some(h) && kafka_headers_view(h@) == metadata_view(metadata@).map_values(
                |e: (Seq<char>, Seq<char>)| (e.0, Some(vstd::utf8::encode_utf8(e.1))),
            ),
    {
        let ghost target = metadata_view(metadata@).map_values(
            |e: (Seq<char>, Seq<char>)| (e.0, Some(vstd::utf8::encode_utf8(e.1))),
        );
        let mut headers: Vec<(String, Option<Vec<u8>>)> = Vec::new();
        let mut i: usize = 0;
        while i < metadata.len()
            invariant
                i <= metadata@.len(),
                target == metadata_view(metadata@).map_values(
                    |e: (Seq<char>, Seq<char>)| (e.0, Some(vstd::utf8::encode_utf8(e.1))),
                ),
                kafka_headers_view(headers@) == target.take(i as int),
            decreases metadata@.len() - i,
        {
            let ghost before = headers@;
            headers.push((metadata[i].0.clone(), Some(text_bytes(metadata[i].1.as_str()))));
            assert(kafka_headers_view(headers@) =~= kafka_headers_view(before).push(target[i as int]));
            assert(target.take(i + 1) =~= target.take(i as int).push(target[i as int]));
            i = i + 1;
        }
        assert(target.take(metadata@.len() as int) =~= target);
        self.headers = Some(headers);
    }

    /// Removes every header named `key`, keeping the others in order.
    pub fn remove_metadata(&mut self, key: &str)
        ensures
            final(self).topic == old(self).topic,
            final(self).payload == old(self).payload,
            final(self).headers matches Some(h) && kafka_headers_view(h@) == kept_headers(headers_or_empty(old(self).headers), key@),
    {
        let old_headers = match self.headers.take() {
            Some(h) => h,
            None => Vec::new(),
        };
        let ghost ov = kafka_headers_view(old_headers@);
        assert(ov == headers_or_empty(old(self).headers));
        let mut kept: Vec<(String, Option<Vec<u8>>)> = Vec::new();
        let mut i: usize = 0;
        while i < old_headers.len()
            invariant
                i <= old_headers@.len(),
                ov == kafka_headers_view(old_headers@),
                kafka_headers_view(kept@) == ov.take(i as int).filter(|x: (Seq<char>, Option<Seq<u8>>)| x.0 != key@),
            decreases old_headers@.len() - i,
        {
            assert(ov.take(i + 1).drop_last() =~= ov.take(i as int));
            reveal_with_fuel(Seq::filter, 1);
            if !crate::text::str_eq(old_headers[i].0.as_str(), key) {
                let ghost before = kept@;
                let value = match &old_headers[i].1 {
                    Some(v) => Some(v.clone()),
                    None => None,
                };
                kept.push((old_headers[i].0.clone(), value));
                assert(kafka_headers_view(kept@) =~= kafka_headers_view(before).push(ov[i as int]));
            }
            i = i + 1;
        }
        assert(ov.take(old_headers@.len() as int) =~= ov);
        self.headers = Some(kept);
    }

    /// The message's metadata: its headers' values as text, in order.
    pub fn metadata(&self) -> (m: Option<Vec<(String, String)>>)
        ensures
            match self.headers {
                Some(h) => m matches Some(md) && metadata_view(md@) == kafka_metadata_spec(kafka_headers_view(h@)),
                None => m is None,
            },
    {
        match &self.headers {
            Some(h) => Some(kafka_metadata(h)),
            None => None,
        }
    }

    /// The message's description: the text of its first `description`
    /// header that has a value.
    pub fn description(&self) -> (d: Option<String>)
        ensures
            match d {
                Some(s) => description_spec(headers_or_empty(self.headers)) == Some(s@),
                None => description_spec(headers_or_empty(self.headers)) is None,
            },
    {
        match &self.headers {
            Some(h) => description(h),
            None => None,
        }
    }

    /// The payload's length, 0 without a payload.
    pub fn length(&self) -> (n: usize)
        ensures
            n == match self.payload {
                Some(p) => p@.len(),
                None => 0,
            },
    {
        match &self.payload {
            Some(p) => p.len(),
            None => 0,
        }
    }
}

/// The headers other than those named `key`, in order.
pub open spec fn kept_headers(h: Seq<(Seq<char>, Option<Seq<u8>>)>, key: Seq<char>) -> Seq<(Seq<char>, Option<Seq<u8>>)> {
    h.filter(|y: (Seq<char>, Option<Seq<u8>>)| y.0 != key)
}

/// After `remove_metadata(key)` no header is named `key`, and every other
/// header is kept.
pub proof fn lemma_removed_headers(h: Seq<(Seq<char>, Option<Seq<u8>>)>, key: Seq<char>, x: (Seq<char>, Option<Seq<u8>>))
    ensures
        forall|i: int| 0 <= i < kept_headers(h, key).len() ==> #[trigger] kept_headers(h, key)[i].0 != key,
        h.contains(x) && x.0 != key ==> kept_headers(h, key).contains(x),
{
    let f = |y: (Seq<char>, Option<Seq<u8>>)| y.0 != key;
    assert forall|i: int| 0 <= i < h.filter(f).len() implies #[trigger] h.filter(f)[i].0 != key by {
        h.lemma_filter_pred(f, i);
    }
    if h.contains(x) && x.0 != key {
        let j = choose|j: int| 0 <= j < h.len() && h[j] == x;
        h.lemma_filter_contains(f, j);
    }
}

impl ConnectOptions {
    /// Reads the options from an environment snapshot; every setting that is
    /// missing or invalid is reported, in field order, with the registry's
    /// when it is invalid. Without `KAFKA_TOPICS` there is no consumer.
    pub fn from_vars(vars: &Vec<(String, String)>) -> (r: Result<ConnectOptions, Vec<EnvError>>)
        ensures
            ({
                let env = env_view(vars@);
                let client_id = required_spec(env, "COMPONENT"@);
                let brokers = required_spec(env, "KAFKA_BROKERS"@);
                let partitions = i32_spec(env, "KAFKA_PARTITION_COUNT"@, 12);
                let all = errs(client_id) + errs(brokers) + errs(partitions) + registry_error_part(env);
                match r {
                    Ok(o) => all.len() == 0 && client_id == Ok::<Seq<char>, EnvErrorView>(o.client_id@)
                        && brokers == Ok::<Seq<char>, EnvErrorView>(o.brokers@)
                        && partitions == Ok::<i32, EnvErrorView>(o.partition_count)
                        && crate::nats::opt_view(o.username) == lookup_spec(env, "KAFKA_USERNAME"@)
                        && crate::nats::opt_view(o.password) == lookup_spec(env, "KAFKA_PASSWORD"@)
                        && match o.consumer {
                            Some(c) => list_spec(env, "KAFKA_TOPICS"@) == Ok::<Seq<Seq<char>>, EnvErrorView>(views(c.topics@))
                                && crate::nats::opt_view(c.group_id) == lookup_spec(env, "KAFKA_CONSUMER_GROUP"@),
                            None => list_spec(env, "KAFKA_TOPICS"@) is Err,
                        }
                        && (o.registry is Some <==> registry_spec(env) == Ok::<Option<()>, Seq<EnvErrorView>>(Some(()))),
                    Err(es) => all.len() > 0 && errors_view(es@) == all,
                }
            }),
    {
        let mut errors: Vec<EnvError> = Vec::new();
        let client_id = match required_setting(vars, "COMPONENT") {
            Ok(s) => s,
            Err(e) => {
                errors.push(e);
                String::new()
            },
        };
        let brokers = match required_setting(vars, "KAFKA_BROKERS") {
            Ok(s) => s,
            Err(e) => {
                errors.push(e);
                String::new()
            },
        };
        let username = lookup(vars, "KAFKA_USERNAME");
        let password = lookup(vars, "KAFKA_PASSWORD");
        let partition_count = match i32_setting(vars, "KAFKA_PARTITION_COUNT", DEFAULT_PARTITION_COUNT) {
            Ok(n) => n,
            Err(e) => {
                errors.push(e);
                0
            },
        };
        let consumer = match optional_list_setting(vars, "KAFKA_TOPICS") {
            Some(topics) => Some(ConsumerOptions { topics, group_id: lookup(vars, "KAFKA_CONSUMER_GROUP") }),
            None => None,
        };
        let registry = take_registry(crate::res_kafka::RegistryOptions::from_vars(vars), &mut errors);
        let ghost e = env_view(vars@);
        assert(errors_view(errors@) =~= errs(required_spec(e, "COMPONENT"@)) + errs(required_spec(e, "KAFKA_BROKERS"@))
            + errs(i32_spec(e, "KAFKA_PARTITION_COUNT"@, 12)) + registry_error_part(e));
        if errors.len() > 0 {
            return Err(errors);
        }
        Ok(ConnectOptions { client_id, brokers, username, password, partition_count, consumer, registry })
    }
}

} // verus!
