use realtime::messaging::{metadata_value, record_key};
use realtime::res_kafka::schema_registry::SchemaConfig;
use realtime::be_kafka::KafkaMessage;
use realtime::messaging::{header_metadata, join};
use realtime::nats;
use realtime::res_kafka::message::{description, into_message, kafka_metadata};

fn s(x: &str) -> String {
    x.to_string()
}

#[test]
fn join_puts_the_separator_between_pieces() {
    assert_eq!(join(&vec![], ", "), "");
    assert_eq!(join(&vec![s("a")], ", "), "a");
    assert_eq!(join(&vec![s("a"), s("b"), s("c")], ", "), "a, b, c");
}

#[test]
fn header_values_are_joined() {
    let headers = vec![(s("x"), vec![s("1"), s("2")]), (s("y"), vec![])];
    assert_eq!(header_metadata(&headers, ","), vec![(s("x"), s("1,2")), (s("y"), s(""))]);
}

#[test]
fn nats_messages() {
    let m = nats::to_message(s("orders"), b"abc".to_vec(), Some(vec![(s("k"), vec![s("a"), s("b")])]), Some(s("inbox")));
    assert_eq!(m.topic, "orders");
    assert_eq!(m.length, 3);
    assert_eq!(m.metadata, Some(vec![(s("k"), s("a,b"))]));
    let reply = m.reply.expect("reply");
    assert_eq!((reply.client_name.as_str(), reply.topic.as_str()), ("nats", "inbox"));
    assert!(m.description.is_none());

    let m = nats::into_message(s("t"), vec![], None, Some(s("r")));
    assert!(m.metadata.is_none());
    assert_eq!(m.reply.expect("reply").client_name, "");
    assert_eq!(m.length, 0);
}

#[test]
fn kafka_header_values_read_as_text() {
    let headers = vec![(s("a"), Some(b"one".to_vec())), (s("b"), None), (s("c"), Some(vec![0x66, 0xff]))];
    assert_eq!(kafka_metadata(&headers), vec![(s("a"), s("one")), (s("b"), s("")), (s("c"), s("f\u{fffd}"))]);
}

#[test]
fn kafka_description_is_the_first_valued_description_header() {
    let headers = vec![(s("description"), None), (s("x"), Some(b"y".to_vec())), (s("description"), Some(b"second".to_vec()))];
    assert_eq!(description(&headers), Some(s("second")));
    assert_eq!(description(&vec![(s("Description"), Some(b"no".to_vec()))]), None);
}

#[test]
fn kafka_delivered_message() {
    let m = into_message(s("t"), b"payload".to_vec(), Some(vec![(s("k"), Some(b"v".to_vec()))]));
    assert_eq!(m.length, 7);
    assert_eq!(m.metadata, Some(vec![(s("k"), s("v"))]));
    assert!(m.reply.is_none());
    assert!(into_message(s("t"), vec![], None).metadata.is_none());
}

#[test]
fn kafka_message_headers_append_and_remove() {
    let mut m = KafkaMessage::new_message(b"data".to_vec(), 42);
    assert_eq!(m.topic, "");
    assert_eq!(m.timestamp, 42);
    assert_eq!(m.length(), 4);
    assert!(m.metadata().is_none());
    m.set_content_type("application/json");
    m.add_metadata(s("k"), "1");
    m.add_metadata(s("k"), "2");
    m.add_metadata(s("description"), "about");
    assert_eq!(
        m.metadata(),
        Some(vec![(s("content-type"), s("application/json")), (s("k"), s("1")), (s("k"), s("2")), (s("description"), s("about"))])
    );
    assert_eq!(m.description(), Some(s("about")));
    m.remove_metadata("k");
    assert_eq!(m.metadata(), Some(vec![(s("content-type"), s("application/json")), (s("description"), s("about"))]));
    m.set_metadata(&vec![(s("only"), s("this"))]);
    assert_eq!(m.metadata(), Some(vec![(s("only"), s("this"))]));
    m.set_payload(vec![]);
    assert_eq!(m.length(), 0);
}

#[test]
fn removing_from_a_message_without_headers_gives_empty_headers() {
    let mut m = KafkaMessage::new_message(vec![1], 0);
    m.remove_metadata("k");
    assert_eq!(m.metadata(), Some(vec![]));
    assert_eq!(m.description(), None);
}

#[test]
fn metadata_lookup_uses_the_last_entry() {
    let md = vec![(s("key"), s("a")), (s("other"), s("x")), (s("key"), s("b"))];
    assert_eq!(metadata_value(&md, "key"), Some(s("b")));
    assert_eq!(metadata_value(&md, "none"), None);
    assert_eq!(record_key(&md), "b");
    assert_eq!(record_key(&vec![]), "");
}

#[test]
fn nats_bucket_config() {
    let c = realtime::nats::kv_bucket_config(s("cache"));
    assert_eq!(c.bucket, "cache");
    assert_eq!((c.history, c.max_age_secs, c.max_bytes), (1, 600, 100 * 1024 * 1024));
}

#[test]
fn registry_basic_auth() {
    let mut cfg = SchemaConfig { url: s("http://r"), api_key: Some(s("k")), api_secret: None, cache_ttl_secs: None };
    assert_eq!(cfg.basic_auth(), Some((s("k"), None)));
    cfg.api_secret = Some(s("p"));
    assert_eq!(cfg.basic_auth(), Some((s("k"), Some(s("p")))));
    cfg.api_key = None;
    assert_eq!(cfg.basic_auth(), None);
}

#[test]
fn metadata_becomes_single_valued_headers() {
    let h = realtime::messaging::headers_of_metadata(&vec![(s("a"), s("1")), (s("b"), s("2"))]);
    assert_eq!(h, vec![(s("a"), vec![s("1")]), (s("b"), vec![s("2")])]);
}

#[test]
fn registry_options_auth() {
    let r = realtime::res_kafka::RegistryOptions::new(s("u"), s("k"), s("p"), 5);
    assert_eq!(r.basic_auth(), (s("k"), Some(s("p"))));
}
