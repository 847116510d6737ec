use realtime::nats_message::NatsMessage;

fn s(x: &str) -> String {
    x.to_string()
}

fn sorted(mut v: Vec<(String, String)>) -> Vec<(String, String)> {
    v.sort();
    v
}

fn as_map(md: Vec<(String, String)>) -> std::collections::HashMap<String, String> {
    md.into_iter().collect()
}

#[test]
fn nats_new_message() {
    let m = NatsMessage::new_message(b"hello".to_vec());
    assert_eq!(m.subject, "");
    assert_eq!(m.length, 5);
    assert!(m.headers.is_none());
    assert!(m.metadata().is_none());
    assert!(m.reply().is_none());
}

#[test]
fn nats_setting_a_header_replaces_its_values() {
    let mut m = NatsMessage::new_message(vec![]);
    m.add_metadata(s("k"), s("1"));
    m.add_metadata(s("k"), s("2"));
    m.set_content_type(s("text/plain"));
    let md = as_map(m.metadata().unwrap());
    assert_eq!(md.get("k").map(String::as_str), Some("2"));
    assert_eq!(md.get("content-type").map(String::as_str), Some("text/plain"));
    assert_eq!(md.len(), 2);
}

#[test]
fn nats_metadata_joins_values() {
    let mut m = NatsMessage::new_message(vec![]);
    m.headers = Some(vec![(s("a"), vec![s("x"), s("y")])]);
    assert_eq!(m.metadata().unwrap(), vec![(s("a"), s("x, y"))]);
}

#[test]
fn nats_remove_keeps_last_values_of_others() {
    let mut m = NatsMessage::new_message(vec![]);
    m.headers = Some(vec![
        (s("a"), vec![s("1"), s("2")]),
        (s("b"), vec![s("3")]),
        (s("c"), vec![]),
        (s("a"), vec![s("4"), s("5")]),
    ]);
    m.remove_metadata("b");
    assert_eq!(sorted(m.metadata().unwrap()), vec![(s("a"), s("5"))]);
    let mut none = NatsMessage::new_message(vec![]);
    none.remove_metadata("a");
    assert!(none.headers.is_none());
}

#[test]
fn nats_set_metadata_and_payload() {
    let mut m = NatsMessage::new_message(b"x".to_vec());
    m.add_metadata(s("old"), s("v"));
    m.set_metadata(&vec![(s("n"), s("1")), (s("m"), s("2"))]);
    assert_eq!(m.metadata().unwrap(), vec![(s("n"), s("1")), (s("m"), s("2"))]);
    m.set_payload(b"four".to_vec());
    assert_eq!(m.length, 4);
    m.reply = Some(s("inbox"));
    let r = m.reply().unwrap();
    assert_eq!((r.client_name.as_str(), r.topic.as_str()), ("", "inbox"));
}
