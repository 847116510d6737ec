use realtime::res_kafka::registry::{validate_payload_with_schema, validate_payload_with_schema_checked};
use realtime::res_kafka::registry::{lookup_step, LookupStep};
use realtime::res_kafka::registry::{
    decode_with_schema_checked, encode_with_schema_checked, record_fetch, subject_for, trace, FetchOutcome, Level,
    Payload, SchemaCache,
};
use realtime::res_kafka::schema_registry::{
    check_payload, encode_payload, record_schema_fetch, DecodedPayload, SchemaFetch,
};
use realtime::runtime_error::Error;

const SCHEMA: &str = r#"{"type": "object", "required": ["id"], "properties": {"id": {"type": "integer"}}}"#;

fn cached(id: i32) -> Option<(i32, String)> {
    Some((id, SCHEMA.to_string()))
}

#[test]
fn subject_is_topic_value() {
    assert_eq!(subject_for("orders"), "orders-value");
}

#[test]
fn cache_reads_what_was_written() {
    let mut cache = SchemaCache::new();
    assert_eq!(cache.get("t"), None);
    cache.insert("t", cached(1));
    cache.insert("u", None);
    assert_eq!(cache.get("t"), Some(cached(1)));
    assert_eq!(cache.get("u"), Some(None));
    cache.insert("t", cached(2));
    assert_eq!(cache.get("t"), Some(cached(2)));
    cache.clear();
    assert_eq!(cache.get("t"), None);
}

#[test]
fn record_fetch_outcomes() {
    let mut cache = SchemaCache::new();
    let r = record_fetch(&mut cache, "t", FetchOutcome::NotFound);
    assert_eq!(r, Err(Error::NotFound("Schema not found for topic t".into())));
    assert_eq!(cache.get("t"), Some(None));

    let r = record_fetch(&mut cache, "u", FetchOutcome::ResponseError("503".into()));
    assert_eq!(r, Err(Error::BadGateway("Error fetching schema for topic u: 503".into())));
    let r = record_fetch(&mut cache, "u", FetchOutcome::Failed("timeout".into()));
    assert_eq!(r, Err(Error::ServerError("Error fetching schema for topic u: timeout".into())));
    let r = record_fetch(&mut cache, "u", FetchOutcome::Fetched { schema: None, id: Some(1) });
    assert_eq!(r, Err(Error::BadGateway("Schema string is missing".into())));
    let r = record_fetch(&mut cache, "u", FetchOutcome::Fetched { schema: Some("{".into()), id: Some(1) });
    let parse_error = serde_json::from_str::<serde_json::Value>("{").unwrap_err();
    assert_eq!(r, Err(Error::BadGateway(format!("Invalid schema JSON: {parse_error:?}"))));
    let r = record_fetch(&mut cache, "u", FetchOutcome::Fetched { schema: Some(SCHEMA.into()), id: None });
    assert_eq!(r, Err(Error::BadGateway("Registry ID missing for topic u".into())));
    assert_eq!(cache.get("u"), None);

    let r = record_fetch(&mut cache, "u", FetchOutcome::Fetched { schema: Some(SCHEMA.into()), id: Some(9) });
    assert_eq!(r, Ok(cached(9)));
    assert_eq!(cache.get("u"), Some(cached(9)));
}

#[test]
fn trace_classes() {
    let t = trace(Error::BadGateway("x".into()));
    assert_eq!((t.counter, t.level, t.with_topic, t.description.as_str()), ("external_errors", Level::Error, true, "x"));
    let t = trace(Error::ImATeaPot("y".into()));
    assert_eq!((t.counter, t.level, t.with_topic), ("other_errors", Level::Warn, false));
}

#[test]
fn registry_encode_frames_valid_payloads() {
    let (out, event) = encode_with_schema_checked(Ok(cached(7)), br#"{"id": 1}"#.to_vec()).unwrap();
    assert!(event.is_none());
    assert_eq!(&out[..5], &[0, 0, 0, 0, 7]);
    assert_eq!(&out[5..], br#"{"id": 1}"#);

    let (out, _) = encode_with_schema_checked(Ok(cached(7)), br#"{"id": "x"}"#.to_vec()).unwrap();
    assert_eq!(out, br#"{"id": "x"}"#.to_vec());
    let (out, _) = encode_with_schema_checked(Ok(cached(7)), b"not json".to_vec()).unwrap();
    assert_eq!(out, b"not json".to_vec());
    let (out, event) = encode_with_schema_checked(Err(Error::NotFound("n".into())), b"p".to_vec()).unwrap();
    assert_eq!(out, b"p".to_vec());
    assert_eq!(event.unwrap().counter, "not_found_errors");
    assert!(encode_with_schema_checked(Ok(Some((1, r#"{"type": 5}"#.into()))), b"{}".to_vec()).is_none());
}

#[test]
fn registry_decode_strips_frames() {
    let framed = Payload::encode(7, br#"{"id": 1}"#.to_vec());
    let d = decode_with_schema_checked(Ok(cached(7)), &framed).unwrap();
    assert_eq!(d.payload, br#"{"id": 1}"#.to_vec());
    assert_eq!(d.accepted, Some(true));
    let d = decode_with_schema_checked(Ok(cached(7)), b"abc").unwrap();
    assert_eq!(d.payload, b"abc".to_vec());
    assert_eq!(d.accepted, None);
    let d = decode_with_schema_checked(Ok(None), &framed).unwrap();
    assert_eq!(d.payload, framed);
}

#[test]
fn schema_registry_fetch() {
    let mut cache = SchemaCache::new();
    assert_eq!(
        record_schema_fetch(&mut cache, "t", SchemaFetch::Failed("io".into())),
        Err("Failed to fetch schema for t-value: io".to_string())
    );
    assert_eq!(
        record_schema_fetch(&mut cache, "t", SchemaFetch::Fetched { schema: None, id: None }),
        Err("Schema string is missing".to_string())
    );
    assert_eq!(
        record_schema_fetch(&mut cache, "t", SchemaFetch::Fetched { schema: Some(SCHEMA.into()), id: None }),
        Err("Registry ID missing for topic t".to_string())
    );
    let parse_error = serde_json::from_str::<serde_json::Value>("nope").unwrap_err();
    assert_eq!(
        record_schema_fetch(&mut cache, "t", SchemaFetch::Fetched { schema: Some("nope".into()), id: Some(1) }),
        Err(format!("Invalid schema JSON: {parse_error:?}"))
    );
    assert_eq!(cache.get("t"), None);
    assert_eq!(
        record_schema_fetch(&mut cache, "t", SchemaFetch::Fetched { schema: Some(SCHEMA.into()), id: Some(3) }),
        Ok((3, SCHEMA.to_string()))
    );
    assert_eq!(cache.get("t"), Some(cached(3)));
}

#[test]
fn schema_registry_encode_and_check() {
    let out = encode_payload(Some(Ok((3, SCHEMA.into()))), br#"{"id": 2}"#.to_vec()).unwrap();
    let decoded = DecodedPayload::decode(&out).unwrap();
    assert_eq!(decoded.registry_id, 3);
    assert_eq!(decoded.payload, br#"{"id": 2}"#);
    assert_eq!(encode_payload(None, b"x".to_vec()).unwrap(), b"x".to_vec());
    assert_eq!(encode_payload(Some(Err("e".into())), b"x".to_vec()).unwrap(), b"x".to_vec());

    let c = check_payload(Ok((3, SCHEMA.into())), br#"{"id": "no"}"#).unwrap();
    assert_eq!(c.accepted, Some(false));
    assert_eq!(c.payload, br#"{"id": "no"}"#.to_vec());
    let c = check_payload(Err("e".into()), b"raw").unwrap();
    assert_eq!(c.accepted, None);
    assert!(check_payload(Ok((3, "[".into())), b"{}").is_none());
}

#[test]
fn accepted_payload_comes_back_unchanged() {
    let payload = br#"{"id": 42}"#.to_vec();
    let (sent, _) = encode_with_schema_checked(Ok(cached(9)), payload.clone()).unwrap();
    assert_ne!(sent, payload);
    let received = decode_with_schema_checked(Ok(cached(9)), &sent).unwrap();
    assert_eq!(received.payload, payload);
    assert_eq!(received.accepted, Some(true));
}

#[test]
fn lookup_steps() {
    let mut cache = SchemaCache::new();
    assert!(matches!(
        lookup_step(false, &cache, "t"),
        LookupStep::Done(Err(Error::ServerError(d))) if d == "No schema registry client available"
    ));
    assert!(matches!(lookup_step(true, &cache, "t"), LookupStep::Fetch(s) if s == "t-value"));
    cache.insert("t", cached(4));
    assert!(matches!(lookup_step(true, &cache, "t"), LookupStep::Done(Ok(Some((4, _))))));
    cache.insert("u", None);
    assert!(matches!(lookup_step(true, &cache, "u"), LookupStep::Done(Ok(None))));
}

#[test]
fn non_json_payloads_pass_a_broken_schema() {
    let broken = || Ok(Some((1, r#"{"type": 5}"#.to_string())));
    let (out, event) = encode_with_schema_checked(broken(), b"plain".to_vec()).unwrap();
    assert_eq!(out, b"plain".to_vec());
    assert!(event.is_none());
    let d = decode_with_schema_checked(broken(), b"\0\0\0\0\x01text").unwrap();
    assert_eq!(d.payload, b"text".to_vec());
    assert_eq!(d.accepted, None);
    assert!(decode_with_schema_checked(broken(), b"\0\0\0\0\x01{}").is_none());
    let d = decode_with_schema_checked(broken(), b"{}").unwrap();
    assert_eq!(d.payload, b"{}".to_vec());
    assert_eq!(encode_payload(Some(Ok((1, "[".into()))), b"x".to_vec()), Some(b"x".to_vec()));
    assert!(encode_payload(Some(Ok((1, "[".into()))), b"1".to_vec()).is_none());
    let c = check_payload(Ok((3, "[".into())), b"not json").unwrap();
    assert_eq!(c.payload, b"not json".to_vec());
    assert_eq!(c.accepted, None);
}

#[test]
fn validation_errors_name_the_violation() {
    assert_eq!(validate_payload_with_schema(SCHEMA, br#"{"id": 3}"#), Ok(()));
    let schema: serde_json::Value = serde_json::from_str(SCHEMA).unwrap();
    let bad: serde_json::Value = serde_json::from_str(r#"{"id": "x"}"#).unwrap();
    let message = jsonschema::validate(&schema, &bad).unwrap_err().to_string();
    assert_eq!(
        validate_payload_with_schema(SCHEMA, br#"{"id": "x"}"#),
        Err(format!("Validation error: {message}"))
    );
    assert_eq!(validate_payload_with_schema_checked(SCHEMA, b"nope"), None);
    assert_eq!(validate_payload_with_schema_checked("{", b"{}"), None);
    assert_eq!(validate_payload_with_schema_checked(SCHEMA, br#"{"id": 1}"#), Some(Ok(())));
}
