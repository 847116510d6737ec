use realtime::res_kafka::registry::{Payload, BIG_ENDIAN};
use realtime::res_kafka::schema_registry::{DecodedPayload, MAGIC_BYTE};

#[test]
fn encode_decode() {
    #[allow(clippy::cast_possible_wrap)]
    let registry_id: i32 = 0xAABB_CCDDu32 as i32;
    let payload = b"hello world".to_vec();

    let encoded = Payload::encode(registry_id, payload.clone());

    assert_eq!(encoded[0], BIG_ENDIAN, "magic byte mismatch");

    let expected_id_bytes = registry_id.to_be_bytes();
    assert_eq!(&encoded[1..5], &expected_id_bytes, "registry id mismatch");
    assert_eq!(&encoded[5..], &payload, "payload mismatch");

    let decoded = Payload::decode(&encoded).expect("decode failed");

    assert_eq!(decoded.magic_byte, BIG_ENDIAN);
    assert_eq!(decoded.registry_id, registry_id);
    assert_eq!(decoded.data, payload.as_slice());
}

#[test]
fn encode_then_decode_roundtrip() {
    #[allow(clippy::cast_possible_wrap)]
    let registry_id: i32 = 0xAABB_CCDDu32 as i32;
    let payload = b"hello world".to_vec();

    let encoded = DecodedPayload::encode(registry_id, payload.clone());

    assert_eq!(encoded[0], MAGIC_BYTE, "magic byte mismatch");

    let expected_id_bytes = registry_id.to_be_bytes();
    assert_eq!(&encoded[1..5], &expected_id_bytes, "registry id mismatch");
    assert_eq!(&encoded[5..], &payload, "payload mismatch");

    let decoded = DecodedPayload::decode(&encoded).expect("decode failed");

    assert_eq!(decoded.magic_byte, MAGIC_BYTE);
    assert_eq!(decoded.registry_id, registry_id);
    assert_eq!(decoded.payload, payload.as_slice());
}

#[test]
fn decode_rejects_short_buffers() {
    assert!(Payload::decode(&[0, 1, 2, 3]).is_none());
    assert!(DecodedPayload::decode(&[]).is_none());
    let decoded = Payload::decode(&[7, 0, 0, 1, 2]).expect("five bytes decode");
    assert_eq!(decoded.magic_byte, 7);
    assert_eq!(decoded.registry_id, 258);
    assert!(decoded.data.is_empty());
}

#[test]
fn negative_ids_roundtrip() {
    let encoded = Payload::encode(-1, vec![9]);
    assert_eq!(encoded, vec![0, 0xff, 0xff, 0xff, 0xff, 9]);
    let decoded = Payload::decode(&encoded).expect("decodes");
    assert_eq!(decoded.registry_id, -1);
    assert_eq!(decoded.data, &[9u8][..]);
}
