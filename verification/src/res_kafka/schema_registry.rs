//! Schema registry configuration and payload framing.

use vstd::prelude::*;
use crate::res_kafka::framing::{
    frame, framed, id_of_bytes, lemma_bytes_id_roundtrip, lemma_id_bytes_roundtrip, unframe,
};
use crate::res_kafka::registry::{
    compiles_as_schema, is_json, json_bytes_valid, json_error_message, json_text_error, json_text_valid,
    schema_accepts, schema_compiles, subject_for, validate_payload, SchemaCache,
};
use crate::text::push_str;

verus! {

/// Magic byte that leads every framed payload.
pub const MAGIC_BYTE: u8 = 0;

/// Schema registry configuration.
#[derive(Debug, Clone)]
pub struct SchemaConfig {
    /// Schema registry URL.
    pub url: String,
    /// Optional API key for the schema registry.
    pub api_key: Option<String>,
    /// Optional API secret for the schema registry.
    pub api_secret: Option<String>,
    /// Optional cache TTL in seconds.
    pub cache_ttl_secs: Option<u64>,
}

impl SchemaConfig {
    /// The registry's basic authentication: the API key with the secret,
    /// when a key is given.
    pub fn basic_auth(&self) -> (a: Option<(String, Option<String>)>)
        ensures
            match self.api_key {
                Some(k) => a matches Some((u, p)) && u@ == k@ && match self.api_secret {
                    Some(sec) => p matches Some(x) && x@ == sec@,
                    None => p is None,
                },
                None => a is None,
            },
    {
        match &self.api_key {
            Some(k) => {
                let secret = match &self.api_secret {
                    Some(s) => Some(s.clone()),
                    None => None,
                };
                Some((k.clone(), secret))
            },
            None => None,
        }
    }
}

/// A decoded Kafka message.
pub struct DecodedPayload<'a> {
    /// Magic byte (should be 0).
    pub magic_byte: u8,
    /// Schema registry id.
    pub registry_id: i32,
    /// The actual payload.
    pub payload: &'a [u8],
}

impl DecodedPayload<'_> {
    /// Encodes `payload` behind the magic byte and the big-endian bytes of `registry_id`.
    pub fn encode(registry_id: i32, payload: Vec<u8>) -> (buf: Vec<u8>)
        ensures
            buf@ == framed(MAGIC_BYTE, registry_id, payload@),
    {
        frame(MAGIC_BYTE, registry_id, payload)
    }

    /// Decodes a framed buffer; `None` when it is shorter than the five header bytes.
    pub fn decode(buffer: &[u8]) -> (r: Option<DecodedPayload<'_>>)
        ensures
            r is None <==> buffer@.len() < 5,
            r matches Some(p) ==> p.magic_byte == buffer@[0] && p.registry_id == id_of_bytes(
                buffer@[1],
                buffer@[2],
                buffer@[3],
                buffer@[4],
            ) && p.payload@ == buffer@.subrange(5, buffer@.len() as int),
    {
        match unframe(buffer) {
            None => None,
            Some((magic_byte, registry_id, payload)) => Some(
                DecodedPayload { magic_byte, registry_id, payload },
            ),
        }
    }
}

/// Decoding an encoded payload gives back the magic byte, the id and the
/// payload.
pub proof fn lemma_decoded_payload_roundtrip(registry_id: i32, payload: Seq<u8>)
    ensures
        ({
            let b = framed(MAGIC_BYTE, registry_id, payload);
            &&& b.len() >= 5
            &&& b[0] == MAGIC_BYTE
            &&& id_of_bytes(b[1], b[2], b[3], b[4]) == registry_id
            &&& b.subrange(5, b.len() as int) == payload
        }),
{
    let b = framed(MAGIC_BYTE, registry_id, payload);
    lemma_id_bytes_roundtrip(registry_id);
    assert(b.subrange(5, b.len() as int) =~= payload);
}

/// Encoding what a buffer decodes to gives back the buffer, when it leads
/// with the magic byte.
pub proof fn lemma_decoded_payload_reencode(buffer: Seq<u8>)
    requires
        buffer.len() >= 5,
        buffer[0] == MAGIC_BYTE,
    ensures
        framed(
            MAGIC_BYTE,
            id_of_bytes(buffer[1], buffer[2], buffer[3], buffer[4]),
            buffer.subrange(5, buffer.len() as int),
        ) == buffer,
{
    lemma_bytes_id_roundtrip(buffer[1], buffer[2], buffer[3], buffer[4]);
    assert(framed(
        MAGIC_BYTE,
        id_of_bytes(buffer[1], buffer[2], buffer[3], buffer[4]),
        buffer.subrange(5, buffer.len() as int),
    ) =~= buffer);
}

/// What the registry client answered for a subject's latest schema.
#[derive(Clone, Debug, PartialEq, Eq)]
pub enum SchemaFetch {
    /// The request failed; the failure, described.
    Failed(String),
    /// A schema response, with its schema text and id when present.
    Fetched { schema: Option<String>, id: Option<i32> },
}

/// What recording a fetch gives, by views: the schema id and text, or the
/// error message.
pub open spec fn schema_fetch_spec(topic: Seq<char>, outcome: SchemaFetch) -> Result<(i32, Seq<char>), Seq<char>> {
    match outcome {
        SchemaFetch::Failed(d) => Err("Failed to fetch schema for "@ + topic + "-value"@ + ": "@ + d@),
        SchemaFetch::Fetched { schema, id } => match schema {
            None => Err("Schema string is missing"@),
            Some(text) => if !json_text_valid(text@) {
                Err("Invalid schema JSON: "@ + json_error_message(text@))
            } else {
                match id {
                    None => Err("Registry ID missing for topic "@ + topic),
                    Some(i) => Ok((i, text@)),
                }
            },
        },
    }
}

/// Records what the registry client answered for `topic`: a schema is
/// cached and returned; a failure is described and nothing is cached.
pub fn record_schema_fetch(cache: &mut SchemaCache, topic: &str, outcome: SchemaFetch) -> (r: Result<(i32, String), String>)
    ensures
        match schema_fetch_spec(topic@, outcome) {
            Ok((id, text)) => r matches Ok((i, t)) && i == id && t@ == text && json_text_valid(text)
                && final(cache).view() == old(cache).view().insert(topic@, Some((id, text))),
            Err(msg) => r matches Err(m) && m@ == msg && final(cache).view() == old(cache).view(),
        },
{
    match outcome {
        SchemaFetch::Failed(detail) => {
            let mut m = String::new();
            push_str(&mut m, "Failed to fetch schema for ");
            let subject = subject_for(topic);
            push_str(&mut m, subject.as_str());
            push_str(&mut m, ": ");
            push_str(&mut m, detail.as_str());
            Err(m)
        },
        SchemaFetch::Fetched { schema, id } => {
            let text = match schema {
                Some(t) => t,
                None => return Err("Schema string is missing".to_owned()),
            };
            if let Some(e) = json_text_error(text.as_str()) {
                let mut m = String::new();
                push_str(&mut m, "Invalid schema JSON: ");
                push_str(&mut m, e.as_str());
                return Err(m);
            }
            let registry_id = match id {
                Some(i) => i,
                None => {
                    let mut m = String::new();
                    push_str(&mut m, "Registry ID missing for topic ");
                    push_str(&mut m, topic);
                    return Err(m);
                },
            };
            cache.insert(topic, Some((registry_id, text.clone())));
            Ok((registry_id, text))
        },
    }
}

/// Whether a looked-up schema compiles, where one was found.
pub open spec fn fetched_compiles(lookup: Option<Result<(i32, String), String>>) -> bool {
    lookup matches Some(Ok((_, s))) ==> json_text_valid(s@) && schema_compiles(s@)
}

/// The payload sent for `buffer`: with a registry (`lookup` is `Some`) and a
/// schema, a JSON payload that satisfies the schema is framed with its id;
/// any other payload is sent as given.
pub open spec fn schema_encode_spec(lookup: Option<Result<(i32, String), String>>, buffer: Seq<u8>) -> Seq<u8> {
    match lookup {
        Some(Ok((id, s))) => if json_bytes_valid(buffer) && schema_accepts(s@, buffer) {
            framed(MAGIC_BYTE, id, buffer)
        } else {
            buffer
        },
        _ => buffer,
    }
}

/// What is sent always ends with the payload as given. It gets the
/// five-byte header (the magic byte, then the schema id in big-endian order)
/// exactly when a schema was found and the payload is JSON that the schema
/// accepts; a payload the schema rejects, one that is not JSON, and any
/// payload without a schema are sent exactly as given.
pub proof fn lemma_sent_payload(lookup: Option<Result<(i32, String), String>>, buffer: Seq<u8>)
    ensures
        ({
            let out = schema_encode_spec(lookup, buffer);
            let header = lookup matches Some(Ok((_, s))) && json_bytes_valid(buffer) && schema_accepts(s@, buffer);
            &&& out.len() == buffer.len() + if header { 5int } else { 0int }
            &&& out.subrange(out.len() - buffer.len(), out.len() as int) == buffer
            &&& !header ==> out == buffer
            &&& header ==> (lookup matches Some(Ok((id, _))) && out[0] == MAGIC_BYTE
                && id_of_bytes(out[1], out[2], out[3], out[4]) == id)
        }),
{
    let out = schema_encode_spec(lookup, buffer);
    if let Some(Ok((id, s))) = lookup {
        if json_bytes_valid(buffer) && schema_accepts(s@, buffer) {
            lemma_id_bytes_roundtrip(id);
            assert(out.subrange(out.len() - buffer.len(), out.len() as int) =~= buffer);
        } else {
            assert(out.subrange(0, out.len() as int) =~= buffer);
        }
    } else {
        assert(out.subrange(0, out.len() as int) =~= buffer);
    }
}

/// Frames an outgoing payload with its topic's schema id when the payload
/// is JSON that satisfies the schema. `lookup` is `None` without a registry,
/// else the schema lookup's result.
pub fn encode_checked_payload(lookup: Option<Result<(i32, String), String>>, buffer: Vec<u8>) -> (r: Vec<u8>)
    requires
        fetched_compiles(lookup) || !json_bytes_valid(buffer@),
    ensures
        r@ == schema_encode_spec(lookup, buffer@),
{
    match lookup {
        Some(Ok((id, schema))) => {
            if !is_json(buffer.as_slice()) {
                return buffer;
            }
            if validate_payload(schema.as_str(), buffer.as_slice()).is_some() {
                return buffer;
            }
            DecodedPayload::encode(id, buffer)
        },
        _ => buffer,
    }
}

/// Like [`encode_checked_payload`], checking first that a looked-up schema
/// compiles where a JSON payload is to be validated against it: `None` for a
/// JSON payload under a schema that does not compile.
pub fn encode_payload(lookup: Option<Result<(i32, String), String>>, buffer: Vec<u8>) -> (r: Option<Vec<u8>>)
    ensures
        r is None <==> !(fetched_compiles(lookup) || !json_bytes_valid(buffer@)),
        r matches Some(b) ==> b@ == schema_encode_spec(lookup, buffer@),
{
    if let Some(Ok((_, schema))) = &lookup {
        if !compiles_as_schema(schema.as_str()) && is_json(buffer.as_slice()) {
            return None;
        }
    }
    Some(encode_checked_payload(lookup, buffer))
}

/// An incoming framed payload after its schema check: the payload
/// delivered, and whether the schema accepts it where it is JSON checked
/// against a schema.
pub struct CheckedPayload {
    pub payload: Vec<u8>,
    pub accepted: Option<bool>,
}

/// Checks the payload of an incoming framed message against its topic's
/// schema; the validation only reports, and the payload is delivered either way.
pub fn check_decoded_payload(lookup: Result<(i32, String), String>, payload: &[u8]) -> (r: CheckedPayload)
    requires
        lookup matches Ok((_, s)) ==> (json_text_valid(s@) && schema_compiles(s@)) || !json_bytes_valid(payload@),
    ensures
        r.payload@ == payload@,
        match lookup {
            Ok((_, s)) => match r.accepted {
                Some(a) => json_bytes_valid(payload@) && a == schema_accepts(s@, payload@),
                None => !json_bytes_valid(payload@),
            },
            Err(_) => r.accepted is None,
        },
{
    let delivered = vstd::slice::slice_to_vec(payload);
    match lookup {
        Err(_) => CheckedPayload { payload: delivered, accepted: None },
        Ok((_, schema)) => {
            if !is_json(payload) {
                return CheckedPayload { payload: delivered, accepted: None };
            }
            let accepted = validate_payload(schema.as_str(), payload).is_none();
            CheckedPayload { payload: delivered, accepted: Some(accepted) }
        },
    }
}

/// Like [`check_decoded_payload`], checking first that a looked-up schema
/// compiles where a JSON payload is to be validated against it: `None` for a
/// JSON payload under a schema that does not compile.
pub fn check_payload(lookup: Result<(i32, String), String>, payload: &[u8]) -> (r: Option<CheckedPayload>)
    ensures
        r is None <==> (lookup matches Ok((_, s)) && !(json_text_valid(s@) && schema_compiles(s@))
            && json_bytes_valid(payload@)),
        r matches Some(c) ==> c.payload@ == payload@,
        r matches Some(c) ==> match lookup {
            Ok((_, s)) => match c.accepted {
                Some(a) => json_bytes_valid(payload@) && a == schema_accepts(s@, payload@),
                None => !json_bytes_valid(payload@),
            },
            Err(_) => c.accepted is None,
        },
{
    if let Ok((_, schema)) = &lookup {
        if !compiles_as_schema(schema.as_str()) && is_json(payload) {
            return None;
        }
    }
    Some(check_decoded_payload(lookup, payload))
}

} // verus!
