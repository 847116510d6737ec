//! Schema-registry framing of Kafka payloads, the schema cache, and the
//! classification of registry failures.

use vstd::prelude::*;
use crate::res_kafka::framing::{
    frame, framed, id_of_bytes, lemma_bytes_id_roundtrip, lemma_id_bytes_roundtrip, unframe,
};
use crate::runtime_error::{spec_description, Error};
use crate::text::{push_str, str_eq};

verus! {

/// Endianness byte that leads every framed payload.
pub const BIG_ENDIAN: u8 = 0;

/// A framed payload read back from a buffer.
pub struct Payload<'a> {
    /// The leading byte of the frame.
    pub magic_byte: u8,
    /// The schema registry id.
    pub registry_id: i32,
    /// The payload after the five header bytes.
    pub data: &'a [u8],
}

impl Payload<'_> {
    /// Encodes `payload` behind the endianness byte and the big-endian bytes of
    /// `registry_id`.
    pub fn encode(registry_id: i32, payload: Vec<u8>) -> (buf: Vec<u8>)
        ensures
            buf@ == framed(BIG_ENDIAN, registry_id, payload@),
    {
        frame(BIG_ENDIAN, registry_id, payload)
    }

    /// Decodes a framed buffer; `None` when it is shorter than the five header bytes.
    pub fn decode(buffer: &[u8]) -> (r: Option<Payload<'_>>)
        ensures
            r is None <==> buffer@.len() < 5,
            r matches Some(p) ==> p.magic_byte == buffer@[0] && p.registry_id == id_of_bytes(
                buffer@[1],
                buffer@[2],
                buffer@[3],
                buffer@[4],
            ) && p.data@ == buffer@.subrange(5, buffer@.len() as int),
    {
        match unframe(buffer) {
            None => None,
            Some((magic_byte, registry_id, data)) => Some(Payload { magic_byte, registry_id, data }),
        }
    }
}

/// Decoding an encoded payload gives back the endianness byte, the id and the payload.
pub proof fn lemma_payload_decode_encode(registry_id: i32, payload: Seq<u8>)
    ensures
        ({
            let b = framed(BIG_ENDIAN, registry_id, payload);
            &&& b.len() >= 5
            &&& b[0] == BIG_ENDIAN
            &&& id_of_bytes(b[1], b[2], b[3], b[4]) == registry_id
            &&& b.subrange(5, b.len() as int) == payload
        }),
{
    let b = framed(BIG_ENDIAN, registry_id, payload);
    lemma_id_bytes_roundtrip(registry_id);
    assert(b.subrange(5, b.len() as int) =~= payload);
}

/// Encoding what a buffer decodes to gives back the buffer, when it leads
/// with the endianness byte.
pub proof fn lemma_payload_encode_decode(buffer: Seq<u8>)
    requires
        buffer.len() >= 5,
        buffer[0] == BIG_ENDIAN,
    ensures
        framed(
            BIG_ENDIAN,
            id_of_bytes(buffer[1], buffer[2], buffer[3], buffer[4]),
            buffer.subrange(5, buffer.len() as int),
        ) == buffer,
{
    lemma_bytes_id_roundtrip(buffer[1], buffer[2], buffer[3], buffer[4]);
    assert(framed(
        BIG_ENDIAN,
        id_of_bytes(buffer[1], buffer[2], buffer[3], buffer[4]),
        buffer.subrange(5, buffer.len() as int),
    ) =~= buffer);
}

} // verus!

verus! {

/// How loudly a registry failure is reported.
#[derive(Clone, Copy, Debug, PartialEq, Eq)]
pub enum Level {
    Error,
    Warn,
}

/// The report of a registry failure: the counter it increments, its level,
/// whether it names the topic, and the failure's description.
#[derive(Clone, Debug, PartialEq, Eq)]
pub struct TraceEvent {
    pub counter: &'static str,
    pub level: Level,
    pub with_topic: bool,
    pub description: String,
}

/// The counter, level and topic reporting of each kind of failure: upstream,
/// application and parsing failures name the topic; runtime, upstream and
/// application failures are errors, the others warnings.
pub open spec fn trace_class(e: Error) -> (Seq<char>, Level, bool) {
    match e {
        Error::ServiceUnavailable(_) => ("processing_errors"@, Level::Error, true),
        Error::BadGateway(_) => ("external_errors"@, Level::Error, true),
        Error::ServerError(_) => ("runtime_errors"@, Level::Error, false),
        Error::BadRequest(_) => ("parsing_errors"@, Level::Warn, true),
        Error::Unauthorized(_) => ("authorization_errors"@, Level::Warn, false),
        Error::NotFound(_) => ("not_found_errors"@, Level::Warn, false),
        Error::Gone(_) => ("deprecated_errors"@, Level::Warn, false),
        Error::ImATeaPot(_) => ("other_errors"@, Level::Warn, false),
    }
}

/// Classifies a registry failure for tracing and metrics.
pub fn trace(err: Error) -> (t: TraceEvent)
    ensures
        (t.counter@, t.level, t.with_topic) == trace_class(err),
        t.description@ == spec_description(err),
{
    match err {
        Error::ServiceUnavailable(d) => TraceEvent { counter: "processing_errors", level: Level::Error, with_topic: true, description: d },
        Error::BadGateway(d) => TraceEvent { counter: "external_errors", level: Level::Error, with_topic: true, description: d },
        Error::ServerError(d) => TraceEvent { counter: "runtime_errors", level: Level::Error, with_topic: false, description: d },
        Error::BadRequest(d) => TraceEvent { counter: "parsing_errors", level: Level::Warn, with_topic: true, description: d },
        Error::Unauthorized(d) => TraceEvent { counter: "authorization_errors", level: Level::Warn, with_topic: false, description: d },
        Error::NotFound(d) => TraceEvent { counter: "not_found_errors", level: Level::Warn, with_topic: false, description: d },
        Error::Gone(d) => TraceEvent { counter: "deprecated_errors", level: Level::Warn, with_topic: false, description: d },
        Error::ImATeaPot(d) => TraceEvent { counter: "other_errors", level: Level::Warn, with_topic: false, description: d },
    }
}

} // verus!

verus! {

/// A cached schema of a topic: its registry id and its JSON text; `None`
/// records that the registry has no schema for the topic.
pub type CachedSchema = Option<(i32, String)>;

/// A cached schema by views.
pub type CachedSchemaView = Option<(i32, Seq<char>)>;

/// The view of a cached schema.
pub open spec fn cached_view(c: CachedSchema) -> CachedSchemaView {
    match c {
        Some((id, s)) => Some((id, s@)),
        None => None,
    }
}

/// The schemas fetched from the registry, by topic.
pub struct SchemaCache {
    entries: Vec<(String, CachedSchema)>,
}

impl SchemaCache {
    /// The cached schemas, by topic.
    pub closed spec fn view(&self) -> Map<Seq<char>, CachedSchemaView> {
        Map::new(
            |t: Seq<char>| exists|i: int| 0 <= i < self.entries@.len() && self.entries@[i].0@ == t,
            |t: Seq<char>| {
                let i = choose|i: int| 0 <= i < self.entries@.len() && self.entries@[i].0@ == t;
                cached_view(self.entries@[i].1)
            },
        )
    }

    #[verifier::type_invariant]
    closed spec fn distinct_topics(&self) -> bool {
        &&& forall|i: int, j: int|
            0 <= i < self.entries@.len() && 0 <= j < self.entries@.len() && i != j
                ==> self.entries@[i].0@ != self.entries@[j].0@
        &&& forall|i: int| 0 <= i < self.entries@.len() ==> (#[trigger] self.entries@[i].1 matches Some((_, text)) ==> json_text_valid(text@))
    }

    /// An empty cache.
    pub fn new() -> (c: SchemaCache)
        ensures
            c.view() == Map::<Seq<char>, CachedSchemaView>::empty(),
    {
        let c = SchemaCache { entries: Vec::new() };
        assert(c.view() =~= Map::<Seq<char>, CachedSchemaView>::empty());
        c
    }

    /// The position of `topic`, if cached.
    fn position(&self, topic: &str) -> (p: Option<usize>)
        ensures
            match p {
                Some(i) => i < self.entries@.len() && self.entries@[i as int].0@ == topic@,
                None => forall|i: int| 0 <= i < self.entries@.len() ==> self.entries@[i].0@ != topic@,
            },
    {
        let mut i: usize = 0;
        while i < self.entries.len()
            invariant
                i <= self.entries@.len(),
                forall|m: int| 0 <= m < i ==> self.entries@[m].0@ != topic@,
            decreases self.entries@.len() - i,
        {
            if str_eq(self.entries[i].0.as_str(), topic) {
                return Some(i);
            }
            i = i + 1;
        }
        None
    }

    /// The cached schema of `topic`, if any.
    pub fn get(&self, topic: &str) -> (r: Option<CachedSchema>)
        ensures
            match r {
                Some(c) => self.view().contains_key(topic@) && self.view()[topic@] == cached_view(c)
                    && (c matches Some((_, text)) ==> json_text_valid(text@)),
                None => !self.view().contains_key(topic@),
            },
    {
        proof {
            use_type_invariant(self);
        }
        match self.position(topic) {
            Some(i) => {
                let entry: CachedSchema = match &self.entries[i].1 {
                    Some((id, text)) => Some((*id, text.clone())),
                    None => None,
                };
                assert(self.view().contains_key(topic@));
                let ghost j = choose|j: int| 0 <= j < self.entries@.len() && self.entries@[j].0@ == topic@;
                assert(j == i as int);
                Some(entry)
            },
            None => {
                assert(!self.view().contains_key(topic@));
                None
            },
        }
    }

    /// Caches `schema` for `topic`, replacing what was cached for it.
    pub fn insert(&mut self, topic: &str, schema: CachedSchema)
        requires
            schema matches Some((_, text)) ==> json_text_valid(text@),
        ensures
            final(self).view() == old(self).view().insert(topic@, cached_view(schema)),
    {
        proof {
            use_type_invariant(&*self);
        }
        let ghost old_view = self.view();
        let ghost old_entries = self.entries@;
        match self.position(topic) {
            Some(i) => {
                let mut entries: Vec<(String, CachedSchema)> = Vec::new();
                std::mem::swap(&mut entries, &mut self.entries);
                entries.set(i, (topic.to_owned(), schema));
                self.entries = entries;
                assert(self.view() =~= old_view.insert(topic@, cached_view(schema))) by {
                    assert forall|t: Seq<char>| #[trigger] self.view().contains_key(t) <==> old_view.insert(topic@, cached_view(schema)).contains_key(t) by {
                        if t != topic@ && old_view.contains_key(t) {
                            let k = choose|k: int| 0 <= k < old_entries.len() && old_entries[k].0@ == t;
                            assert(self.entries@[k].0@ == t);
                        }
                        if t == topic@ {
                            assert(self.entries@[i as int].0@ == t);
                        }
                        if self.view().contains_key(t) && t != topic@ {
                            let k = choose|k: int| 0 <= k < self.entries@.len() && self.entries@[k].0@ == t;
                            assert(old_entries[k].0@ == t);
                        }
                    }
                    assert forall|t: Seq<char>| #[trigger] self.view().contains_key(t) implies self.view()[t] == old_view.insert(topic@, cached_view(schema))[t] by {
                        let k = choose|k: int| 0 <= k < self.entries@.len() && self.entries@[k].0@ == t;
                        if t == topic@ {
                            assert(k == i as int);
                        } else {
                            assert(old_entries[k].0@ == t);
                            let k2 = choose|k2: int| 0 <= k2 < old_entries.len() && old_entries[k2].0@ == t;
                            assert(k2 == k);
                        }
                    }
                }
            },
            None => {
                let mut entries: Vec<(String, CachedSchema)> = Vec::new();
                std::mem::swap(&mut entries, &mut self.entries);
                entries.push((topic.to_owned(), schema));
                self.entries = entries;
                assert(self.view() =~= old_view.insert(topic@, cached_view(schema))) by {
                    let n = old_entries.len() as int;
                    assert forall|t: Seq<char>| #[trigger] self.view().contains_key(t) <==> old_view.insert(topic@, cached_view(schema)).contains_key(t) by {
                        if t != topic@ && old_view.contains_key(t) {
                            let k = choose|k: int| 0 <= k < old_entries.len() && old_entries[k].0@ == t;
                            assert(self.entries@[k].0@ == t);
                        }
                        if t == topic@ {
                            assert(self.entries@[n].0@ == t);
                        }
                        if self.view().contains_key(t) && t != topic@ {
                            let k = choose|k: int| 0 <= k < self.entries@.len() && self.entries@[k].0@ == t;
                            assert(old_entries[k].0@ == t);
                        }
                    }
                    assert forall|t: Seq<char>| #[trigger] self.view().contains_key(t) implies self.view()[t] == old_view.insert(topic@, cached_view(schema))[t] by {
                        let k = choose|k: int| 0 <= k < self.entries@.len() && self.entries@[k].0@ == t;
                        if t == topic@ {
                            assert(k == n);
                        } else {
                            assert(old_entries[k].0@ == t);
                            let k2 = choose|k2: int| 0 <= k2 < old_entries.len() && old_entries[k2].0@ == t;
                            assert(k2 == k);
                        }
                    }
                }
            },
        }
    }

    /// Forgets every cached schema.
    pub fn clear(&mut self)
        ensures
            final(self).view() == Map::<Seq<char>, CachedSchemaView>::empty(),
    {
        self.entries = Vec::new();
        assert(self.view() =~= Map::<Seq<char>, CachedSchemaView>::empty());
    }
}

} // verus!

verus! {

/// Whether serde_json reads `text` as a JSON value (`serde_json::from_str::<Value>`).
pub uninterp spec fn json_text_valid(text: Seq<char>) -> bool;

/// Whether serde_json reads `bytes` as a JSON value (`serde_json::from_slice::<Value>`).
pub uninterp spec fn json_bytes_valid(bytes: Seq<u8>) -> bool;

/// Whether the JSON text `schema` is a JSON Schema that `jsonschema` can
/// compile (`jsonschema::validator_for` succeeds).
pub uninterp spec fn schema_compiles(schema: Seq<char>) -> bool;

/// Whether the JSON document `payload` satisfies the JSON Schema `schema`
/// (`jsonschema::validate`).
pub uninterp spec fn schema_accepts(schema: Seq<char>, payload: Seq<u8>) -> bool;

/// serde_json's error for `text` that is not JSON, in its `Debug` form
/// (`serde_json::from_str::<Value>`, then `{:?}` of the error).
pub uninterp spec fn json_error_message(text: Seq<char>) -> Seq<char>;

/// Parses `text` as JSON (`serde_json::from_str::<Value>`): `None` when it is
/// JSON, else serde_json's error message (in its `Debug` form).
#[verifier::external_body]
pub(crate) fn json_text_error(text: &str) -> (r: Option<String>)
    ensures
        r is None <==> json_text_valid(text@),
        r matches Some(m) ==> m@ == json_error_message(text@),
{
    match serde_json::from_str::<serde_json::Value>(text) {
        Ok(_) => None,
        Err(e) => Some(format!("{e:?}")),
    }
}

/// Whether `bytes` parse as JSON (`serde_json::from_slice::<Value>`).
#[verifier::external_body]
pub(crate) fn is_json(bytes: &[u8]) -> (b: bool)
    ensures
        b == json_bytes_valid(bytes@),
{
    serde_json::from_slice::<serde_json::Value>(bytes).is_ok()
}

/// Whether the text `schema` is JSON (`serde_json::from_str::<Value>`) that
/// compiles as a JSON Schema (`jsonschema::validator_for`).
#[verifier::external_body]
pub(crate) fn compiles_as_schema(schema: &str) -> (b: bool)
    ensures
        b == (json_text_valid(schema@) && schema_compiles(schema@)),
{
    match serde_json::from_str::<serde_json::Value>(schema) {
        Ok(v) => jsonschema::validator_for(&v).is_ok(),
        Err(_) => false,
    }
}

/// The message (`Display`) of the first error that `jsonschema::validate`
/// reports for the JSON document `payload` under the JSON Schema `schema`.
pub uninterp spec fn validation_message(schema: Seq<char>, payload: Seq<u8>) -> Seq<char>;

/// Validates the JSON document `payload` against the JSON Schema `schema`
/// (`jsonschema::validate`, which panics on a schema that does not compile):
/// `None` when the schema accepts it, else the first error's message.
#[verifier::external_body]
pub(crate) fn validate_payload(schema: &str, payload: &[u8]) -> (r: Option<String>)
    requires
        json_text_valid(schema@),
        schema_compiles(schema@),
        json_bytes_valid(payload@),
    ensures
        r is None <==> schema_accepts(schema@, payload@),
        r matches Some(m) ==> m@ == validation_message(schema@, payload@),
{
    match (serde_json::from_str::<serde_json::Value>(schema), serde_json::from_slice::<serde_json::Value>(payload)) {
        (Ok(s), Ok(p)) => jsonschema::validate(&s, &p).err().map(|e| e.to_string()),
        _ => None,
    }
}

/// Validates the JSON document `payload` against the JSON Schema `schema`:
/// the error is `Validation error: ` followed by the first violation's message.
pub fn validate_payload_with_schema(schema: &str, payload: &[u8]) -> (r: Result<(), String>)
    requires
        json_text_valid(schema@),
        schema_compiles(schema@),
        json_bytes_valid(payload@),
    ensures
        r is Ok <==> schema_accepts(schema@, payload@),
        r matches Err(m) ==> m@ == "Validation error: "@ + validation_message(schema@, payload@),
{
    match validate_payload(schema, payload) {
        None => Ok(()),
        Some(e) => {
            let mut m = String::new();
            push_str(&mut m, "Validation error: ");
            push_str(&mut m, e.as_str());
            Err(m)
        },
    }
}

/// Like [`validate_payload_with_schema`] on texts that may not be JSON or a
/// compiling schema: `None` unless `schema` is a JSON Schema that compiles
/// and `payload` is JSON.
pub fn validate_payload_with_schema_checked(schema: &str, payload: &[u8]) -> (r: Option<Result<(), String>>)
    ensures
        r is Some <==> json_text_valid(schema@) && schema_compiles(schema@) && json_bytes_valid(payload@),
        r matches Some(v) ==> (v is Ok <==> schema_accepts(schema@, payload@)),
        r matches Some(Err(m)) ==> m@ == "Validation error: "@ + validation_message(schema@, payload@),
{
    if !compiles_as_schema(schema) || !is_json(payload) {
        return None;
    }
    Some(validate_payload_with_schema(schema, payload))
}

/// What the registry answered for a topic's latest schema.
#[derive(Clone, Debug, PartialEq, Eq)]
pub enum FetchOutcome {
    /// The registry has no schema for the subject (HTTP 404).
    NotFound,
    /// Another HTTP error, with the response's content.
    ResponseError(String),
    /// Any other failure, described.
    Failed(String),
    /// A schema response, with its schema text and id when present.
    Fetched { schema: Option<String>, id: Option<i32> },
}

/// The registry subject of a topic's value schema: `<topic>-value`.
pub fn subject_for(topic: &str) -> (s: String)
    ensures
        s@ == topic@ + "-value"@,
{
    let mut s = String::new();
    push_str(&mut s, topic);
    push_str(&mut s, "-value");
    s
}

/// The text `prefix` followed by `topic`.
fn with_topic(prefix: &str, topic: &str) -> (s: String)
    ensures
        s@ == prefix@ + topic@,
{
    let mut s = String::new();
    push_str(&mut s, prefix);
    push_str(&mut s, topic);
    s
}

/// What recording a fetch outcome returns, and caches, by views: the error's
/// code and description where it fails, or the schema.
pub open spec fn fetch_result_spec(topic: Seq<char>, outcome: FetchOutcome) -> Result<CachedSchemaView, (u64, Seq<char>)> {
    match outcome {
        FetchOutcome::NotFound => Err((404, "Schema not found for topic "@ + topic)),
        FetchOutcome::ResponseError(c) => Err((502, "Error fetching schema for topic "@ + topic + ": "@ + c@)),
        FetchOutcome::Failed(d) => Err((500, "Error fetching schema for topic "@ + topic + ": "@ + d@)),
        FetchOutcome::Fetched { schema, id } => match schema {
            None => Err((502, "Schema string is missing"@)),
            Some(text) => if !json_text_valid(text@) {
                Err((502, "Invalid schema JSON: "@ + json_error_message(text@)))
            } else {
                match id {
                    None => Err((502, "Registry ID missing for topic "@ + topic)),
                    Some(i) => Ok(Some((i, text@))),
                }
            },
        },
    }
}

/// Records what the registry answered for `topic`: a schema is cached and
/// returned; a missing schema (404) is cached as absent and reported as not
/// found; other failures are reported and nothing is cached.
pub fn record_fetch(cache: &mut SchemaCache, topic: &str, outcome: FetchOutcome) -> (r: Result<CachedSchema, Error>)
    ensures
        match fetch_result_spec(topic@, outcome) {
            Ok(c) => r matches Ok(x) && cached_view(x) == c && (x matches Some((_, text)) ==> json_text_valid(text@)) && final(cache).view() == old(cache).view().insert(topic@, c),
            Err((code, desc)) => r matches Err(e) && crate::runtime_error::spec_code(e) == code
                && spec_description(e) == desc
                && final(cache).view() == if outcome is NotFound {
                    old(cache).view().insert(topic@, None)
                } else {
                    old(cache).view()
                },
        },
{
    match outcome {
        FetchOutcome::NotFound => {
            cache.insert(topic, None);
            Err(Error::NotFound(with_topic("Schema not found for topic ", topic)))
        },
        FetchOutcome::ResponseError(content) => {
            let mut d = with_topic("Error fetching schema for topic ", topic);
            push_str(&mut d, ": ");
            push_str(&mut d, content.as_str());
            Err(Error::BadGateway(d))
        },
        FetchOutcome::Failed(detail) => {
            let mut d = with_topic("Error fetching schema for topic ", topic);
            push_str(&mut d, ": ");
            push_str(&mut d, detail.as_str());
            Err(Error::ServerError(d))
        },
        FetchOutcome::Fetched { schema, id } => {
            let text = match schema {
                Some(t) => t,
                None => return Err(Error::BadGateway("Schema string is missing".to_owned())),
            };
            if let Some(e) = json_text_error(text.as_str()) {
                let mut d = String::new();
                push_str(&mut d, "Invalid schema JSON: ");
                push_str(&mut d, e.as_str());
                return Err(Error::BadGateway(d));
            }
            let registry_id = match id {
                Some(i) => i,
                None => return Err(Error::BadGateway(with_topic("Registry ID missing for topic ", topic))),
            };
            let ghost cached = Some((registry_id, text@));
            let stored = text.clone();
            cache.insert(topic, Some((registry_id, stored)));
            Ok(Some((registry_id, text)))
        },
    }
}

} // verus!

verus! {

/// The first step of looking up a topic's schema.
#[derive(Debug)]
pub enum LookupStep {
    /// The lookup is answered without asking the registry.
    Done(Result<CachedSchema, Error>),
    /// The registry is to be asked for the latest schema of this subject;
    /// its answer goes to [`record_fetch`].
    Fetch(String),
}

/// Starts looking up `topic`'s schema: without a registry client the lookup
/// fails as a server error; a cached entry (a schema, or its known absence)
/// answers it; otherwise the registry is asked for the subject `<topic>-value`.
pub fn lookup_step(has_client: bool, cache: &SchemaCache, topic: &str) -> (r: LookupStep)
    ensures
        !has_client ==> (r matches LookupStep::Done(Err(e)) && e is ServerError
            && spec_description(e) == "No schema registry client available"@),
        has_client && cache.view().contains_key(topic@) ==> (r matches LookupStep::Done(Ok(c))
            && cached_view(c) == cache.view()[topic@]),
        has_client && !cache.view().contains_key(topic@) ==> (r matches LookupStep::Fetch(s)
            && s@ == topic@ + "-value"@),
{
    if !has_client {
        return LookupStep::Done(Err(Error::ServerError("No schema registry client available".to_owned())));
    }
    match cache.get(topic) {
        Some(c) => LookupStep::Done(Ok(c)),
        None => LookupStep::Fetch(subject_for(topic)),
    }
}

/// Whether a looked-up schema compiles, where there is one.
pub open spec fn lookup_compiles(lookup: Result<CachedSchema, Error>) -> bool {
    lookup matches Ok(Some((_, s))) ==> json_text_valid(s@) && schema_compiles(s@)
}

/// Whether `buffer` can be checked against a looked-up schema: the schema
/// compiles, or `buffer` is not JSON and so is never validated.
pub open spec fn encode_checkable(lookup: Result<CachedSchema, Error>, buffer: Seq<u8>) -> bool {
    lookup_compiles(lookup) || !json_bytes_valid(buffer)
}

/// The payload sent for `buffer` once the topic's schema has been looked up:
/// with a schema, a JSON payload that satisfies it is framed with the schema's
/// id; any other payload is sent as given. The second part is the report of a
/// failed lookup.
pub open spec fn encode_spec(lookup: Result<CachedSchema, Error>, buffer: Seq<u8>) -> Seq<u8> {
    match lookup {
        Ok(Some((id, s))) => if json_bytes_valid(buffer) && schema_accepts(s@, buffer) {
            framed(BIG_ENDIAN, id, buffer)
        } else {
            buffer
        },
        _ => buffer,
    }
}

/// What is sent always ends with the payload as given. It gets the
/// five-byte header (the big-endian marker, then the schema id in big-endian
/// order) exactly when a schema was found and the payload is JSON that the
/// schema accepts; a payload the schema rejects, one that is not JSON, and
/// any payload without a schema or after a failed lookup are sent exactly as
/// given.
pub proof fn lemma_sent_payload(lookup: Result<CachedSchema, Error>, buffer: Seq<u8>)
    ensures
        ({
            let out = encode_spec(lookup, buffer);
            let header = lookup matches Ok(Some((_, s))) && json_bytes_valid(buffer) && schema_accepts(s@, buffer);
            &&& out.len() == buffer.len() + if header { 5int } else { 0int }
            &&& out.subrange(out.len() - buffer.len(), out.len() as int) == buffer
            &&& !header ==> out == buffer
            &&& header ==> (lookup matches Ok(Some((id, _))) && out[0] == BIG_ENDIAN
                && id_of_bytes(out[1], out[2], out[3], out[4]) == id)
        }),
{
    let out = encode_spec(lookup, buffer);
    if let Ok(Some((id, s))) = lookup {
        if json_bytes_valid(buffer) && schema_accepts(s@, buffer) {
            lemma_id_bytes_roundtrip(id);
            assert(out.subrange(out.len() - buffer.len(), out.len() as int) =~= buffer);
        } else {
            assert(out.subrange(0, out.len() as int) =~= buffer);
        }
    } else {
        assert(out.subrange(0, out.len() as int) =~= buffer);
    }
}

/// Frames an outgoing payload with its topic's schema id when the payload is
/// JSON that satisfies the schema; a failed lookup is reported.
pub fn encode_with_schema(lookup: Result<CachedSchema, Error>, buffer: Vec<u8>) -> (r: (Vec<u8>, Option<TraceEvent>))
    requires
        encode_checkable(lookup, buffer@),
    ensures
        r.0@ == encode_spec(lookup, buffer@),
        match lookup {
            Err(e) => r.1 matches Some(t) && (t.counter@, t.level, t.with_topic) == trace_class(e)
                && t.description@ == spec_description(e),
            Ok(_) => r.1 is None,
        },
{
    match lookup {
        Err(e) => (buffer, Some(trace(e))),
        Ok(None) => (buffer, None),
        Ok(Some((id, schema))) => {
            if !is_json(buffer.as_slice()) {
                return (buffer, None);
            }
            if validate_payload(schema.as_str(), buffer.as_slice()).is_some() {
                return (buffer, None);
            }
            (Payload::encode(id, buffer), None)
        },
    }
}

/// Like [`encode_with_schema`], checking first that the looked-up schema
/// compiles where a JSON payload is to be validated against it: `None` for
/// a JSON payload under a schema that does not compile.
pub fn encode_with_schema_checked(lookup: Result<CachedSchema, Error>, buffer: Vec<u8>) -> (r: Option<(Vec<u8>, Option<TraceEvent>)>)
    ensures
        r is None <==> !encode_checkable(lookup, buffer@),
        r matches Some(x) ==> x.0@ == encode_spec(lookup, buffer@),
        r matches Some(x) ==> (lookup is Err <==> x.1 is Some),
{
    if let Ok(Some((_, schema))) = &lookup {
        if !compiles_as_schema(schema.as_str()) && is_json(buffer.as_slice()) {
            return None;
        }
    }
    Some(encode_with_schema(lookup, buffer))
}

/// The payload delivered for an incoming `buffer` once the topic's schema has
/// been looked up: with a schema, the payload after the five header bytes when
/// there are five; otherwise the buffer as received.
pub open spec fn decode_spec(lookup: Result<CachedSchema, Error>, buffer: Seq<u8>) -> Seq<u8> {
    match lookup {
        Ok(Some(_)) => if buffer.len() >= 5 {
            buffer.subrange(5, buffer.len() as int)
        } else {
            buffer
        },
        _ => buffer,
    }
}

/// A payload that its topic's schema accepts is delivered unchanged: what is
/// sent for it, with its framing taken off on receipt under the same lookup,
/// is the payload itself. Without a schema both sides pass it through.
pub proof fn lemma_accepted_payload_roundtrip(lookup: Result<CachedSchema, Error>, buffer: Seq<u8>)
    requires
        lookup matches Ok(Some((_, s))) ==> json_bytes_valid(buffer) && schema_accepts(s@, buffer),
    ensures
        decode_spec(lookup, encode_spec(lookup, buffer)) == buffer,
{
    if let Ok(Some((id, s))) = lookup {
        let f = framed(BIG_ENDIAN, id, buffer);
        assert(f.len() == buffer.len() + 5);
        assert(f.subrange(5, f.len() as int) =~= buffer);
    }
}

/// Whether an incoming `buffer` can be checked against a looked-up schema:
/// the schema compiles, or no JSON payload follows a five-byte header, so
/// nothing is validated.
pub open spec fn decode_checkable(lookup: Result<CachedSchema, Error>, buffer: Seq<u8>) -> bool {
    lookup_compiles(lookup) || buffer.len() < 5 || !json_bytes_valid(buffer.subrange(5, buffer.len() as int))
}

/// An incoming payload after its schema framing is taken off: the payload,
/// the report of a failed lookup, and, where the payload is JSON checked
/// against the schema, whether the schema accepts it.
pub struct Decoded {
    pub payload: Vec<u8>,
    pub event: Option<TraceEvent>,
    pub accepted: Option<bool>,
}

/// Takes the schema framing off an incoming payload, checking the payload
/// against the schema when it is JSON; the validation only reports.
pub fn decode_with_schema(lookup: Result<CachedSchema, Error>, buffer: &[u8]) -> (r: Decoded)
    requires
        decode_checkable(lookup, buffer@),
    ensures
        r.payload@ == decode_spec(lookup, buffer@),
        match lookup {
            Err(e) => r.event matches Some(t) && (t.counter@, t.level, t.with_topic) == trace_class(e)
                && t.description@ == spec_description(e),
            Ok(_) => r.event is None,
        },
        match lookup {
            Ok(Some((_, s))) => match r.accepted {
                Some(a) => buffer@.len() >= 5 && json_bytes_valid(r.payload@) && a == schema_accepts(s@, r.payload@),
                None => buffer@.len() < 5 || !json_bytes_valid(r.payload@),
            },
            _ => r.accepted is None,
        },
{
    match lookup {
        Err(e) => Decoded { payload: vstd::slice::slice_to_vec(buffer), event: Some(trace(e)), accepted: None },
        Ok(None) => Decoded { payload: vstd::slice::slice_to_vec(buffer), event: None, accepted: None },
        Ok(Some((_, schema))) => {
            let decoded = match Payload::decode(buffer) {
                Some(d) => d,
                None => return Decoded { payload: vstd::slice::slice_to_vec(buffer), event: None, accepted: None },
            };
            let data = decoded.data;
            if !is_json(data) {
                return Decoded { payload: vstd::slice::slice_to_vec(data), event: None, accepted: None };
            }
            let accepted = validate_payload(schema.as_str(), data).is_none();
            Decoded { payload: vstd::slice::slice_to_vec(data), event: None, accepted: Some(accepted) }
        },
    }
}

/// Like [`decode_with_schema`], checking first that the looked-up schema
/// compiles where a JSON payload is to be validated against it: `None` for a
/// JSON payload under a schema that does not compile.
pub fn decode_with_schema_checked(lookup: Result<CachedSchema, Error>, buffer: &[u8]) -> (r: Option<Decoded>)
    ensures
        r is None <==> !decode_checkable(lookup, buffer@),
        r matches Some(d) ==> d.payload@ == decode_spec(lookup, buffer@),
{
    if let Ok(Some((_, schema))) = &lookup {
        if !compiles_as_schema(schema.as_str()) && buffer.len() >= 5 {
            let payload = vstd::slice::slice_subrange(buffer, 5, buffer.len());
            if is_json(payload) {
                return None;
            }
        }
    }
    Some(decode_with_schema(lookup, buffer))
}

} // verus!
