//! MongoDB blob storage: connection options of the backend and the
//! resource, and how an object's bytes become a stored blob and back. A
//! JSON object is stored as a document; any other payload must be a JSON
//! string, stored under the field `_string`.

use vstd::prelude::*;
use crate::env::{env_view, required_setting, required_spec, EnvError, EnvErrorView};

pub mod backend;
pub mod resource;

verus! {

/// Whether serde_json reads `bytes` as a BSON document
/// (`serde_json::from_slice::<bson::Document>`).
pub uninterp spec fn json_document(bytes: Seq<u8>) -> bool;

/// The string serde_json reads from `bytes`, if they are a JSON string
/// (`serde_json::from_slice::<String>`).
pub uninterp spec fn json_string_value(bytes: Seq<u8>) -> Option<Seq<char>>;

/// The JSON text of the string `s` (`serde_json::to_vec`).
pub uninterp spec fn json_of_string(s: Seq<char>) -> Seq<u8>;

/// The JSON text of the document that `bytes` read as
/// (`serde_json::from_slice::<bson::Document>`, then `serde_json::to_vec`).
pub uninterp spec fn document_json(bytes: Seq<u8>) -> Option<Seq<u8>>;

/// Whether `bytes` read as a BSON document.
#[verifier::external_body]
fn is_json_document(bytes: &[u8]) -> (b: bool)
    ensures
        b == json_document(bytes@),
{
    serde_json::from_slice::<bson::Document>(bytes).is_ok()
}

/// The string that `bytes` read as, if they are a JSON string.
#[verifier::external_body]
fn string_of_json(bytes: &[u8]) -> (r: Option<String>)
    ensures
        match r {
            Some(s) => json_string_value(bytes@) == Some(s@),
            None => json_string_value(bytes@) is None,
        },
{
    serde_json::from_slice::<String>(bytes).ok()
}

/// The JSON text of a string, which reads back as the same string
/// (`serde_json::to_vec`, which does not fail on a string).
#[verifier::external_body]
fn json_of(s: &str) -> (b: Vec<u8>)
    ensures
        b@ == json_of_string(s@),
        json_string_value(b@) == Some(s@),
{
    serde_json::to_vec(s).unwrap_or_default()
}

/// The JSON text of the document that `bytes` read as.
#[verifier::external_body]
fn json_of_document(bytes: &[u8]) -> (r: Option<Vec<u8>>)
    ensures
        match r {
            Some(b) => document_json(bytes@) == Some(b@),
            None => document_json(bytes@) is None,
        },
{
    let doc = serde_json::from_slice::<bson::Document>(bytes).ok()?;
    serde_json::to_vec(&doc).ok()
}

/// What a blob stores.
#[derive(Debug, Clone)]
pub enum BlobData {
    /// A JSON object, by its text.
    Document(Vec<u8>),
    /// A JSON string's value, stored under `_string`.
    Text(String),
}

/// Why an object's bytes could not be stored.
#[derive(Debug, Clone, Copy, PartialEq, Eq)]
pub enum BlobError {
    /// No bytes.
    Empty,
    /// Bytes that start with `{` but do not read as a document.
    NotDocument,
    /// Bytes that do not read as a JSON string.
    NotString,
    /// A stored document that does not serialize back to JSON.
    Unserializable,
}

/// A stored object: its name, data, size in bytes and creation time in
/// milliseconds since the epoch.
#[derive(Debug, Clone)]
pub struct Blob {
    pub name: String,
    pub data: BlobData,
    pub size: u64,
    pub created_at: u64,
}

/// What an object's bytes are stored as, by views: `Ok(Some(b))` for a
/// document with text `b`, `Ok(None)` for a text, whose value is
/// `json_string_value(bytes)`.
pub open spec fn blob_data_spec(bytes: Seq<u8>) -> Result<Option<Seq<u8>>, BlobError> {
    if bytes.len() == 0 {
        Err(BlobError::Empty)
    } else if bytes[0] == 0x7b {
        if json_document(bytes) { Ok(Some(bytes)) } else { Err(BlobError::NotDocument) }
    } else {
        match json_string_value(bytes) {
            Some(_) => Ok(None),
            None => Err(BlobError::NotString),
        }
    }
}

/// What an object's bytes are stored as: a document when they start with
/// `{`, else the JSON string they read as.
pub fn blob_data(bytes: &[u8]) -> (r: Result<BlobData, BlobError>)
    ensures
        match r {
            Ok(BlobData::Document(b)) => blob_data_spec(bytes@) == Ok::<Option<Seq<u8>>, BlobError>(Some(b@)),
            Ok(BlobData::Text(s)) => blob_data_spec(bytes@) == Ok::<Option<Seq<u8>>, BlobError>(None)
                && json_string_value(bytes@) == Some(s@),
            Err(e) => blob_data_spec(bytes@) == Err::<Option<Seq<u8>>, BlobError>(e),
        },
{
    if bytes.len() == 0 {
        return Err(BlobError::Empty);
    }
    if bytes[0] == 0x7b {
        if is_json_document(bytes) {
            Ok(BlobData::Document(vstd::slice::slice_to_vec(bytes)))
        } else {
            Err(BlobError::NotDocument)
        }
    } else {
        match string_of_json(bytes) {
            Some(s) => Ok(BlobData::Text(s)),
            None => Err(BlobError::NotString),
        }
    }
}

impl Blob {
    /// The blob that writing `bytes` as `name` at `now_millis` stores.
    pub fn new(name: String, bytes: &[u8], now_millis: i64) -> (r: Result<Blob, BlobError>)
        ensures
            match r {
                Ok(b) => b.name@ == name@ && b.size == bytes@.len() && b.created_at == now_millis as u64
                    && match b.data {
                        BlobData::Document(d) => blob_data_spec(bytes@) == Ok::<Option<Seq<u8>>, BlobError>(Some(d@)),
                        BlobData::Text(s) => blob_data_spec(bytes@) == Ok::<Option<Seq<u8>>, BlobError>(None)
                            && json_string_value(bytes@) == Some(s@),
                    },
                Err(e) => blob_data_spec(bytes@) == Err::<Option<Seq<u8>>, BlobError>(e),
            },
    {
        let data = match blob_data(bytes) {
            Ok(d) => d,
            Err(e) => return Err(e),
        };
        let size = bytes.len() as u64;
        Ok(Blob { name, data, size, created_at: now_millis as u64 })
    }

    /// The bytes a read of the blob returns: the JSON text of the stored
    /// string, or of the stored document.
    pub fn read_bytes(&self) -> (r: Result<Vec<u8>, BlobError>)
        ensures
            match self.data {
                BlobData::Text(s) => r matches Ok(b) && b@ == json_of_string(s@) && json_string_value(b@) == Some(s@),
                BlobData::Document(d) => match r {
                    Ok(b) => document_json(d@) == Some(b@),
                    Err(e) => e == BlobError::Unserializable && document_json(d@) is None,
                },
            },
    {
        match &self.data {
            BlobData::Text(s) => Ok(json_of(s.as_str())),
            BlobData::Document(d) => match json_of_document(d.as_slice()) {
                Some(b) => Ok(b),
                None => Err(BlobError::Unserializable),
            },
        }
    }
}

/// The URI a client that reads its setting directly connects to:
/// `MONGODB_URI`, which must be set.
pub fn client_uri(vars: &Vec<(String, String)>) -> (r: Result<String, EnvError>)
    ensures
        match r {
            Ok(u) => required_spec(env_view(vars@), "MONGODB_URI"@) == Ok::<Seq<char>, EnvErrorView>(u@),
            Err(e) => required_spec(env_view(vars@), "MONGODB_URI"@) == Err::<Seq<char>, EnvErrorView>(e@),
        },
{
    required_setting(vars, "MONGODB_URI")
}

} // verus!
