//! Kafka messages as delivered: header values read as text, the
//! description header, and the message handed to the guest.

use vstd::prelude::*;
use crate::messaging::{metadata_view, Message};
use crate::text::str_eq;

verus! {

/// The text `String::from_utf8_lossy` makes of `bytes`: their characters
/// where they are UTF-8, with invalid sequences replaced by U+FFFD.
pub uninterp spec fn utf8_lossy(bytes: Seq<u8>) -> Seq<char>;

/// Reads `bytes` as text (`String::from_utf8_lossy`); valid UTF-8 reads as
/// the characters it encodes.
#[verifier::external_body]
fn lossy_text(bytes: &[u8]) -> (s: String)
    ensures
        s@ == utf8_lossy(bytes@),
        vstd::utf8::valid_utf8(bytes@) ==> s@ == vstd::utf8::decode_utf8(bytes@),
{
    String::from_utf8_lossy(bytes).to_string()
}

/// A header by views: its key and its value, if any.
pub open spec fn header_view(h: (String, Option<Vec<u8>>)) -> (Seq<char>, Option<Seq<u8>>) {
    (
        h.0@,
        match h.1 {
            Some(v) => Some(v@),
            None => None,
        },
    )
}

/// The text of a header's value: an absent value reads as empty.
pub open spec fn header_text_spec(value: Option<Seq<u8>>) -> Seq<char> {
    match value {
        Some(v) => utf8_lossy(v),
        None => utf8_lossy(Seq::empty()),
    }
}

/// The metadata of Kafka headers: each key with its value read as text, in
/// header order (collected into a map, a later header replaces an earlier
/// one with the same key).
pub open spec fn kafka_metadata_spec(headers: Seq<(Seq<char>, Option<Seq<u8>>)>) -> Seq<(Seq<char>, Seq<char>)> {
    headers.map_values(|h: (Seq<char>, Option<Seq<u8>>)| (h.0, header_text_spec(h.1)))
}

/// The metadata of Kafka headers.
pub fn kafka_metadata(headers: &Vec<(String, Option<Vec<u8>>)>) -> (m: Vec<(String, String)>)
    ensures
        metadata_view(m@) == kafka_metadata_spec(headers@.map_values(|h: (String, Option<Vec<u8>>)| header_view(h))),
{
    let ghost hv = headers@.map_values(|h: (String, Option<Vec<u8>>)| header_view(h));
    let mut m: Vec<(String, String)> = Vec::new();
    let mut i: usize = 0;
    while i < headers.len()
        invariant
            i <= headers@.len(),
            hv == headers@.map_values(|h: (String, Option<Vec<u8>>)| header_view(h)),
            metadata_view(m@) == kafka_metadata_spec(hv.take(i as int)),
        decreases headers@.len() - i,
    {
        let text = match &headers[i].1 {
            Some(v) => lossy_text(v.as_slice()),
            None => {
                let empty: Vec<u8> = Vec::new();
                lossy_text(empty.as_slice())
            },
        };
        let ghost before = m@;
        m.push((headers[i].0.clone(), text));
        assert(metadata_view(m@) =~= metadata_view(before).push((headers@[i as int].0@, text@)));
        assert(kafka_metadata_spec(hv.take(i + 1)) =~= kafka_metadata_spec(hv.take(i as int)).push(
            (hv[i as int].0, header_text_spec(hv[i as int].1)),
        ));
        i = i + 1;
    }
    assert(hv.take(headers@.len() as int) =~= hv);
    m
}

/// The description of a message: the text of the first `description`
/// header that has a value.
pub open spec fn description_spec(headers: Seq<(Seq<char>, Option<Seq<u8>>)>) -> Option<Seq<char>>
    decreases headers.len(),
{
    if headers.len() == 0 {
        None
    } else if headers[0].0 == "description"@ && headers[0].1 is Some {
        Some(utf8_lossy(headers[0].1->0))
    } else {
        description_spec(headers.drop_first())
    }
}

/// The description of a message with `headers`.
pub fn description(headers: &Vec<(String, Option<Vec<u8>>)>) -> (d: Option<String>)
    ensures
        match d {
            Some(s) => description_spec(headers@.map_values(|h: (String, Option<Vec<u8>>)| header_view(h))) == Some(s@),
            None => description_spec(headers@.map_values(|h: (String, Option<Vec<u8>>)| header_view(h))) is None,
        },
{
    let ghost hv = headers@.map_values(|h: (String, Option<Vec<u8>>)| header_view(h));
    let mut i: usize = 0;
    assert(hv.subrange(0, hv.len() as int) =~= hv);
    while i < headers.len()
        invariant
            i <= headers@.len(),
            hv == headers@.map_values(|h: (String, Option<Vec<u8>>)| header_view(h)),
            description_spec(hv.subrange(i as int, hv.len() as int)) == description_spec(hv),
        decreases headers@.len() - i,
    {
        let ghost rest = hv.subrange(i as int, hv.len() as int);
        assert(rest.drop_first() =~= hv.subrange(i + 1, hv.len() as int));
        if str_eq(headers[i].0.as_str(), "description") {
            if let Some(v) = &headers[i].1 {
                return Some(lossy_text(v.as_slice()));
            }
        }
        i = i + 1;
    }
    None
}

/// The message handed to the guest for a Kafka record: its topic, payload
/// (after any schema framing was applied) and headers as metadata.
pub fn into_message(topic: String, payload: Vec<u8>, headers: Option<Vec<(String, Option<Vec<u8>>)>>) -> (m: Message)
    ensures
        m.topic@ == topic@,
        m.payload@ == payload@,
        m.length == payload@.len(),
        m.description is None,
        m.reply is None,
        match headers {
            Some(h) => m.metadata matches Some(md) && metadata_view(md@) == kafka_metadata_spec(
                h@.map_values(|x: (String, Option<Vec<u8>>)| header_view(x)),
            ),
            None => m.metadata is None,
        },
{
    let metadata = match &headers {
        Some(h) => Some(kafka_metadata(h)),
        None => None,
    };
    let length = payload.len();
    Message { topic, payload, metadata, description: None, length, reply: None }
}

} // verus!
