//! Messages as the messaging interface carries them, and the conversion of
//! a delivered broker message, whose headers may hold several values each.

use vstd::prelude::*;
use crate::text::{push_str, str_eq};

verus! {

/// Where a reply to a message goes.
#[derive(Clone, Debug)]
pub struct Reply {
    /// The messaging client that delivered the message.
    pub client_name: String,
    /// The reply topic.
    pub topic: String,
}

/// A message: its topic, payload, metadata (header names with their
/// values), description, payload length and reply address.
#[derive(Clone, Debug)]
pub struct Message {
    pub topic: String,
    pub payload: Vec<u8>,
    pub metadata: Option<Vec<(String, String)>>,
    pub description: Option<String>,
    pub length: usize,
    pub reply: Option<Reply>,
}

/// The pieces of `parts` with `sep` between each two.
pub open spec fn join_spec(parts: Seq<Seq<char>>, sep: Seq<char>) -> Seq<char>
    decreases parts.len(),
{
    if parts.len() == 0 {
        Seq::empty()
    } else if parts.len() == 1 {
        parts[0]
    } else {
        join_spec(parts.drop_last(), sep) + sep + parts.last()
    }
}

/// Joins `parts` with `sep` between each two (`[String]::join`).
pub fn join(parts: &Vec<String>, sep: &str) -> (s: String)
    ensures
        s@ == join_spec(parts@.map_values(|p: String| p@), sep@),
{
    let ghost v = parts@.map_values(|p: String| p@);
    let mut s = String::new();
    let mut i: usize = 0;
    while i < parts.len()
        invariant
            i <= parts@.len(),
            v == parts@.map_values(|p: String| p@),
            s@ == join_spec(v.take(i as int), sep@),
        decreases parts@.len() - i,
    {
        assert(v.take(i + 1).drop_last() =~= v.take(i as int));
        if i > 0 {
            push_str(&mut s, sep);
        }
        push_str(&mut s, parts[i].as_str());
        i = i + 1;
    }
    assert(v.take(parts@.len() as int) =~= v);
    s
}

/// Header names with their values, by views.
pub type HeadersView = Seq<(Seq<char>, Seq<Seq<char>>)>;

/// The view of headers.
pub open spec fn headers_view(h: Seq<(String, Vec<String>)>) -> HeadersView {
    h.map_values(|e: (String, Vec<String>)| (e.0@, e.1@.map_values(|p: String| p@)))
}

/// Metadata by views.
pub open spec fn metadata_view(m: Seq<(String, String)>) -> Seq<(Seq<char>, Seq<char>)> {
    m.map_values(|e: (String, String)| (e.0@, e.1@))
}

/// The metadata of headers: each name with its values joined by `sep`.
pub open spec fn joined_spec(h: HeadersView, sep: Seq<char>) -> Seq<(Seq<char>, Seq<char>)> {
    h.map_values(|e: (Seq<char>, Seq<Seq<char>>)| (e.0, join_spec(e.1, sep)))
}

/// The metadata of `headers`: each header's values joined by `sep`, in the
/// headers' order.
pub fn header_metadata(headers: &Vec<(String, Vec<String>)>, sep: &str) -> (m: Vec<(String, String)>)
    ensures
        metadata_view(m@) == joined_spec(headers_view(headers@), sep@),
{
    let mut m: Vec<(String, String)> = Vec::new();
    let mut i: usize = 0;
    while i < headers.len()
        invariant
            i <= headers@.len(),
            metadata_view(m@) == joined_spec(headers_view(headers@), sep@).take(i as int),
        decreases headers@.len() - i,
    {
        let value = join(&headers[i].1, sep);
        let name = headers[i].0.clone();
        let ghost before = m@;
        m.push((name, value));
        assert(metadata_view(m@) =~= metadata_view(before).push((headers@[i as int].0@, value@)));
        assert(joined_spec(headers_view(headers@), sep@).take(i + 1) =~= joined_spec(headers_view(headers@), sep@).take(i as int).push(
            (headers@[i as int].0@, value@),
        ));
        i = i + 1;
    }
    assert(joined_spec(headers_view(headers@), sep@).take(headers@.len() as int) =~= joined_spec(headers_view(headers@), sep@));
    m
}

/// The message a broker delivered: its subject, payload, headers (their
/// values joined by `sep`) and reply subject, delivered by the client
/// `client_name`.
pub fn delivered_message(
    subject: String,
    payload: Vec<u8>,
    headers: Option<Vec<(String, Vec<String>)>>,
    reply: Option<String>,
    client_name: &str,
    sep: &str,
) -> (m: Message)
    ensures
        m.topic@ == subject@,
        m.payload@ == payload@,
        m.length == payload@.len(),
        m.description is None,
        match headers {
            Some(h) => m.metadata matches Some(md) && metadata_view(md@) == joined_spec(headers_view(h@), sep@),
            None => m.metadata is None,
        },
        match reply {
            Some(r) => m.reply matches Some(rp) && rp.topic@ == r@ && rp.client_name@ == client_name@,
            None => m.reply is None,
        },
{
    let metadata = match headers {
        Some(h) => Some(header_metadata(&h, sep)),
        None => None,
    };
    let reply = match reply {
        Some(r) => Some(Reply { client_name: client_name.to_string(), topic: r }),
        None => None,
    };
    let length = payload.len();
    Message { topic: subject, payload, metadata, description: None, length, reply }
}

/// The value metadata gives `key`, as a map built from it in order gives it:
/// the value of its last entry named `key`.
pub open spec fn metadata_get(md: Seq<(Seq<char>, Seq<char>)>, key: Seq<char>) -> Option<Seq<char>>
    decreases md.len(),
{
    if md.len() == 0 {
        None
    } else if md.last().0 == key {
        Some(md.last().1)
    } else {
        metadata_get(md.drop_last(), key)
    }
}

/// The value metadata gives `key`.
pub fn metadata_value(md: &Vec<(String, String)>, key: &str) -> (r: Option<String>)
    ensures
        match r {
            Some(v) => metadata_get(metadata_view(md@), key@) == Some(v@),
            None => metadata_get(metadata_view(md@), key@) is None,
        },
{
    let ghost m = metadata_view(md@);
    let mut i: usize = md.len();
    assert(m.take(i as int) =~= m);
    while i > 0
        invariant
            i <= md@.len(),
            m == metadata_view(md@),
            metadata_get(m.take(i as int), key@) == metadata_get(m, key@),
        decreases i,
    {
        let ghost prefix = m.take(i as int);
        assert(prefix.drop_last() =~= m.take(i - 1));
        if str_eq(md[i - 1].0.as_str(), key) {
            return Some(md[i - 1].1.clone());
        }
        i = i - 1;
    }
    None
}

/// The key a record is sent with: the metadata's `key`, or empty.
pub fn record_key(md: &Vec<(String, String)>) -> (k: String)
    ensures
        k@ == match metadata_get(metadata_view(md@), "key"@) {
            Some(v) => v,
            None => Seq::empty(),
        },
{
    match metadata_value(md, "key") {
        Some(v) => v,
        None => String::new(),
    }
}

/// The headers a message's metadata is published with: each name with its
/// value as the single value, in order (a later entry replaces an earlier
/// one, as metadata does).
pub fn headers_of_metadata(md: &Vec<(String, String)>) -> (h: Vec<(String, Vec<String>)>)
    ensures
        headers_view(h@) == metadata_view(md@).map_values(|e: (Seq<char>, Seq<char>)| (e.0, seq![e.1])),
{
    let ghost target = metadata_view(md@).map_values(|e: (Seq<char>, Seq<char>)| (e.0, seq![e.1]));
    let mut h: Vec<(String, Vec<String>)> = Vec::new();
    let mut i: usize = 0;
    while i < md.len()
        invariant
            i <= md@.len(),
            target == metadata_view(md@).map_values(|e: (Seq<char>, Seq<char>)| (e.0, seq![e.1])),
            headers_view(h@) == target.take(i as int),
        decreases md@.len() - i,
    {
        let mut values: Vec<String> = Vec::new();
        values.push(md[i].1.clone());
        assert(values@.map_values(|p: String| p@) =~= seq![md@[i as int].1@]);
        let ghost before = h@;
        h.push((md[i].0.clone(), values));
        assert(headers_view(h@) =~= headers_view(before).push(target[i as int]));
        assert(target.take(i + 1) =~= target.take(i as int).push(target[i as int]));
        i = i + 1;
    }
    assert(target.take(md@.len() as int) =~= target);
    h
}

} // verus!
