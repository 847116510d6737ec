//! NATS messages as the backend's guests build and read them. Headers map
//! each name to its values; setting a header replaces its values, and
//! removing one rebuilds the headers from the others, keeping the last value
//! of each.

use vstd::prelude::*;
use crate::messaging::{join, join_spec, metadata_view, Reply};
use crate::text::str_eq;

verus! {

/// Headers by views, in the order they were set.
pub type HeaderEntries = Seq<(Seq<char>, Seq<Seq<char>>)>;

/// The position of the last entry named `k`, or -1.
pub open spec fn last_index_of(s: HeaderEntries, k: Seq<char>) -> int
    decreases s.len(),
{
    if s.len() == 0 {
        -1
    } else if s.last().0 == k {
        s.len() - 1
    } else {
        last_index_of(s.drop_last(), k)
    }
}

/// What headers hold: each name with the values its last entry gives.
pub open spec fn headers_map(s: HeaderEntries) -> Map<Seq<char>, Seq<Seq<char>>> {
    Map::new(|k: Seq<char>| last_index_of(s, k) >= 0, |k: Seq<char>| s[last_index_of(s, k)].1)
}

/// Headers without `key`, each other name keeping only its last value; a
/// name without values is dropped.
pub open spec fn removed_map(m: Map<Seq<char>, Seq<Seq<char>>>, key: Seq<char>) -> Map<Seq<char>, Seq<Seq<char>>> {
    Map::new(
        |k: Seq<char>| m.contains_key(k) && k != key && m[k].len() > 0,
        |k: Seq<char>| seq![m[k].last()],
    )
}

/// The view of headers.
pub open spec fn entries_view(v: Seq<(String, Vec<String>)>) -> HeaderEntries {
    v.map_values(|e: (String, Vec<String>)| (e.0@, e.1@.map_values(|x: String| x@)))
}

/// The last entry named `k` in `s.push(e)`.
proof fn lemma_last_index_push(s: HeaderEntries, e: (Seq<char>, Seq<Seq<char>>), k: Seq<char>)
    ensures
        last_index_of(s.push(e), k) == if e.0 == k { s.len() as int } else { last_index_of(s, k) },
{
    assert(s.push(e).drop_last() =~= s);
}

/// The last index is an entry named `k`, and no later entry is.
proof fn lemma_last_index_bounds(s: HeaderEntries, k: Seq<char>)
    ensures
        -1 <= last_index_of(s, k) < s.len(),
        last_index_of(s, k) >= 0 ==> s[last_index_of(s, k)].0 == k,
        forall|i: int| last_index_of(s, k) < i < s.len() ==> s[i].0 != k,
    decreases s.len(),
{
    if s.len() > 0 && s.last().0 != k {
        lemma_last_index_bounds(s.drop_last(), k);
        assert forall|i: int| last_index_of(s, k) < i < s.len() implies s[i].0 != k by {
            if i < s.len() - 1 {
                assert(s.drop_last()[i] == s[i]);
            }
        }
    }
}

/// Pushing an entry sets its name to its values.
proof fn lemma_map_push(s: HeaderEntries, e: (Seq<char>, Seq<Seq<char>>))
    ensures
        headers_map(s.push(e)) == headers_map(s).insert(e.0, e.1),
{
    assert forall|k: Seq<char>| #[trigger] last_index_of(s.push(e), k) == if e.0 == k { s.len() as int } else { last_index_of(s, k) } by {
        lemma_last_index_push(s, e, k);
    }
    assert forall|k: Seq<char>| #[trigger] headers_map(s.push(e)).contains_key(k) implies headers_map(s.push(e))[k] == headers_map(s).insert(e.0, e.1)[k] by {
        lemma_last_index_push(s, e, k);
        lemma_last_index_bounds(s, k);
    }
    assert(headers_map(s.push(e)) =~= headers_map(s).insert(e.0, e.1));
}

/// A message built or received by the NATS backend.
#[derive(Clone, Debug)]
pub struct NatsMessage {
    pub subject: String,
    pub reply: Option<String>,
    pub payload: Vec<u8>,
    /// Header entries in the order they were set; a later entry of a name
    /// replaces an earlier one.
    pub headers: Option<Vec<(String, Vec<String>)>>,
    pub description: Option<String>,
    pub length: usize,
}

/// The header entries of a message, none when it has no headers.
pub open spec fn entries_or_empty(h: Option<Vec<(String, Vec<String>)>>) -> HeaderEntries {
    match h {
        Some(v) => entries_view(v@),
        None => Seq::empty(),
    }
}

/// The entries a removal keeps from the first `n` entries of `s`: each
/// name's last entry, when it is not `key` and has values, as its last value.
pub open spec fn removed_entries(s: HeaderEntries, key: Seq<char>, n: int) -> HeaderEntries
    decreases n,
{
    if n <= 0 {
        Seq::empty()
    } else {
        let rest = removed_entries(s, key, n - 1);
        let e = s[n - 1];
        if last_index_of(s, e.0) == n - 1 && e.0 != key && e.1.len() > 0 {
            rest.push((e.0, seq![e.1.last()]))
        } else {
            rest
        }
    }
}

/// What the kept entries of the first `n` entries hold.
proof fn lemma_removed_prefix(s: HeaderEntries, key: Seq<char>, n: int)
    requires
        0 <= n <= s.len(),
    ensures
        headers_map(removed_entries(s, key, n)) == Map::new(
            |k: Seq<char>| 0 <= last_index_of(s, k) < n && k != key && s[last_index_of(s, k)].1.len() > 0,
            |k: Seq<char>| seq![s[last_index_of(s, k)].1.last()],
        ),
    decreases n,
{
    let target = Map::new(
        |k: Seq<char>| 0 <= last_index_of(s, k) < n && k != key && s[last_index_of(s, k)].1.len() > 0,
        |k: Seq<char>| seq![s[last_index_of(s, k)].1.last()],
    );
    if n == 0 {
        assert(headers_map(removed_entries(s, key, 0)) =~= target);
    } else {
        lemma_removed_prefix(s, key, n - 1);
        let rest = removed_entries(s, key, n - 1);
        let e = s[n - 1];
        lemma_last_index_bounds(s, e.0);
        assert forall|k: Seq<char>| #![auto] 0 <= last_index_of(s, k) ==> s[last_index_of(s, k)].0 == k by {
            lemma_last_index_bounds(s, k);
        }
        if last_index_of(s, e.0) == n - 1 && e.0 != key && e.1.len() > 0 {
            lemma_map_push(rest, (e.0, seq![e.1.last()]));
        }
        assert(headers_map(removed_entries(s, key, n)) =~= target);
    }
}

impl NatsMessage {
    /// What the message's headers hold.
    pub open spec fn spec_headers(&self) -> Map<Seq<char>, Seq<Seq<char>>> {
        headers_map(entries_or_empty(self.headers))
    }

    /// A new message with payload `data`: no subject, reply or headers.
    pub fn new_message(data: Vec<u8>) -> (m: NatsMessage)
        ensures
            m.subject@ == Seq::<char>::empty(),
            m.reply is None,
            m.payload@ == data@,
            m.headers is None,
            m.description is None,
            m.length == data@.len(),
    {
        let length = data.len();
        NatsMessage { subject: String::new(), reply: None, payload: data, headers: None, description: None, length }
    }

    /// Sets header `name` to the single value `value`, replacing its values.
    fn insert_header(&mut self, name: String, value: String)
        ensures
            final(self).subject == old(self).subject,
            final(self).payload == old(self).payload,
            final(self).length == old(self).length,
            final(self).headers is Some,
            final(self).spec_headers() == old(self).spec_headers().insert(name@, seq![value@]),
    {
        let mut entries = match self.headers.take() {
            Some(h) => h,
            None => Vec::new(),
        };
        let ghost before = entries_view(entries@);
        let mut values: Vec<String> = Vec::new();
        let ghost vv = value@;
        values.push(value);
        assert(values@.map_values(|x: String| x@) =~= seq![vv]);
        let ghost nv = name@;
        entries.push((name, values));
        assert(entries_view(entries@) =~= before.push((nv, seq![vv])));
        proof {
            lemma_map_push(before, (nv, seq![vv]));
        }
        self.headers = Some(entries);
    }

    /// Sets the `content-type` header.
    pub fn set_content_type(&mut self, content_type: String)
        ensures
            final(self).payload == old(self).payload,
            final(self).headers is Some,
            final(self).spec_headers() == old(self).spec_headers().insert("content-type"@, seq![content_type@]),
    {
        self.insert_header("content-type".to_string(), content_type);
    }

    /// Sets header `key` to `value`.
    pub fn add_metadata(&mut self, key: String, value: String)
        ensures
            final(self).payload == old(self).payload,
            final(self).headers is Some,
            final(self).spec_headers() == old(self).spec_headers().insert(key@, seq![value@]),
    {
        self.insert_header(key, value);
    }

    /// Replaces the payload, and its length.
    pub fn set_payload(&mut self, data: Vec<u8>)
        ensures
            final(self).headers == old(self).headers,
            final(self).payload@ == data@,
            final(self).length == data@.len(),
    {
        self.length = data.len();
        self.payload = data;
    }

    /// Replaces the headers by `metadata`, setting each name in its order.
    pub fn set_metadata(&mut self, metadata: &Vec<(String, String)>)
        ensures
            final(self).payload == old(self).payload,
            final(self).headers matches Some(h) && entries_view(h@) == metadata_view(metadata@).map_values(
                |e: (Seq<char>, Seq<char>)| (e.0, seq![e.1]),
            ),
    {
        let ghost target = metadata_view(metadata@).map_values(|e: (Seq<char>, Seq<char>)| (e.0, seq![e.1]));
        let mut entries: Vec<(String, Vec<String>)> = Vec::new();
        let mut i: usize = 0;
        while i < metadata.len()
            invariant
                i <= metadata@.len(),
                target == metadata_view(metadata@).map_values(|e: (Seq<char>, Seq<char>)| (e.0, seq![e.1])),
                entries_view(entries@) == target.take(i as int),
            decreases metadata@.len() - i,
        {
            let mut values: Vec<String> = Vec::new();
            values.push(metadata[i].1.clone());
            assert(values@.map_values(|x: String| x@) =~= seq![metadata@[i as int].1@]);
            let ghost before = entries@;
            entries.push((metadata[i].0.clone(), values));
            assert(entries_view(entries@) =~= entries_view(before).push(target[i as int]));
            assert(target.take(i + 1) =~= target.take(i as int).push(target[i as int]));
            i = i + 1;
        }
        assert(target.take(metadata@.len() as int) =~= target);
        self.headers = Some(entries);
    }

    /// Removes header `key`: when the message has headers, they are rebuilt
    /// from the others, each keeping its last value.
    pub fn remove_metadata(&mut self, key: &str)
        ensures
            final(self).payload == old(self).payload,
            old(self).headers is None ==> final(self).headers is None,
            old(self).headers is Some ==> final(self).headers is Some
                && final(self).spec_headers() == removed_map(old(self).spec_headers(), key@),
    {
        let entries = match self.headers.take() {
            Some(h) => h,
            None => return,
        };
        let ghost s = entries_view(entries@);
        let mut kept: Vec<(String, Vec<String>)> = Vec::new();
        let mut j: usize = 0;
        assert(entries_view(kept@) =~= removed_entries(s, key@, 0));
        while j < entries.len()
            invariant
                j <= entries@.len(),
                s == entries_view(entries@),
                entries_view(kept@) == removed_entries(s, key@, j as int),
            decreases entries@.len() - j,
        {
            let ghost e = s[j as int];
            let mut shadowed = false;
            let mut l: usize = j + 1;
            while l < entries.len()
                invariant
                    j < l <= entries@.len(),
                    s == entries_view(entries@),
                    e == s[j as int],
                    shadowed <==> exists|m: int| j < m < l && s[m].0 == e.0,
                decreases entries@.len() - l,
            {
                assert(s[l as int].0 == entries@[l as int].0@);
                assert(s[j as int].0 == entries@[j as int].0@);
                if str_eq(entries[l].0.as_str(), entries[j].0.as_str()) {
                    shadowed = true;
                    assert(s[l as int].0 == e.0);
                }
                l = l + 1;
            }
            proof {
                lemma_last_index_bounds(s, e.0);
                if !shadowed {
                    assert(last_index_of(s, e.0) == j as int);
                } else {
                    let m = choose|m: int| j < m < entries@.len() && s[m].0 == e.0;
                    assert(last_index_of(s, e.0) != j as int);
                }
            }
            let vs = &entries[j].1;
            if !shadowed && !str_eq(entries[j].0.as_str(), key) && vs.len() > 0 {
                let mut values: Vec<String> = Vec::new();
                values.push(vs[vs.len() - 1].clone());
                assert(values@.map_values(|x: String| x@) =~= seq![e.1.last()]);
                let ghost before = kept@;
                kept.push((entries[j].0.clone(), values));
                assert(entries_view(kept@) =~= entries_view(before).push((e.0, seq![e.1.last()])));
            }
            j = j + 1;
        }
        proof {
            lemma_removed_prefix(s, key@, s.len() as int);
            assert(headers_map(entries_view(kept@)) =~= removed_map(headers_map(s), key@)) by {
                assert forall|k: Seq<char>| #![auto] 0 <= last_index_of(s, k) ==> last_index_of(s, k) < s.len() by {
                    lemma_last_index_bounds(s, k);
                }
            }
        }
        self.headers = Some(kept);
    }

    /// The message's metadata: each header entry with its values joined by
    /// `, `, in entry order (collected into a map, a later entry replaces an
    /// earlier one).
    pub fn metadata(&self) -> (m: Option<Vec<(String, String)>>)
        ensures
            match self.headers {
                Some(h) => m matches Some(md) && metadata_view(md@) == entries_view(h@).map_values(
                    |e: (Seq<char>, Seq<Seq<char>>)| (e.0, join_spec(e.1, ", "@)),
                ),
                None => m is None,
            },
    {
        let entries = match &self.headers {
            Some(h) => h,
            None => return None,
        };
        let ghost target = entries_view(entries@).map_values(|e: (Seq<char>, Seq<Seq<char>>)| (e.0, join_spec(e.1, ", "@)));
        let mut md: Vec<(String, String)> = Vec::new();
        let mut i: usize = 0;
        while i < entries.len()
            invariant
                i <= entries@.len(),
                target == entries_view(entries@).map_values(|e: (Seq<char>, Seq<Seq<char>>)| (e.0, join_spec(e.1, ", "@))),
                metadata_view(md@) == target.take(i as int),
            decreases entries@.len() - i,
        {
            let joined = join(&entries[i].1, ", ");
            let ghost before = md@;
            md.push((entries[i].0.clone(), joined));
            assert(metadata_view(md@) =~= metadata_view(before).push(target[i as int]));
            assert(target.take(i + 1) =~= target.take(i as int).push(target[i as int]));
            i = i + 1;
        }
        assert(target.take(entries@.len() as int) =~= target);
        Some(md)
    }

    /// Where a reply to the message goes, addressed to no client in particular.
    pub fn reply(&self) -> (r: Option<Reply>)
        ensures
            match self.reply {
                Some(t) => r matches Some(rp) && rp.topic@ == t@ && rp.client_name@ == Seq::<char>::empty(),
                None => r is None,
            },
    {
        match &self.reply {
            Some(t) => Some(Reply { client_name: String::new(), topic: t.clone() }),
            None => None,
        }
    }
}

/// After a header is set, it reads back as its single value; the other
/// headers are unchanged.
pub proof fn lemma_set_header_reads_back(m: Map<Seq<char>, Seq<Seq<char>>>, key: Seq<char>, value: Seq<char>, other: Seq<char>)
    requires
        other != key,
    ensures
        m.insert(key, seq![value])[key] == seq![value],
        m.insert(key, seq![value]).contains_key(other) == m.contains_key(other),
        m.contains_key(other) ==> m.insert(key, seq![value])[other] == m[other],
{
}

/// A removed header is gone, and every other header with values keeps its
/// last value.
pub proof fn lemma_removed_header_gone(m: Map<Seq<char>, Seq<Seq<char>>>, key: Seq<char>, other: Seq<char>)
    requires
        other != key,
    ensures
        !removed_map(m, key).contains_key(key),
        m.contains_key(other) && m[other].len() > 0 ==> removed_map(m, key)[other] == seq![m[other].last()],
{
}

} // verus!
