//! Redis key-value buckets: the keys a bucket reads and writes under, and
//! the command a write becomes.

use vstd::prelude::*;
use crate::text::push_str;

pub mod backend;
pub mod resource;

verus! {

/// How long a value written by the backend bucket lives: one day, in seconds.
pub const TTL_DAY: u64 = 86400;

/// A bucket of keys that share the bucket's identifier as their prefix.
#[derive(Debug, Clone)]
pub struct RedisBucket {
    pub identifier: String,
}

/// The Redis key of `key` in the bucket `identifier`: `identifier:key`.
pub open spec fn bucket_key(identifier: Seq<char>, key: Seq<char>) -> Seq<char> {
    identifier + seq![':'] + key
}

/// The write that a `set` becomes.
#[derive(Debug, Clone, PartialEq, Eq)]
pub enum SetCommand {
    /// `SET key value EX seconds`.
    Expiring { key: String, seconds: u64 },
    /// `SET key value`.
    Persistent { key: String },
}

impl RedisBucket {
    /// The bucket named `identifier`.
    pub fn new(identifier: String) -> (b: RedisBucket)
        ensures
            b.identifier@ == identifier@,
    {
        RedisBucket { identifier }
    }

    /// The bucket's name.
    pub fn name(&self) -> (n: &str)
        ensures
            n@ == self.identifier@,
    {
        self.identifier.as_str()
    }

    /// The Redis key under which `key` is stored.
    pub fn key(&self, key: &str) -> (k: String)
        ensures
            k@ == bucket_key(self.identifier@, key@),
    {
        let mut k = self.identifier.clone();
        push_str(&mut k, ":");
        push_str(&mut k, key);
        proof {
            reveal_strlit(":");
        }
        k
    }

    /// The pattern that matches every key of the bucket: `identifier:*`.
    pub fn keys_pattern(&self) -> (p: String)
        ensures
            p@ == bucket_key(self.identifier@, seq!['*']),
    {
        proof {
            reveal_strlit("*");
        }
        self.key("*")
    }

    /// The backend's write of `key`: always with a one-day expiry.
    pub fn set_command(&self, key: &str) -> (c: SetCommand)
        ensures
            c matches SetCommand::Expiring { key: k, seconds } && k@ == bucket_key(
                self.identifier@,
                key@,
            ) && seconds == TTL_DAY,
    {
        SetCommand::Expiring { key: self.key(key), seconds: TTL_DAY }
    }

    /// The resource's write of `key`: with an expiry when the value carries a
    /// time to live, else without one.
    pub fn set_command_with_ttl(&self, key: &str, ttl: Option<u64>) -> (c: SetCommand)
        ensures
            match ttl {
                Some(t) => c matches SetCommand::Expiring { key: k, seconds } && k@
                    == bucket_key(self.identifier@, key@) && seconds == t,
                None => c matches SetCommand::Persistent { key: k } && k@ == bucket_key(
                    self.identifier@,
                    key@,
                ),
            },
    {
        match ttl {
            Some(t) => SetCommand::Expiring { key: self.key(key), seconds: t },
            None => SetCommand::Persistent { key: self.key(key) },
        }
    }
}

/// Two keys of one bucket never collide: the Redis key determines the key.
pub proof fn lemma_bucket_keys_distinct(identifier: Seq<char>, k1: Seq<char>, k2: Seq<char>)
    requires
        bucket_key(identifier, k1) == bucket_key(identifier, k2),
    ensures
        k1 == k2,
{
    let n = identifier.len() + 1;
    assert(bucket_key(identifier, k1).subrange(n as int, bucket_key(identifier, k1).len() as int) =~= k1);
    assert(bucket_key(identifier, k2).subrange(n as int, bucket_key(identifier, k2).len() as int) =~= k2);
}

/// Every key of a bucket matches the bucket's key pattern: it starts with
/// the pattern's text before `*`.
pub proof fn lemma_bucket_key_prefix(identifier: Seq<char>, key: Seq<char>)
    ensures
        bucket_key(identifier, key).subrange(0, identifier.len() + 1int) == identifier + seq![':'],
{
    assert(bucket_key(identifier, key).subrange(0, identifier.len() + 1int) =~= identifier + seq![':']);
}

} // verus!
