//! NATS: the connection options of the resource, how it authenticates, and
//! the messages it delivers.

use vstd::prelude::*;
use crate::env::{
    env_view, errors_view, errs, list_setting, list_spec, lookup, lookup_spec, text_or,
    text_setting, EnvError, EnvErrorView, EnvView,
};
use crate::messaging::{
    delivered_message, headers_view, joined_spec, metadata_view, Message,
};
use crate::text::views;

verus! {

/// The NATS server used when none is given.
pub const DEFAULT_ADDRESS: &'static str = "demo.nats.io";

/// The name the NATS messaging client gives itself.
pub const CLIENT_NAME: &'static str = "nats";

/// Where and how the NATS resource connects, and the topics it serves.
#[derive(Debug, Clone)]
pub struct ConnectOptions {
    /// `NATS_ADDRESS`, by default `demo.nats.io`.
    pub address: String,
    /// `NATS_TOPICS`, which must be set: its comma-separated pieces.
    pub topics: Vec<String>,
    /// `NATS_JWT`, if set.
    pub jwt: Option<String>,
    /// `NATS_SEED`, if set.
    pub seed: Option<String>,
}

/// The view of an optional string.
pub open spec fn opt_view(o: Option<String>) -> Option<Seq<char>> {
    match o {
        Some(s) => Some(s@),
        None => None,
    }
}

impl ConnectOptions {
    /// Reads the options from an environment snapshot.
    pub fn from_vars(vars: &Vec<(String, String)>) -> (r: Result<ConnectOptions, Vec<EnvError>>)
        ensures
            ({
                let env = env_view(vars@);
                let topics = list_spec(env, "NATS_TOPICS"@);
                match r {
                    Ok(o) => topics == Ok::<Seq<Seq<char>>, EnvErrorView>(views(o.topics@))
                        && o.address@ == text_or(env, "NATS_ADDRESS"@, "demo.nats.io"@)
                        && opt_view(o.jwt) == lookup_spec(env, "NATS_JWT"@)
                        && opt_view(o.seed) == lookup_spec(env, "NATS_SEED"@),
                    Err(es) => errs(topics).len() > 0 && errors_view(es@) == errs(topics),
                }
            }),
    {
        let address = text_setting(vars, "NATS_ADDRESS", DEFAULT_ADDRESS);
        let topics = list_setting(vars, "NATS_TOPICS");
        let jwt = lookup(vars, "NATS_JWT");
        let seed = lookup(vars, "NATS_SEED");
        proof {
            reveal_strlit("demo.nats.io");
        }
        match topics {
            Ok(topics) => Ok(ConnectOptions { address, topics, jwt, seed }),
            Err(e) => {
                let mut errors: Vec<EnvError> = Vec::new();
                errors.push(e);
                Err(errors)
            },
        }
    }

    /// The credentials to authenticate with: the JWT and the seed to sign
    /// nonces with, when both are set.
    pub fn credentials(&self) -> (c: Option<(String, String)>)
        ensures
            match c {
                Some((jwt, seed)) => opt_view(self.jwt) == Some(jwt@) && opt_view(self.seed) == Some(seed@),
                None => self.jwt is None || self.seed is None,
            },
    {
        match (&self.jwt, &self.seed) {
            (Some(jwt), Some(seed)) => Some((jwt.clone(), seed.clone())),
            _ => None,
        }
    }
}

/// How a NATS client that reads its settings directly connects: the server
/// address and, with a JWT, the credentials.
#[derive(Debug, Clone)]
pub struct ConnectPlan {
    /// `NATS_ADDR`, by default `demo.nats.io`.
    pub address: String,
    /// `NATS_JWT` with `NATS_SEED` (empty when not set), when the JWT is set.
    pub credentials: Option<(String, String)>,
}

/// The credentials of a direct client, by views.
pub open spec fn plan_credentials(env: EnvView) -> Option<(Seq<char>, Seq<char>)> {
    match lookup_spec(env, "NATS_JWT"@) {
        Some(jwt) => Some((jwt, text_or(env, "NATS_SEED"@, Seq::empty()))),
        None => None,
    }
}

/// Reads how a direct client connects from an environment snapshot.
pub fn connect_plan(vars: &Vec<(String, String)>) -> (p: ConnectPlan)
    ensures
        p.address@ == text_or(env_view(vars@), "NATS_ADDR"@, "demo.nats.io"@),
        match p.credentials {
            Some((jwt, seed)) => plan_credentials(env_view(vars@)) == Some((jwt@, seed@)),
            None => plan_credentials(env_view(vars@)) is None,
        },
{
    let address = text_setting(vars, "NATS_ADDR", DEFAULT_ADDRESS);
    proof {
        reveal_strlit("demo.nats.io");
        reveal_strlit("");
    }
    let credentials = match lookup(vars, "NATS_JWT") {
        Some(jwt) => Some((jwt, text_setting(vars, "NATS_SEED", ""))),
        None => None,
    };
    ConnectPlan { address, credentials }
}

/// The message the NATS messaging client delivers for a broker message:
/// header values joined by `,`, and replies addressed to the client `nats`.
pub fn to_message(subject: String, payload: Vec<u8>, headers: Option<Vec<(String, Vec<String>)>>, reply: Option<String>) -> (m: Message)
    ensures
        m.topic@ == subject@,
        m.payload@ == payload@,
        m.length == payload@.len(),
        m.description is None,
        match headers {
            Some(h) => m.metadata matches Some(md) && metadata_view(md@) == joined_spec(headers_view(h@), seq![',']),
            None => m.metadata is None,
        },
        match reply {
            Some(r) => m.reply matches Some(rp) && rp.topic@ == r@ && rp.client_name@ == "nats"@,
            None => m.reply is None,
        },
{
    proof {
        reveal_strlit(",");
        assert(","@ =~= seq![',']);
    }
    delivered_message(subject, payload, headers, reply, CLIENT_NAME, ",")
}

/// The message the NATS resource delivers for a broker message: header
/// values joined by `,`, and replies addressed to no client in particular.
pub fn into_message(subject: String, payload: Vec<u8>, headers: Option<Vec<(String, Vec<String>)>>, reply: Option<String>) -> (m: Message)
    ensures
        m.topic@ == subject@,
        m.payload@ == payload@,
        m.length == payload@.len(),
        m.description is None,
        match headers {
            Some(h) => m.metadata matches Some(md) && metadata_view(md@) == joined_spec(headers_view(h@), seq![',']),
            None => m.metadata is None,
        },
        match reply {
            Some(r) => m.reply matches Some(rp) && rp.topic@ == r@ && rp.client_name@ == Seq::<char>::empty(),
            None => m.reply is None,
        },
{
    proof {
        reveal_strlit(",");
        reveal_strlit("");
        assert(","@ =~= seq![',']);
    }
    delivered_message(subject, payload, headers, reply, "", ",")
}

/// The key-value bucket a NATS client creates when it is missing.
#[derive(Debug, Clone, PartialEq, Eq)]
pub struct KvConfig {
    pub bucket: String,
    /// Values kept per key.
    pub history: i64,
    /// How long a value lives, in seconds.
    pub max_age_secs: u64,
    /// The bucket's size limit in bytes.
    pub max_bytes: i64,
}

/// The bucket `identifier` as it is created: one value per key, values
/// living ten minutes, and at most 100 MiB.
pub fn kv_bucket_config(identifier: String) -> (c: KvConfig)
    ensures
        c.bucket@ == identifier@,
        c.history == 1,
        c.max_age_secs == 600,
        c.max_bytes == 104857600,
{
    KvConfig { bucket: identifier, history: 1, max_age_secs: 600, max_bytes: 104857600 }
}

} // verus!
