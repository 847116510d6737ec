//! Kafka resource: connection options, client configuration, schema-registry
//! framing and caching.

pub mod framing;
pub mod message;
pub mod registry;
pub mod schema_registry;

use vstd::prelude::*;
use crate::env::{
    env_view, errors_view, errs, list_spec, lookup, lookup_spec, number_spec, only_missing,
    only_missing_errors, optional_i32_setting, optional_i32_spec, optional_list_setting,
    required_setting, required_spec, text_or, text_setting, u64_setting, EnvError, EnvErrorView,
    EnvView,
};
use crate::text::{decimal, push_decimal, push_str, split_on, split_spec, views};

verus! {

/// Connection options of the Kafka resource.
#[derive(Debug, Clone)]
pub struct ConnectOptions {
    pub brokers: String,
    pub username: Option<String>,
    pub password: Option<String>,
    pub topics: Option<Vec<String>>,
    pub group_id: Option<String>,
    pub partition_count: Option<i32>,
    pub component: Option<String>,
    pub env: String,
    pub registry: Option<RegistryOptions>,
}

/// Schema registry options.
#[derive(Debug, Clone)]
pub struct RegistryOptions {
    pub url: String,
    api_key: String,
    api_secret: String,
    cache_ttl_secs: u64,
}

/// The environment used when none is given.
pub const DEFAULT_ENV: &'static str = "dev";

/// The schema cache lifetime, in seconds, used when none is given.
pub const DEFAULT_CACHE_TTL_SECS: u64 = 3600;

impl RegistryOptions {
    /// Options for the registry at `url` with its credentials and cache lifetime.
    pub fn new(url: String, api_key: String, api_secret: String, cache_ttl_secs: u64) -> (o: Self)
        ensures
            o.spec_url() == url,
            o.spec_api_key() == api_key,
            o.spec_api_secret() == api_secret,
            o.spec_cache_ttl_secs() == cache_ttl_secs,
    {
        RegistryOptions { url, api_key, api_secret, cache_ttl_secs }
    }

    /// The registry URL.
    pub closed spec fn spec_url(&self) -> String {
        self.url
    }

    /// The API key.
    pub closed spec fn spec_api_key(&self) -> String {
        self.api_key
    }

    /// The API secret.
    pub closed spec fn spec_api_secret(&self) -> String {
        self.api_secret
    }

    /// The schema cache lifetime in seconds.
    pub closed spec fn spec_cache_ttl_secs(&self) -> u64 {
        self.cache_ttl_secs
    }

    /// The API key.
    pub fn api_key(&self) -> (k: &str)
        ensures
            k@ == self.spec_api_key()@,
    {
        self.api_key.as_str()
    }

    /// The API secret.
    pub fn api_secret(&self) -> (k: &str)
        ensures
            k@ == self.spec_api_secret()@,
    {
        self.api_secret.as_str()
    }

    /// The registry's basic authentication: the API key with the secret.
    pub fn basic_auth(&self) -> (a: (String, Option<String>))
        ensures
            a.0@ == self.spec_api_key()@,
            a.1 matches Some(sec) && sec@ == self.spec_api_secret()@,
    {
        (self.api_key.clone(), Some(self.api_secret.clone()))
    }

    /// The schema cache lifetime in seconds.
    pub fn cache_ttl_secs(&self) -> (t: u64)
        ensures
            t == self.spec_cache_ttl_secs(),
    {
        self.cache_ttl_secs
    }
}

/// The topics of a comma-separated list, as given (pieces are not trimmed).
pub fn split(s: &str) -> (topics: Vec<String>)
    ensures
        views(topics@) == split_spec(s@, ','),
{
    split_on(s, ',')
}

/// A configuration entry: a key and its value, by views.
pub type EntryView = (Seq<char>, Seq<char>);

/// The view of configuration entries.
pub open spec fn entries_view(v: Seq<(String, String)>) -> Seq<EntryView> {
    v.map_values(|e: (String, String)| (e.0@, e.1@))
}

/// The SASL entries for a user and password.
pub open spec fn sasl_entries(user: Seq<char>, pass: Seq<char>) -> Seq<EntryView> {
    seq![
        ("security.protocol"@, "SASL_SSL"@),
        ("sasl.mechanisms"@, "PLAIN"@),
        ("sasl.username"@, user),
        ("sasl.password"@, pass),
    ]
}

/// The optional SASL entries: present only when both user and password are.
pub open spec fn opt_sasl_entries(user: Option<String>, pass: Option<String>) -> Seq<EntryView> {
    match (user, pass) {
        (Some(u), Some(p)) => sasl_entries(u@, p@),
        _ => Seq::empty(),
    }
}

/// Appends the SASL entries when both user and password are present.
pub fn push_sasl_entries(entries: &mut Vec<(String, String)>, user: &Option<String>, pass: &Option<String>)
    ensures
        entries_view(final(entries)@) == entries_view(old(entries)@) + opt_sasl_entries(*user, *pass),
{
    let ghost start = old(entries)@;
    if let (Some(u), Some(p)) = (user, pass) {
        entries.push(("security.protocol".to_owned(), "SASL_SSL".to_owned()));
        entries.push(("sasl.mechanisms".to_owned(), "PLAIN".to_owned()));
        entries.push(("sasl.username".to_owned(), u.clone()));
        entries.push(("sasl.password".to_owned(), p.clone()));
        assert(entries_view(entries@) =~= entries_view(start) + opt_sasl_entries(*user, *pass));
    } else {
        assert(entries_view(entries@) =~= entries_view(start) + opt_sasl_entries(*user, *pass));
    }
}

/// The random suffix of client ids: a number from 1000 to 9998.
#[verifier::external_body]
pub(crate) fn random_suffix() -> (r: u32)
    ensures
        1000 <= r < 9999,
{
    rand::random_range(1000u32..9999u32)
}

/// The client id `<env>-<component>-<suffix>`.
pub open spec fn component_client_id(env: Seq<char>, component: Seq<char>, suffix: u32) -> Seq<char> {
    env + "-"@ + component + "-"@ + decimal(suffix as nat)
}

/// The client configuration of the options, with `suffix` as the random part
/// of the client id: the brokers, the SASL entries when both user and password
/// are given, the consumer group when given, and the client id when a
/// component is given.
pub open spec fn config_entries_spec(o: ConnectOptions, suffix: u32) -> Seq<EntryView> {
    seq![("bootstrap.servers"@, o.brokers@)] + opt_sasl_entries(o.username, o.password)
        + group_entries(o.group_id) + client_id_entries(o.env@, o.component, suffix)
}

/// The consumer group entry, when a group is given.
pub open spec fn group_entries(group_id: Option<String>) -> Seq<EntryView> {
    match group_id {
        Some(g) => seq![("group.id"@, g@)],
        None => Seq::empty(),
    }
}

/// The client id entry, when a component is given.
pub open spec fn client_id_entries(env: Seq<char>, component: Option<String>, suffix: u32) -> Seq<EntryView> {
    match component {
        Some(c) => seq![("client.id"@, component_client_id(env, c@, suffix))],
        None => Seq::empty(),
    }
}

impl ConnectOptions {
    /// The client configuration entries of these options, with `suffix` as the
    /// random part of the client id.
    pub fn config_entries_with(&self, suffix: u32) -> (entries: Vec<(String, String)>)
        ensures
            entries_view(entries@) == config_entries_spec(*self, suffix),
    {
        let mut entries: Vec<(String, String)> = Vec::new();
        entries.push(("bootstrap.servers".to_owned(), self.brokers.clone()));
        assert(entries_view(entries@) =~= seq![("bootstrap.servers"@, self.brokers@)]);
        push_sasl_entries(&mut entries, &self.username, &self.password);
        let ghost after_sasl = entries_view(entries@);
        assert(after_sasl == seq![("bootstrap.servers"@, self.brokers@)] + opt_sasl_entries(
            self.username,
            self.password,
        ));
        let ghost group_part = group_entries(self.group_id);
        if let Some(g) = &self.group_id {
            entries.push(("group.id".to_owned(), g.clone()));
        }
        assert(entries_view(entries@) =~= after_sasl + group_part);
        let ghost after_group = entries_view(entries@);
        let ghost client_part = client_id_entries(self.env@, self.component, suffix);
        if let Some(c) = &self.component {
            let mut id = String::new();
            push_str(&mut id, self.env.as_str());
            push_str(&mut id, "-");
            push_str(&mut id, c.as_str());
            push_str(&mut id, "-");
            push_decimal(&mut id, suffix as u64);
            assert(id@ == component_client_id(self.env@, c@, suffix));
            entries.push(("client.id".to_owned(), id));
        }
        assert(entries_view(entries@) =~= after_group + client_part);
        assert(entries_view(entries@) =~= config_entries_spec(*self, suffix));
        entries
    }

    /// The client configuration entries of these options, with a random
    /// client id suffix from 1000 to 9998.
    pub fn config_entries(&self) -> (entries: Vec<(String, String)>)
        ensures
            exists|suffix: u32|
                1000 <= suffix < 9999 && entries_view(entries@) == config_entries_spec(*self, suffix),
    {
        let suffix = random_suffix();
        self.config_entries_with(suffix)
    }
}

/// The tracer of delivery reports.
pub struct Tracer;

/// The errors of the registry settings, in field order.
pub open spec fn registry_errors(env: EnvView) -> Seq<EnvErrorView> {
    errs(required_spec(env, "KAFKA_REGISTRY_URL"@)) + errs(required_spec(env, "KAFKA_REGISTRY_API_KEY"@))
        + errs(required_spec(env, "KAFKA_REGISTRY_API_SECRET"@)) + errs(
        number_spec(env, "KAFKA_REGISTRY_CACHE_TTL"@, 3600, u64::MAX as int),
    )
}

/// The registry settings of an environment: `Ok(None)` when the only
/// problems are missing settings (no registry), the errors when one is
/// invalid.
pub open spec fn registry_spec(env: EnvView) -> Result<Option<()>, Seq<EnvErrorView>> {
    let es = registry_errors(env);
    if es.len() == 0 {
        Ok(Some(()))
    } else if only_missing(es) {
        Ok(None)
    } else {
        Err(es)
    }
}

/// The errors a nested registry group adds to its parent's.
pub open spec fn registry_error_part(env: EnvView) -> Seq<EnvErrorView> {
    match registry_spec(env) {
        Err(es) => es,
        Ok(_) => Seq::empty(),
    }
}

/// Takes the value of a text setting, or records its error.
fn take_text(r: Result<String, EnvError>, errors: &mut Vec<EnvError>) -> (v: String)
    ensures
        match r {
            Ok(s) => v@ == s@ && final(errors)@ == old(errors)@,
            Err(e) => final(errors)@ == old(errors)@.push(e),
        },
{
    match r {
        Ok(s) => s,
        Err(e) => {
            errors.push(e);
            String::new()
        },
    }
}

impl RegistryOptions {
    /// Reads the registry options from an environment snapshot: `None` when
    /// settings are only missing, the errors when one is invalid.
    pub fn from_vars(vars: &Vec<(String, String)>) -> (r: Result<Option<RegistryOptions>, Vec<EnvError>>)
        ensures
            ({
                let env = env_view(vars@);
                match r {
                    Ok(Some(o)) => registry_spec(env) == Ok::<Option<()>, Seq<EnvErrorView>>(Some(()))
                        && required_spec(env, "KAFKA_REGISTRY_URL"@) == Ok::<Seq<char>, EnvErrorView>(o.spec_url()@)
                        && required_spec(env, "KAFKA_REGISTRY_API_KEY"@) == Ok::<Seq<char>, EnvErrorView>(o.spec_api_key()@)
                        && required_spec(env, "KAFKA_REGISTRY_API_SECRET"@) == Ok::<Seq<char>, EnvErrorView>(o.spec_api_secret()@)
                        && number_spec(env, "KAFKA_REGISTRY_CACHE_TTL"@, 3600, u64::MAX as int) == Ok::<int, EnvErrorView>(
                            o.spec_cache_ttl_secs() as int,
                        ),
                    Ok(None) => registry_spec(env) == Ok::<Option<()>, Seq<EnvErrorView>>(None),
                    Err(es) => registry_spec(env) == Err::<Option<()>, Seq<EnvErrorView>>(errors_view(es@)),
                }
            }),
    {
        let mut errors: Vec<EnvError> = Vec::new();
        let url = take_text(required_setting(vars, "KAFKA_REGISTRY_URL"), &mut errors);
        let api_key = take_text(required_setting(vars, "KAFKA_REGISTRY_API_KEY"), &mut errors);
        let api_secret = take_text(required_setting(vars, "KAFKA_REGISTRY_API_SECRET"), &mut errors);
        let cache_ttl_secs = match u64_setting(vars, "KAFKA_REGISTRY_CACHE_TTL", DEFAULT_CACHE_TTL_SECS) {
            Ok(n) => n,
            Err(e) => {
                errors.push(e);
                0
            },
        };
        let ghost env = env_view(vars@);
        assert(errors_view(errors@) =~= registry_errors(env));
        if errors.len() == 0 {
            return Ok(Some(RegistryOptions { url, api_key, api_secret, cache_ttl_secs }));
        }
        if only_missing_errors(&errors) {
            Ok(None)
        } else {
            Err(errors)
        }
    }
}

/// Takes a nested registry group into its parent: its options, or its
/// errors added to the parent's.
pub fn take_registry(r: Result<Option<RegistryOptions>, Vec<EnvError>>, errors: &mut Vec<EnvError>) -> (o: Option<RegistryOptions>)
    ensures
        match r {
            Ok(x) => o == x && final(errors)@ == old(errors)@,
            Err(es) => o is None && final(errors)@ == old(errors)@ + es@,
        },
{
    match r {
        Ok(x) => x,
        Err(mut es) => {
            errors.append(&mut es);
            None
        },
    }
}

impl ConnectOptions {
    /// Reads the options from an environment snapshot; every setting that is
    /// missing or invalid is reported, in field order, with the registry's
    /// when it is invalid.
    pub fn from_vars(vars: &Vec<(String, String)>) -> (r: Result<ConnectOptions, Vec<EnvError>>)
        ensures
            ({
                let env = env_view(vars@);
                let brokers = required_spec(env, "KAFKA_BROKERS"@);
                let partitions = optional_i32_spec(env, "KAFKA_PARTITION_COUNT"@);
                let all = errs(brokers) + errs(partitions) + registry_error_part(env);
                match r {
                    Ok(o) => all.len() == 0 && brokers == Ok::<Seq<char>, EnvErrorView>(o.brokers@)
                        && partitions == Ok::<Option<i32>, EnvErrorView>(o.partition_count)
                        && crate::nats::opt_view(o.username) == lookup_spec(env, "KAFKA_USERNAME"@)
                        && crate::nats::opt_view(o.password) == lookup_spec(env, "KAFKA_PASSWORD"@)
                        && crate::nats::opt_view(o.group_id) == lookup_spec(env, "KAFKA_CONSUMER_GROUP"@)
                        && crate::nats::opt_view(o.component) == lookup_spec(env, "COMPONENT"@)
                        && o.env@ == text_or(env, "ENVIRONMENT"@, "dev"@)
                        && match o.topics {
                            Some(t) => list_spec(env, "KAFKA_TOPICS"@) == Ok::<Seq<Seq<char>>, EnvErrorView>(views(t@)),
                            None => list_spec(env, "KAFKA_TOPICS"@) is Err,
                        }
                        && (o.registry is Some <==> registry_spec(env) == Ok::<Option<()>, Seq<EnvErrorView>>(Some(()))),
                    Err(es) => all.len() > 0 && errors_view(es@) == all,
                }
            }),
    {
        let mut errors: Vec<EnvError> = Vec::new();
        let brokers = take_text(required_setting(vars, "KAFKA_BROKERS"), &mut errors);
        let username = lookup(vars, "KAFKA_USERNAME");
        let password = lookup(vars, "KAFKA_PASSWORD");
        let topics = optional_list_setting(vars, "KAFKA_TOPICS");
        let group_id = lookup(vars, "KAFKA_CONSUMER_GROUP");
        let partition_count = match optional_i32_setting(vars, "KAFKA_PARTITION_COUNT") {
            Ok(n) => n,
            Err(e) => {
                errors.push(e);
                None
            },
        };
        let component = lookup(vars, "COMPONENT");
        let env = text_setting(vars, "ENVIRONMENT", DEFAULT_ENV);
        proof {
            reveal_strlit("dev");
        }
        let registry = take_registry(RegistryOptions::from_vars(vars), &mut errors);
        let ghost e = env_view(vars@);
        assert(errors_view(errors@) =~= errs(required_spec(e, "KAFKA_BROKERS"@)) + errs(
            optional_i32_spec(e, "KAFKA_PARTITION_COUNT"@),
        ) + registry_error_part(e));
        if errors.len() > 0 {
            return Err(errors);
        }
        Ok(ConnectOptions { brokers, username, password, topics, group_id, partition_count, component, env, registry })
    }
}

} // verus!
