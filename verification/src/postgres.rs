//! Postgres connection options: the default pool and the named extra pools,
//! read from a snapshot of the environment.

use vstd::prelude::*;
use tokio_postgres::config::{Host, SslMode};
use crate::env::{env_view, lookup, lookup_spec, EnvView};
use crate::text::{
    ascii_upper, lemma_parse_unsigned_in_range, parse_unsigned_spec, parse_usize, push_str, split_on,
    split_spec, str_eq, to_ascii_uppercase, trim, trimmed, views,
};

verus! {

/// One connection pool: its name (upper case), its URI and its size.
#[derive(Debug, Clone)]
pub struct PoolEntry {
    pub name: String,
    pub uri: String,
    pub pool_size: usize,
}

/// The pools of the Postgres backend.
#[derive(Debug, Clone)]
pub struct ConnectOptions {
    pub default_pool: PoolEntry,
    pub additional_pools: Vec<PoolEntry>,
}

/// A pool entry by views.
pub struct PoolEntryView {
    pub name: Seq<char>,
    pub uri: Seq<char>,
    pub pool_size: usize,
}

impl View for PoolEntry {
    type V = PoolEntryView;

    open spec fn view(&self) -> PoolEntryView {
        PoolEntryView { name: self.name@, uri: self.uri@, pool_size: self.pool_size }
    }
}

/// Why the connection options could not be read.
#[derive(Clone, Debug, PartialEq, Eq)]
pub enum ConfigError {
    /// `POSTGRES_URL` is not set.
    MissingDefaultUrl,
    /// `POSTGRES_URL__<NAME>` is not set for a pool named in `POSTGRES_POOLS`.
    MissingPoolUrl(String),
}

/// The pool size used when none is given.
pub const DEFAULT_POOL_SIZE: usize = 10;

/// A size setting: the number it reads as, or `fallback` when it is absent or
/// does not read as a number.
pub open spec fn size_or(setting: Option<Seq<char>>, fallback: usize) -> usize {
    match setting {
        Some(s) => match parse_unsigned_spec(s, usize::MAX as int) {
            Some(n) => n as usize,
            None => fallback,
        },
        None => fallback,
    }
}

/// Reads a size setting, falling back to `fallback`.
fn size_setting(setting: Option<String>, fallback: usize) -> (n: usize)
    ensures
        n == size_or(
            match setting {
                Some(s) => Some(s@),
                None => None,
            },
            fallback,
        ),
{
    match setting {
        Some(s) => match parse_usize(s.as_str()) {
            Some(n) => n,
            None => fallback,
        },
        None => fallback,
    }
}

/// The pool names of a `POSTGRES_POOLS` list: its comma-separated pieces,
/// trimmed, without the empty ones, in order.
pub open spec fn pool_names_spec(list: Seq<char>) -> Seq<Seq<char>> {
    split_spec(list, ',').map_values(|p: Seq<char>| trimmed(p)).filter(|p: Seq<char>| p.len() > 0)
}

/// The upper-case form of a pool name.
pub open spec fn upper(s: Seq<char>) -> Seq<char> {
    s.map_values(|c: char| ascii_upper(c))
}

/// The extra pools named by `names`, with `default_size` as their size when
/// they give none; the error names the first pool without a URI.
pub open spec fn extra_pools_spec(env: EnvView, names: Seq<Seq<char>>, default_size: usize) -> Result<Seq<PoolEntryView>, Seq<char>>
    decreases names.len(),
{
    if names.len() == 0 {
        Ok(Seq::empty())
    } else {
        let name = upper(names[0]);
        match lookup_spec(env, "POSTGRES_URL__"@ + name) {
            None => Err(name),
            Some(uri) => {
                let size = size_or(lookup_spec(env, "POSTGRES_POOL_SIZE__"@ + name), default_size);
                match extra_pools_spec(env, names.drop_first(), default_size) {
                    Ok(rest) => Ok(seq![PoolEntryView { name, uri, pool_size: size }] + rest),
                    Err(e) => Err(e),
                }
            },
        }
    }
}

/// The connection options an environment gives, by views: `Err(None)` when
/// `POSTGRES_URL` is missing, `Err(Some(name))` when the first extra pool
/// without a URI is `name`.
pub open spec fn options_spec(env: EnvView) -> Result<(PoolEntryView, Seq<PoolEntryView>), Option<Seq<char>>> {
    let default_size = size_or(lookup_spec(env, "POSTGRES_POOL_SIZE"@), DEFAULT_POOL_SIZE);
    match lookup_spec(env, "POSTGRES_URL"@) {
        None => Err(None),
        Some(uri) => {
            let names = pool_names_spec(
                match lookup_spec(env, "POSTGRES_POOLS"@) {
                    Some(l) => l,
                    None => Seq::empty(),
                },
            );
            match extra_pools_spec(env, names, default_size) {
                Ok(extras) => Ok((PoolEntryView { name: "DEFAULT"@, uri, pool_size: default_size }, extras)),
                Err(name) => Err(Some(name)),
            }
        },
    }
}

/// The size an extra pool's size setting gives: the number it reads as, or
/// the default pool's size when it is absent or does not read as a number.
proof fn lemma_extra_pools_from_settings(env: EnvView, names: Seq<Seq<char>>, default_size: usize)
    ensures
        extra_pools_spec(env, names, default_size) matches Ok(extras) ==> extras.len() == names.len()
            && forall|i: int| 0 <= i < extras.len() ==> {
                &&& (#[trigger] extras[i]).name == upper(names[i])
                &&& lookup_spec(env, "POSTGRES_URL__"@ + extras[i].name) == Some(extras[i].uri)
                &&& match lookup_spec(env, "POSTGRES_POOL_SIZE__"@ + extras[i].name) {
                    Some(text) => match parse_unsigned_spec(text, usize::MAX as int) {
                        Some(n) => extras[i].pool_size as int == n,
                        None => extras[i].pool_size == default_size,
                    },
                    None => extras[i].pool_size == default_size,
                }
            },
    decreases names.len(),
{
    if names.len() > 0 {
        lemma_extra_pools_from_settings(env, names.drop_first(), default_size);
        if let Ok(extras) = extra_pools_spec(env, names, default_size) {
            let rest = extras.drop_first();
            assert forall|i: int| 0 <= i < extras.len() implies {
                &&& (#[trigger] extras[i]).name == upper(names[i])
                &&& lookup_spec(env, "POSTGRES_URL__"@ + extras[i].name) == Some(extras[i].uri)
                &&& match lookup_spec(env, "POSTGRES_POOL_SIZE__"@ + extras[i].name) {
                    Some(text) => match parse_unsigned_spec(text, usize::MAX as int) {
                        Some(n) => extras[i].pool_size as int == n,
                        None => extras[i].pool_size == default_size,
                    },
                    None => extras[i].pool_size == default_size,
                }
            } by {
                let name = upper(names[0]);
                let uri = lookup_spec(env, "POSTGRES_URL__"@ + name)->0;
                let size = size_or(lookup_spec(env, "POSTGRES_POOL_SIZE__"@ + name), default_size);
                let tail = extra_pools_spec(env, names.drop_first(), default_size)->Ok_0;
                assert(extra_pools_spec(env, names.drop_first(), default_size) is Ok);
                assert(lookup_spec(env, "POSTGRES_URL__"@ + name) is Some);
                assert(extras == seq![PoolEntryView { name, uri, pool_size: size }] + tail);
                if i > 0 {
                    assert(extras[i] == tail[i - 1]);
                    assert(names[i] == names.drop_first()[i - 1]);
                } else {
                    assert(extras[0] == PoolEntryView { name, uri, pool_size: size });
                    assert(extras[0].name == upper(names[0]));
                    assert(lookup_spec(env, "POSTGRES_URL__"@ + extras[0].name) == Some(extras[0].uri));
                    match lookup_spec(env, "POSTGRES_POOL_SIZE__"@ + name) {
                        Some(text) => match parse_unsigned_spec(text, usize::MAX as int) {
                            Some(n) => {
                                lemma_parse_unsigned_in_range(text, usize::MAX as int);
                            },
                            None => {},
                        },
                        None => {},
                    }
                }
            }
        }
    }
}

/// Each extra pool of the options is read from its own settings, in the
/// order `POSTGRES_POOLS` lists them: the pool named by a listed name in
/// upper case has `POSTGRES_URL__<NAME>` as its URI, and as its size the
/// number `POSTGRES_POOL_SIZE__<NAME>` reads as; only when that setting is
/// absent or does not read as a number does it take the default pool's size.
pub proof fn lemma_extra_pool_settings(env: EnvView)
    ensures
        options_spec(env) matches Ok((default_pool, extras)) ==> {
            let names = pool_names_spec(
                match lookup_spec(env, "POSTGRES_POOLS"@) {
                    Some(l) => l,
                    None => Seq::empty(),
                },
            );
            &&& extras.len() == names.len()
            &&& forall|i: int| 0 <= i < extras.len() ==> {
                &&& (#[trigger] extras[i]).name == upper(names[i])
                &&& lookup_spec(env, "POSTGRES_URL__"@ + extras[i].name) == Some(extras[i].uri)
                &&& match lookup_spec(env, "POSTGRES_POOL_SIZE__"@ + extras[i].name) {
                    Some(text) => match parse_unsigned_spec(text, usize::MAX as int) {
                        Some(n) => extras[i].pool_size as int == n,
                        None => extras[i].pool_size == default_pool.pool_size,
                    },
                    None => extras[i].pool_size == default_pool.pool_size,
                }
            }
        },
{
    let default_size = size_or(lookup_spec(env, "POSTGRES_POOL_SIZE"@), DEFAULT_POOL_SIZE);
    let names = pool_names_spec(
        match lookup_spec(env, "POSTGRES_POOLS"@) {
            Some(l) => l,
            None => Seq::empty(),
        },
    );
    lemma_extra_pools_from_settings(env, names, default_size);
}

/// The view of the entries of `v`.
pub open spec fn pool_views(v: Seq<PoolEntry>) -> Seq<PoolEntryView> {
    v.map_values(|p: PoolEntry| p@)
}

/// The non-empty trimmed pieces of a comma-separated list of pool names.
pub fn pool_names(list: &str) -> (names: Vec<String>)
    ensures
        views(names@) == pool_names_spec(list@),
{
    let pieces = split_on(list, ',');
    let ghost trimmed_all = split_spec(list@, ',').map_values(|p: Seq<char>| trimmed(p));
    let mut names: Vec<String> = Vec::new();
    let mut i: usize = 0;
    while i < pieces.len()
        invariant
            i <= pieces@.len(),
            views(pieces@) == split_spec(list@, ','),
            trimmed_all == split_spec(list@, ',').map_values(|p: Seq<char>| trimmed(p)),
            views(names@) == trimmed_all.take(i as int).filter(|p: Seq<char>| p.len() > 0),
        decreases pieces@.len() - i,
    {
        let t = trim(pieces[i].as_str());
        let ghost before = names@;
        assert(trimmed_all.take(i + 1).drop_last() =~= trimmed_all.take(i as int));
        assert(trimmed_all[i as int] == t@);
        reveal_with_fuel(Seq::filter, 1);
        if !t.is_empty() {
            names.push(t.to_owned());
            assert(views(names@) =~= views(before).push(t@));
        }
        i = i + 1;
    }
    assert(trimmed_all.take(pieces@.len() as int) =~= trimmed_all);
    names
}

/// Reads the extra pools `names[i..]`.
fn extra_pools(vars: &Vec<(String, String)>, names: &Vec<String>, i: usize, default_size: usize) -> (r: Result<Vec<PoolEntry>, ConfigError>)
    requires
        i <= names@.len(),
    ensures
        ({
            let spec = extra_pools_spec(env_view(vars@), views(names@).subrange(i as int, names@.len() as int), default_size);
            match r {
                Ok(v) => spec == Ok::<Seq<PoolEntryView>, Seq<char>>(pool_views(v@)),
                Err(ConfigError::MissingPoolUrl(n)) => spec == Err::<Seq<PoolEntryView>, Seq<char>>(n@),
                Err(ConfigError::MissingDefaultUrl) => false,
            }
        }),
    decreases names@.len() - i,
{
    let ghost tail = views(names@).subrange(i as int, names@.len() as int);
    if i == names.len() {
        assert(tail.len() == 0);
        let v: Vec<PoolEntry> = Vec::new();
        assert(pool_views(v@) =~= Seq::<PoolEntryView>::empty());
        return Ok(v);
    }
    assert(tail.drop_first() =~= views(names@).subrange(i + 1, names@.len() as int));
    let name = to_ascii_uppercase(names[i].as_str());
    assert(name@ == upper(tail[0]));
    let mut uri_key = String::new();
    push_str(&mut uri_key, "POSTGRES_URL__");
    push_str(&mut uri_key, name.as_str());
    let uri = match lookup(vars, uri_key.as_str()) {
        Some(u) => u,
        None => return Err(ConfigError::MissingPoolUrl(name)),
    };
    let mut size_key = String::new();
    push_str(&mut size_key, "POSTGRES_POOL_SIZE__");
    push_str(&mut size_key, name.as_str());
    let pool_size = size_setting(lookup(vars, size_key.as_str()), default_size);
    match extra_pools(vars, names, i + 1, default_size) {
        Ok(rest) => {
            let mut pools = rest;
            let ghost rest_view = pool_views(pools@);
            let entry = PoolEntry { name, uri, pool_size };
            let ghost ev = entry@;
            pools.insert(0, entry);
            assert(pool_views(pools@) =~= seq![ev] + rest_view);
            Ok(pools)
        },
        Err(e) => Err(e),
    }
}

impl ConnectOptions {
    /// Reads the pools from an environment snapshot: the default pool from
    /// `POSTGRES_URL` and `POSTGRES_POOL_SIZE` (10 when absent or unreadable),
    /// then each pool named in the comma-separated `POSTGRES_POOLS` from
    /// `POSTGRES_URL__<NAME>` and `POSTGRES_POOL_SIZE__<NAME>` (the default
    /// pool's size when absent or unreadable), names in upper case.
    pub fn from_vars(vars: &Vec<(String, String)>) -> (r: Result<ConnectOptions, ConfigError>)
        ensures
            match r {
                Ok(o) => options_spec(env_view(vars@)) == Ok::<(PoolEntryView, Seq<PoolEntryView>), Option<Seq<char>>>((o.default_pool@, pool_views(o.additional_pools@))),
                Err(ConfigError::MissingDefaultUrl) => options_spec(env_view(vars@)) == Err::<(PoolEntryView, Seq<PoolEntryView>), Option<Seq<char>>>(None),
                Err(ConfigError::MissingPoolUrl(n)) => options_spec(env_view(vars@)) == Err::<(PoolEntryView, Seq<PoolEntryView>), Option<Seq<char>>>(Some(n@)),
            },
    {
        let default_uri = lookup(vars, "POSTGRES_URL");
        let default_size = size_setting(lookup(vars, "POSTGRES_POOL_SIZE"), DEFAULT_POOL_SIZE);
        let uri = match default_uri {
            Some(u) => u,
            None => return Err(ConfigError::MissingDefaultUrl),
        };
        let default_pool = PoolEntry { name: "DEFAULT".to_owned(), uri, pool_size: default_size };
        let list = match lookup(vars, "POSTGRES_POOLS") {
            Some(l) => l,
            None => String::new(),
        };
        let names = pool_names(list.as_str());
        assert(views(names@).subrange(0, names@.len() as int) =~= views(names@));
        match extra_pools(vars, &names, 0, default_size) {
            Ok(additional_pools) => Ok(ConnectOptions { default_pool, additional_pools }),
            Err(e) => Err(e),
        }
    }
}

/// The TLS mode a connection string asks for.
#[derive(Clone, Copy, Debug, PartialEq, Eq)]
pub enum TlsMode {
    /// `sslmode=require`.
    Require,
    /// `sslmode=prefer` (the default).
    Prefer,
    /// Any other mode, such as `disable`.
    Other,
}

/// The parts of a Postgres connection string that the pool reads.
#[derive(Clone, Debug)]
pub struct UriParts {
    /// The hosts, in order; a Unix socket directory by its (lossy) path.
    pub hosts: Vec<String>,
    /// The ports, in order.
    pub ports: Vec<u16>,
    pub user: Option<String>,
    /// The password, as the bytes given.
    pub password: Option<Vec<u8>>,
    pub dbname: Option<String>,
    pub tls: TlsMode,
    /// The command-line options to send to the server, when given.
    pub options: Option<String>,
}

/// The parts of a connection string by views.
pub struct UriPartsView {
    pub hosts: Seq<Seq<char>>,
    pub ports: Seq<u16>,
    pub user: Option<Seq<char>>,
    pub password: Option<Seq<u8>>,
    pub dbname: Option<Seq<char>>,
    pub tls: TlsMode,
    pub options: Option<Seq<char>>,
}

impl View for UriParts {
    type V = UriPartsView;

    open spec fn view(&self) -> UriPartsView {
        UriPartsView {
            hosts: views(self.hosts@),
            ports: self.ports@,
            user: match self.user {
                Some(u) => Some(u@),
                None => None,
            },
            password: match self.password {
                Some(p) => Some(p@),
                None => None,
            },
            dbname: match self.dbname {
                Some(d) => Some(d@),
                None => None,
            },
            tls: self.tls,
            options: match self.options {
                Some(o) => Some(o@),
                None => None,
            },
        }
    }
}

/// What tokio-postgres reads from the connection string `uri`
/// (`tokio_postgres::Config::from_str`): `None` when it is not a connection
/// string.
pub uninterp spec fn postgres_uri_parts(uri: Seq<char>) -> Option<UriPartsView>;

/// Parses a Postgres connection string, URL or key-value form, with
/// tokio-postgres (`tokio_postgres::Config::from_str`) and takes out the
/// parts the pool reads. What the parse accepts is not stated: the result is
/// the parse's, named.
#[verifier::external_body]
fn parse_postgres_uri(uri: &str) -> (r: Option<UriParts>)
    ensures
        match r {
            Some(p) => postgres_uri_parts(uri@) == Some(p@),
            None => postgres_uri_parts(uri@) is None,
        },
{
    let c: tokio_postgres::Config = uri.parse().ok()?;
    let hosts = c.get_hosts().iter().map(|h| match h {
        Host::Tcp(name) => name.clone(),
        Host::Unix(path) => path.to_string_lossy().to_string(),
    }).collect();
    let tls = match c.get_ssl_mode() {
        SslMode::Require => TlsMode::Require,
        SslMode::Prefer => TlsMode::Prefer,
        _ => TlsMode::Other,
    };
    Some(UriParts { hosts, ports: c.get_ports().to_vec(), user: c.get_user().map(String::from),
        password: c.get_password().map(Vec::from), dbname: c.get_dbname().map(String::from),
        tls, options: c.get_options().map(String::from) })
}

/// Decodes `bytes` as UTF-8 (`std::str::from_utf8`): `None` when they are
/// not valid UTF-8.
#[verifier::external_body]
fn utf8_text(bytes: &[u8]) -> (r: Option<String>)
    ensures
        r is Some <==> vstd::utf8::valid_utf8(bytes@),
        r matches Some(t) ==> t@ == vstd::utf8::decode_utf8(bytes@),
{
    std::str::from_utf8(bytes).ok().map(str::to_owned)
}

/// Why a connection string gives no pool configuration.
#[derive(Clone, Copy, Debug, PartialEq, Eq)]
pub enum PoolConfigError {
    /// It does not parse as a connection string.
    InvalidUri,
    /// It names no port.
    MissingPort,
    /// It names no user.
    MissingUser,
    /// It holds no password.
    MissingPassword,
    /// It names no database.
    MissingDatabase,
    /// Its password is not UTF-8.
    InvalidPassword,
}

impl PoolConfigError {
    /// The error's message.
    pub fn message(&self) -> (m: &'static str)
        ensures
            m@ == pool_error_message(*self),
    {
        match self {
            PoolConfigError::InvalidUri => "parsing Postgres URI",
            PoolConfigError::MissingPort => "Port is missing",
            PoolConfigError::MissingUser => "Username is missing",
            PoolConfigError::MissingPassword => "Password is missing",
            PoolConfigError::MissingDatabase => "Database is missing",
            PoolConfigError::InvalidPassword => "Password contains invalid UTF-8",
        }
    }
}

/// The message of each pool configuration error.
pub open spec fn pool_error_message(e: PoolConfigError) -> Seq<char> {
    match e {
        PoolConfigError::InvalidUri => "parsing Postgres URI"@,
        PoolConfigError::MissingPort => "Port is missing"@,
        PoolConfigError::MissingUser => "Username is missing"@,
        PoolConfigError::MissingPassword => "Password is missing"@,
        PoolConfigError::MissingDatabase => "Database is missing"@,
        PoolConfigError::InvalidPassword => "Password contains invalid UTF-8"@,
    }
}

/// The configuration of a connection pool.
#[derive(Clone, Debug)]
pub struct PoolSettings {
    /// The first host, or empty when there is none.
    pub host: String,
    /// The first port.
    pub port: u16,
    pub dbname: String,
    pub user: String,
    pub password: String,
    /// The largest number of connections.
    pub max_size: usize,
    /// `Some` for a TLS connection (required or preferred), `None` without TLS.
    pub tls: Option<TlsMode>,
    /// The command-line options sent to the server; empty when none are given.
    pub options: String,
}

/// Pool settings by views.
pub struct PoolSettingsView {
    pub host: Seq<char>,
    pub port: u16,
    pub dbname: Seq<char>,
    pub user: Seq<char>,
    pub password: Seq<char>,
    pub max_size: usize,
    pub tls: Option<TlsMode>,
    pub options: Seq<char>,
}

impl View for PoolSettings {
    type V = PoolSettingsView;

    open spec fn view(&self) -> PoolSettingsView {
        PoolSettingsView {
            host: self.host@,
            port: self.port,
            dbname: self.dbname@,
            user: self.user@,
            password: self.password@,
            max_size: self.max_size,
            tls: self.tls,
            options: self.options@,
        }
    }
}

/// The pool settings that parsed connection-string parts give, checked in
/// the order port, user, password, database, password encoding.
pub open spec fn pool_settings_spec(parts: Option<UriPartsView>, pool_size: usize) -> Result<PoolSettingsView, PoolConfigError> {
    match parts {
        None => Err(PoolConfigError::InvalidUri),
        Some(p) => if p.ports.len() == 0 {
            Err(PoolConfigError::MissingPort)
        } else if p.user is None {
            Err(PoolConfigError::MissingUser)
        } else if p.password is None {
            Err(PoolConfigError::MissingPassword)
        } else if p.dbname is None {
            Err(PoolConfigError::MissingDatabase)
        } else if !vstd::utf8::valid_utf8(p.password->0) {
            Err(PoolConfigError::InvalidPassword)
        } else {
            Ok(PoolSettingsView {
                host: if p.hosts.len() > 0 { p.hosts[0] } else { Seq::empty() },
                port: p.ports[0],
                dbname: p.dbname->0,
                user: p.user->0,
                password: vstd::utf8::decode_utf8(p.password->0),
                max_size: pool_size,
                tls: match p.tls {
                    TlsMode::Require => Some(TlsMode::Require),
                    TlsMode::Prefer => Some(TlsMode::Prefer),
                    TlsMode::Other => None,
                },
                options: match p.options {
                    Some(o) => o,
                    None => Seq::empty(),
                },
            })
        },
    }
}

/// The pool settings of parsed connection-string parts (`None` where the
/// string did not parse) and a pool size.
pub fn pool_settings_from(parts: Option<UriParts>, pool_size: usize) -> (r: Result<PoolSettings, PoolConfigError>)
    ensures
        match r {
            Ok(s) => pool_settings_spec(
                match parts {
                    Some(p) => Some(p@),
                    None => None,
                },
                pool_size,
            ) == Ok::<PoolSettingsView, PoolConfigError>(s@),
            Err(e) => pool_settings_spec(
                match parts {
                    Some(p) => Some(p@),
                    None => None,
                },
                pool_size,
            ) == Err::<PoolSettingsView, PoolConfigError>(e),
        },
{
    let p = match parts {
        Some(p) => p,
        None => return Err(PoolConfigError::InvalidUri),
    };
    let host = if p.hosts.len() > 0 { p.hosts[0].clone() } else { String::new() };
    if p.ports.len() == 0 {
        return Err(PoolConfigError::MissingPort);
    }
    let port = p.ports[0];
    let user = match p.user {
        Some(u) => u,
        None => return Err(PoolConfigError::MissingUser),
    };
    let raw = match p.password {
        Some(pw) => pw,
        None => return Err(PoolConfigError::MissingPassword),
    };
    let dbname = match p.dbname {
        Some(d) => d,
        None => return Err(PoolConfigError::MissingDatabase),
    };
    let password = match utf8_text(raw.as_slice()) {
        Some(t) => t,
        None => return Err(PoolConfigError::InvalidPassword),
    };
    let tls = match p.tls {
        TlsMode::Require => Some(TlsMode::Require),
        TlsMode::Prefer => Some(TlsMode::Prefer),
        TlsMode::Other => None,
    };
    let options = match p.options {
        Some(o) => o,
        None => String::new(),
    };
    let s = PoolSettings { host, port, dbname, user, password, max_size: pool_size, tls, options };
    assert(s@.host == (if p@.hosts.len() > 0 { p@.hosts[0] } else { Seq::<char>::empty() }));
    Ok(s)
}

/// The pool settings of the connection string `uri` with `pool_size`
/// connections.
pub fn pool_settings(uri: &str, pool_size: usize) -> (r: Result<PoolSettings, PoolConfigError>)
    ensures
        match r {
            Ok(s) => pool_settings_spec(postgres_uri_parts(uri@), pool_size) == Ok::<PoolSettingsView, PoolConfigError>(s@),
            Err(e) => pool_settings_spec(postgres_uri_parts(uri@), pool_size) == Err::<PoolSettingsView, PoolConfigError>(e),
        },
{
    let parts = parse_postgres_uri(uri);
    pool_settings_from(parts, pool_size)
}

impl PoolEntry {
    /// The pool settings of this entry's URI and size.
    pub fn pool_settings(&self) -> (r: Result<PoolSettings, PoolConfigError>)
        ensures
            match r {
                Ok(s) => pool_settings_spec(postgres_uri_parts(self.uri@), self.pool_size) == Ok::<PoolSettingsView, PoolConfigError>(s@),
                Err(e) => pool_settings_spec(postgres_uri_parts(self.uri@), self.pool_size) == Err::<PoolSettingsView, PoolConfigError>(e),
            },
    {
        pool_settings(self.uri.as_str(), self.pool_size)
    }
}

/// The pool that a connection name selects among `entries`: the last entry
/// whose name is the connection name in ASCII upper case.
pub open spec fn pool_named(entries: Seq<PoolEntryView>, name: Seq<char>) -> Option<PoolEntryView>
    decreases entries.len(),
{
    if entries.len() == 0 {
        None
    } else if entries.last().name == upper(name) {
        Some(entries.last())
    } else {
        pool_named(entries.drop_last(), name)
    }
}

impl ConnectOptions {
    /// Every pool: the default pool, then the extra pools in order.
    pub closed spec fn spec_entries(&self) -> Seq<PoolEntryView> {
        seq![self.default_pool@] + pool_views(self.additional_pools@)
    }

    /// The pool that opening the connection `name` uses, if any.
    pub fn pool_for(&self, name: &str) -> (p: Option<PoolEntry>)
        ensures
            match p {
                Some(e) => pool_named(self.spec_entries(), name@) == Some(e@),
                None => pool_named(self.spec_entries(), name@) is None,
            },
    {
        let key = to_ascii_uppercase(name);
        let ghost entries = self.spec_entries();
        let mut i: usize = self.additional_pools.len();
        assert(entries.take(i + 1) =~= entries);
        while i > 0
            invariant
                i <= self.additional_pools@.len(),
                entries == self.spec_entries(),
                key@ == upper(name@),
                pool_named(entries.take(i + 1), name@) == pool_named(entries, name@),
            decreases i,
        {
            let ghost prefix = entries.take(i + 1);
            assert(prefix.drop_last() =~= entries.take(i as int));
            assert(prefix.last() == self.additional_pools@[i - 1]@);
            if str_eq(self.additional_pools[i - 1].name.as_str(), key.as_str()) {
                let e = &self.additional_pools[i - 1];
                return Some(PoolEntry { name: e.name.clone(), uri: e.uri.clone(), pool_size: e.pool_size });
            }
            i = i - 1;
        }
        assert(entries.take(1).drop_last() =~= Seq::<PoolEntryView>::empty());
        assert(pool_named(Seq::<PoolEntryView>::empty(), name@) is None);
        assert(entries.take(1)[0] == self.default_pool@);
        assert(entries.take(1).last() == self.default_pool@);
        if str_eq(self.default_pool.name.as_str(), key.as_str()) {
            let e = &self.default_pool;
            Some(PoolEntry { name: e.name.clone(), uri: e.uri.clone(), pool_size: e.pool_size })
        } else {
            None
        }
    }
}

/// The pool settings of each pool, in order, by views: the first pool whose
/// URI gives no settings is reported with its name.
pub open spec fn pool_plan_spec(entries: Seq<PoolEntryView>) -> Result<Seq<(Seq<char>, PoolSettingsView)>, (Seq<char>, PoolConfigError)>
    decreases entries.len(),
{
    if entries.len() == 0 {
        Ok(Seq::empty())
    } else {
        match pool_plan_spec(entries.drop_last()) {
            Err(e) => Err(e),
            Ok(ps) => {
                let e = entries.last();
                match pool_settings_spec(postgres_uri_parts(e.uri), e.pool_size) {
                    Ok(st) => Ok(ps.push((e.name, st))),
                    Err(err) => Err((e.name, err)),
                }
            },
        }
    }
}

/// A failure at position `i`, with all before it planned, is the failure
/// of the whole plan.
proof fn lemma_plan_first_error(entries: Seq<PoolEntryView>, i: int, err: (Seq<char>, PoolConfigError))
    requires
        0 <= i < entries.len(),
        pool_plan_spec(entries.take(i)) is Ok,
        pool_settings_spec(postgres_uri_parts(entries[i].uri), entries[i].pool_size) == Err::<PoolSettingsView, PoolConfigError>(err.1),
        err.0 == entries[i].name,
    ensures
        pool_plan_spec(entries) == Err::<Seq<(Seq<char>, PoolSettingsView)>, (Seq<char>, PoolConfigError)>(err),
    decreases entries.len(),
{
    if entries.len() == i + 1 {
        assert(entries.drop_last() =~= entries.take(i));
    } else {
        assert(entries.drop_last().take(i) =~= entries.take(i));
        lemma_plan_first_error(entries.drop_last(), i, err);
    }
}

impl ConnectOptions {
    /// The settings of every pool the backend opens, the default pool first;
    /// the first pool whose URI gives no settings fails the whole plan.
    pub fn pool_plan(&self) -> (r: Result<Vec<(String, PoolSettings)>, (String, PoolConfigError)>)
        ensures
            match r {
                Ok(v) => pool_plan_spec(self.spec_entries()) == Ok::<Seq<(Seq<char>, PoolSettingsView)>, (Seq<char>, PoolConfigError)>(
                    v@.map_values(|p: (String, PoolSettings)| (p.0@, p.1@)),
                ),
                Err((name, e)) => pool_plan_spec(self.spec_entries()) == Err::<Seq<(Seq<char>, PoolSettingsView)>, (Seq<char>, PoolConfigError)>(
                    (name@, e),
                ),
            },
    {
        let ghost entries = self.spec_entries();
        let mut plan: Vec<(String, PoolSettings)> = Vec::new();
        assert(entries.take(0) =~= Seq::<PoolEntryView>::empty());
        assert(entries.take(1).drop_last() =~= entries.take(0));
        assert(entries.take(1).last() == self.default_pool@);
        match self.default_pool.pool_settings() {
            Ok(st) => {
                let ghost stv = st@;
                plan.push((self.default_pool.name.clone(), st));
                assert(plan@.map_values(|p: (String, PoolSettings)| (p.0@, p.1@)) =~= seq![(self.default_pool.name@, stv)]);
                assert(Seq::<(Seq<char>, PoolSettingsView)>::empty().push((self.default_pool.name@, stv)) =~= seq![(self.default_pool.name@, stv)]);
            },
            Err(e) => {
                proof {
                    lemma_plan_first_error(entries, 0, (self.default_pool.name@, e));
                }
                return Err((self.default_pool.name.clone(), e));
            },
        }
        let mut i: usize = 0;
        while i < self.additional_pools.len()
            invariant
                entries == self.spec_entries(),
                entries.len() == self.additional_pools@.len() + 1,
                i <= self.additional_pools@.len(),
                pool_plan_spec(entries.take(i + 1)) == Ok::<Seq<(Seq<char>, PoolSettingsView)>, (Seq<char>, PoolConfigError)>(
                    plan@.map_values(|p: (String, PoolSettings)| (p.0@, p.1@)),
                ),
            decreases self.additional_pools@.len() - i,
        {
            let entry: &PoolEntry = &self.additional_pools[i];
            assert(entry@ == entries[i + 1]);
            assert(entries.take(i + 2).drop_last() =~= entries.take(i + 1));
            assert(entries.take(i + 2).last() == entries[i + 1]);
            match entry.pool_settings() {
                Ok(st) => {
                    let ghost before = plan@;
                    let ghost stv = st@;
                    plan.push((entry.name.clone(), st));
                    assert(plan@.map_values(|p: (String, PoolSettings)| (p.0@, p.1@)) =~= before.map_values(
                        |p: (String, PoolSettings)| (p.0@, p.1@),
                    ).push((entry.name@, stv)));
                },
                Err(e) => {
                    proof {
                        lemma_plan_first_error(entries, i + 1, (entry.name@, e));
                    }
                    return Err((entry.name.clone(), e));
                },
            }
            i = i + 1;
        }
        assert(entries.take(i + 1) =~= entries);
        Ok(plan)
    }
}

} // verus!
