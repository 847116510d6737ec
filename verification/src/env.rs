//! A snapshot of the process environment, as name and value pairs, and the
//! lookup of a variable in it.

use vstd::prelude::*;
use crate::text::{parse_i32, parse_i32_spec, parse_u64, parse_unsigned_spec, parse_usize, split_on, split_spec, str_eq, views};

verus! {

/// An environment snapshot by views.
pub type EnvView = Seq<(Seq<char>, Seq<char>)>;

/// The view of an environment snapshot.
pub open spec fn env_view(vars: Seq<(String, String)>) -> EnvView {
    vars.map_values(|e: (String, String)| (e.0@, e.1@))
}

/// The value of the first variable named `key`.
pub open spec fn lookup_spec(env: EnvView, key: Seq<char>) -> Option<Seq<char>>
    decreases env.len(),
{
    if env.len() == 0 {
        None
    } else if env[0].0 == key {
        Some(env[0].1)
    } else {
        lookup_spec(env.drop_first(), key)
    }
}

/// The value of the first variable of `vars` named `key`.
pub fn lookup(vars: &Vec<(String, String)>, key: &str) -> (r: Option<String>)
    ensures
        match r {
            Some(v) => lookup_spec(env_view(vars@), key@) == Some(v@),
            None => lookup_spec(env_view(vars@), key@) is None,
        },
{
    let mut i: usize = 0;
    assert(env_view(vars@).subrange(0, vars@.len() as int) =~= env_view(vars@));
    while i < vars.len()
        invariant
            i <= vars@.len(),
            lookup_spec(env_view(vars@).subrange(i as int, vars@.len() as int), key@)
                == lookup_spec(env_view(vars@), key@),
        decreases vars@.len() - i,
    {
        let ghost rest = env_view(vars@).subrange(i as int, vars@.len() as int);
        assert(rest.drop_first() =~= env_view(vars@).subrange(i + 1, vars@.len() as int));
        if str_eq(vars[i].0.as_str(), key) {
            return Some(vars[i].1.clone());
        }
        i = i + 1;
    }
    assert(env_view(vars@).subrange(i as int, vars@.len() as int).len() == 0);
    None
}

/// Why a setting could not be read from the environment.
#[derive(Debug, PartialEq, Eq)]
pub enum EnvError {
    /// The variable, which has no default, is not set.
    Missing(String),
    /// The variable is set to a value that does not read as its type.
    Invalid(String),
}

/// An environment error by views: the variable's name.
pub enum EnvErrorView {
    Missing(Seq<char>),
    Invalid(Seq<char>),
}

impl View for EnvError {
    type V = EnvErrorView;

    open spec fn view(&self) -> EnvErrorView {
        match self {
            EnvError::Missing(k) => EnvErrorView::Missing(k@),
            EnvError::Invalid(k) => EnvErrorView::Invalid(k@),
        }
    }
}

/// The views of a list of errors.
pub open spec fn errors_view(v: Seq<EnvError>) -> Seq<EnvErrorView> {
    v.map_values(|e: EnvError| e@)
}

/// The error a setting contributes: none when it was read.
pub open spec fn errs<T>(r: Result<T, EnvErrorView>) -> Seq<EnvErrorView> {
    match r {
        Ok(_) => Seq::empty(),
        Err(e) => seq![e],
    }
}

/// A text setting: the variable's value, or `default` when it is not set.
pub open spec fn text_or(env: EnvView, key: Seq<char>, default: Seq<char>) -> Seq<char> {
    match lookup_spec(env, key) {
        Some(v) => v,
        None => default,
    }
}

/// Reads a text setting with a default.
pub fn text_setting(vars: &Vec<(String, String)>, key: &str, default: &str) -> (r: String)
    ensures
        r@ == text_or(env_view(vars@), key@, default@),
{
    match lookup(vars, key) {
        Some(v) => v,
        None => default.to_string(),
    }
}

/// A text setting without a default: `Missing` when it is not set.
pub open spec fn required_spec(env: EnvView, key: Seq<char>) -> Result<Seq<char>, EnvErrorView> {
    match lookup_spec(env, key) {
        Some(v) => Ok(v),
        None => Err(EnvErrorView::Missing(key)),
    }
}

/// Reads a text setting that has no default.
pub fn required_setting(vars: &Vec<(String, String)>, key: &str) -> (r: Result<String, EnvError>)
    ensures
        match r {
            Ok(v) => required_spec(env_view(vars@), key@) == Ok::<Seq<char>, EnvErrorView>(v@),
            Err(e) => required_spec(env_view(vars@), key@) == Err::<Seq<char>, EnvErrorView>(e@),
        },
{
    match lookup(vars, key) {
        Some(v) => Ok(v),
        None => Err(EnvError::Missing(key.to_string())),
    }
}

/// A list setting without a default, read as its comma-separated pieces:
/// `Missing` when it is not set.
pub open spec fn list_spec(env: EnvView, key: Seq<char>) -> Result<Seq<Seq<char>>, EnvErrorView> {
    match lookup_spec(env, key) {
        Some(v) => Ok(split_spec(v, ',')),
        None => Err(EnvErrorView::Missing(key)),
    }
}

/// Reads a comma-separated list setting that has no default.
pub fn list_setting(vars: &Vec<(String, String)>, key: &str) -> (r: Result<Vec<String>, EnvError>)
    ensures
        match r {
            Ok(v) => list_spec(env_view(vars@), key@) == Ok::<Seq<Seq<char>>, EnvErrorView>(views(v@)),
            Err(e) => list_spec(env_view(vars@), key@) == Err::<Seq<Seq<char>>, EnvErrorView>(e@),
        },
{
    match lookup(vars, key) {
        Some(v) => Ok(split_on(v.as_str(), ',')),
        None => Err(EnvError::Missing(key.to_string())),
    }
}

/// A number setting whose largest value is `max`: the value the variable
/// reads as, `default` when it is not set, and `Invalid` when it is set to
/// something that does not read as a number that fits.
pub open spec fn number_spec(env: EnvView, key: Seq<char>, default: int, max: int) -> Result<int, EnvErrorView> {
    match lookup_spec(env, key) {
        Some(v) => match parse_unsigned_spec(v, max) {
            Some(n) => Ok(n),
            None => Err(EnvErrorView::Invalid(key)),
        },
        None => Ok(default),
    }
}

/// Reads a `usize` setting with a default.
pub fn usize_setting(vars: &Vec<(String, String)>, key: &str, default: usize) -> (r: Result<usize, EnvError>)
    ensures
        match r {
            Ok(n) => number_spec(env_view(vars@), key@, default as int, usize::MAX as int) == Ok::<int, EnvErrorView>(n as int),
            Err(e) => number_spec(env_view(vars@), key@, default as int, usize::MAX as int) == Err::<int, EnvErrorView>(e@),
        },
{
    match lookup(vars, key) {
        Some(v) => match parse_usize(v.as_str()) {
            Some(n) => Ok(n),
            None => Err(EnvError::Invalid(key.to_string())),
        },
        None => Ok(default),
    }
}

/// Reads a `u64` setting with a default.
pub fn u64_setting(vars: &Vec<(String, String)>, key: &str, default: u64) -> (r: Result<u64, EnvError>)
    ensures
        match r {
            Ok(n) => number_spec(env_view(vars@), key@, default as int, u64::MAX as int) == Ok::<int, EnvErrorView>(n as int),
            Err(e) => number_spec(env_view(vars@), key@, default as int, u64::MAX as int) == Err::<int, EnvErrorView>(e@),
        },
{
    match lookup(vars, key) {
        Some(v) => match parse_u64(v.as_str()) {
            Some(n) => Ok(n),
            None => Err(EnvError::Invalid(key.to_string())),
        },
        None => Ok(default),
    }
}

/// Whether every error is a missing setting: a nested group of settings
/// that fails only so counts as absent.
pub open spec fn only_missing(es: Seq<EnvErrorView>) -> bool {
    forall|i: int| 0 <= i < es.len() ==> #[trigger] es[i] is Missing
}

/// Whether every error of `es` is a missing setting.
pub fn only_missing_errors(es: &Vec<EnvError>) -> (b: bool)
    ensures
        b == only_missing(errors_view(es@)),
{
    let mut i: usize = 0;
    while i < es.len()
        invariant
            i <= es@.len(),
            forall|m: int| 0 <= m < i ==> #[trigger] errors_view(es@)[m] is Missing,
        decreases es@.len() - i,
    {
        match &es[i] {
            EnvError::Missing(_) => {},
            EnvError::Invalid(_) => {
                assert(!(errors_view(es@)[i as int] is Missing));
                return false;
            },
        }
        i = i + 1;
    }
    true
}

/// An optional `i32` setting: absent when not set, `Invalid` when set to
/// something that does not read as an `i32`.
pub open spec fn optional_i32_spec(env: EnvView, key: Seq<char>) -> Result<Option<i32>, EnvErrorView> {
    match lookup_spec(env, key) {
        None => Ok(None),
        Some(v) => match parse_i32_spec(v) {
            Some(n) => Ok(Some(n)),
            None => Err(EnvErrorView::Invalid(key)),
        },
    }
}

/// Reads an optional `i32` setting.
pub fn optional_i32_setting(vars: &Vec<(String, String)>, key: &str) -> (r: Result<Option<i32>, EnvError>)
    ensures
        match r {
            Ok(n) => optional_i32_spec(env_view(vars@), key@) == Ok::<Option<i32>, EnvErrorView>(n),
            Err(e) => optional_i32_spec(env_view(vars@), key@) == Err::<Option<i32>, EnvErrorView>(e@),
        },
{
    match lookup(vars, key) {
        None => Ok(None),
        Some(v) => match parse_i32(v.as_str()) {
            Some(n) => Ok(Some(n)),
            None => Err(EnvError::Invalid(key.to_string())),
        },
    }
}

/// An `i32` setting with a default.
pub open spec fn i32_spec(env: EnvView, key: Seq<char>, default: i32) -> Result<i32, EnvErrorView> {
    match optional_i32_spec(env, key) {
        Ok(Some(n)) => Ok(n),
        Ok(None) => Ok(default),
        Err(e) => Err(e),
    }
}

/// Reads an `i32` setting with a default.
pub fn i32_setting(vars: &Vec<(String, String)>, key: &str, default: i32) -> (r: Result<i32, EnvError>)
    ensures
        match r {
            Ok(n) => i32_spec(env_view(vars@), key@, default) == Ok::<i32, EnvErrorView>(n),
            Err(e) => i32_spec(env_view(vars@), key@, default) == Err::<i32, EnvErrorView>(e@),
        },
{
    match optional_i32_setting(vars, key) {
        Ok(Some(n)) => Ok(n),
        Ok(None) => Ok(default),
        Err(e) => Err(e),
    }
}

/// Reads an optional comma-separated list setting.
pub fn optional_list_setting(vars: &Vec<(String, String)>, key: &str) -> (r: Option<Vec<String>>)
    ensures
        match r {
            Some(v) => list_spec(env_view(vars@), key@) == Ok::<Seq<Seq<char>>, EnvErrorView>(views(v@)),
            None => list_spec(env_view(vars@), key@) is Err,
        },
{
    match list_setting(vars, key) {
        Ok(v) => Some(v),
        Err(_) => None,
    }
}

} // verus!
