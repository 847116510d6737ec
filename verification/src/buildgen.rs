//! The grammar of the guest macro's route paths and the names derived from
//! the types it is given.

use vstd::prelude::*;
use crate::text::{
    chars_of, lowercase_of, replace, replace_spec, str_eq, string_of_range, strip_suffix_or_all,
    strip_suffix_or_self, to_lowercase, trim, trimmed, views,
};

verus! {

/// Whether `syn` accepts `name` as a Rust identifier (`syn::parse_str::<Ident>`):
/// an identifier that is not a reserved keyword.
pub uninterp spec fn is_rust_ident(name: Seq<char>) -> bool;

/// `syn::parse_str::<syn::Ident>`: whether `name` parses as one identifier.
#[verifier::external_body]
pub(crate) fn parses_as_ident(name: &str) -> (ok: bool)
    ensures
        ok == is_rust_ident(name@),
{
    syn::parse_str::<syn::Ident>(name).is_ok()
}

/// Why a route path's parameters could not be read.
#[derive(Clone, Debug, PartialEq, Eq)]
pub enum PathParamError {
    /// A `{` inside a parameter.
    NestedBrace,
    /// A `{` with no `}` after it.
    UnclosedBrace,
    /// A parameter with nothing (or only white space) between its braces.
    EmptyParam,
    /// A parameter name that is not a Rust identifier.
    InvalidName(String),
    /// The same parameter name twice.
    DuplicateParam(String),
    /// A `}` with no `{` before it.
    StrayBrace,
}

/// The outcome of reading a path's parameters, by views.
pub enum PathParamsView {
    Params(Seq<Seq<char>>),
    NestedBrace,
    UnclosedBrace,
    EmptyParam,
    InvalidName(Seq<char>),
    DuplicateParam(Seq<char>),
    StrayBrace,
}

/// The first index at or after `j` that holds `{` or `}`, or the length of `s`.
pub open spec fn next_brace(s: Seq<char>, j: int) -> int
    decreases s.len() - j,
{
    if j >= s.len() {
        s.len() as int
    } else if s[j] == '{' || s[j] == '}' {
        j
    } else {
        next_brace(s, j + 1)
    }
}

/// The parameters of `s[i..]`, given those `acc` found before `i`.
pub open spec fn scan_params(s: Seq<char>, i: int, acc: Seq<Seq<char>>) -> PathParamsView
    decreases s.len() - i, 0int,
{
    if i >= s.len() || i < 0 {
        PathParamsView::Params(acc)
    } else if s[i] == '{' {
        let k = next_brace(s, i + 1);
        if k >= s.len() {
            PathParamsView::UnclosedBrace
        } else if s[k] == '{' {
            PathParamsView::NestedBrace
        } else {
            let name = trimmed(s.subrange(i + 1, k));
            if name.len() == 0 {
                PathParamsView::EmptyParam
            } else if !is_rust_ident(name) {
                PathParamsView::InvalidName(name)
            } else if acc.contains(name) {
                PathParamsView::DuplicateParam(name)
            } else if k + 1 > i {
                scan_params(s, k + 1, acc.push(name))
            } else {
                PathParamsView::Params(acc)
            }
        }
    } else if s[i] == '}' {
        PathParamsView::StrayBrace
    } else {
        scan_params(s, i + 1, acc)
    }
}

/// The parameters of the route path `s`: the names between `{` and `}`, in order.
pub open spec fn path_params_spec(s: Seq<char>) -> PathParamsView {
    scan_params(s, 0, Seq::empty())
}

/// The view of a result of [`parse_path_params`].
pub open spec fn path_params_view(r: Result<Vec<String>, PathParamError>) -> PathParamsView {
    match r {
        Ok(v) => PathParamsView::Params(views(v@)),
        Err(PathParamError::NestedBrace) => PathParamsView::NestedBrace,
        Err(PathParamError::UnclosedBrace) => PathParamsView::UnclosedBrace,
        Err(PathParamError::EmptyParam) => PathParamsView::EmptyParam,
        Err(PathParamError::InvalidName(n)) => PathParamsView::InvalidName(n@),
        Err(PathParamError::DuplicateParam(n)) => PathParamsView::DuplicateParam(n@),
        Err(PathParamError::StrayBrace) => PathParamsView::StrayBrace,
    }
}

proof fn lemma_next_brace_bounds(s: Seq<char>, j: int)
    requires
        0 <= j <= s.len(),
    ensures
        j <= next_brace(s, j) <= s.len(),
        forall|m: int| j <= m < next_brace(s, j) ==> s[m] != '{' && s[m] != '}',
        next_brace(s, j) < s.len() ==> (s[next_brace(s, j)] == '{' || s[next_brace(s, j)] == '}'),
    decreases s.len() - j,
{
    if j < s.len() && s[j] != '{' && s[j] != '}' {
        lemma_next_brace_bounds(s, j + 1);
    }
}

/// Whether `names` holds `name`.
fn contains_name(names: &Vec<String>, name: &str) -> (b: bool)
    ensures
        b == views(names@).contains(name@),
{
    let mut i: usize = 0;
    while i < names.len()
        invariant
            i <= names@.len(),
            forall|m: int| 0 <= m < i ==> names@[m]@ != name@,
        decreases names@.len() - i,
    {
        if str_eq(names[i].as_str(), name) {
            assert(views(names@)[i as int] == name@);
            return true;
        }
        i = i + 1;
    }
    assert(!views(names@).contains(name@)) by {
        if views(names@).contains(name@) {
            let m = choose|m: int| 0 <= m < views(names@).len() && views(names@)[m] == name@;
            assert(names@[m]@ == name@);
        }
    }
    false
}

/// Reads the parameters of an HTTP route path such as
/// `/set-trip/{vehicle_id}/{trip_id}`: the identifiers between braces, in order.
pub fn parse_path_params(path: &str) -> (r: Result<Vec<String>, PathParamError>)
    ensures
        path_params_view(r) == path_params_spec(path@),
{
    let s = chars_of(path);
    let mut params: Vec<String> = Vec::new();
    assert(views(params@) =~= Seq::<Seq<char>>::empty());
    let mut i: usize = 0;
    while i < s.len()
        invariant
            i <= s@.len(),
            s@ == path@,
            scan_params(s@, i as int, views(params@)) == path_params_spec(path@),
        decreases s@.len() - i,
    {
        if s[i] == '{' {
            let start = i + 1;
            let mut j = start;
            proof {
                lemma_next_brace_bounds(s@, start as int);
            }
            while j < s.len() && s[j] != '}' && s[j] != '{'
                invariant
                    start <= j <= s@.len(),
                    next_brace(s@, start as int) == next_brace(s@, j as int),
                decreases s@.len() - j,
            {
                j = j + 1;
            }
            assert(next_brace(s@, j as int) == j);
            assert(next_brace(s@, (i + 1) as int) == j);
            if j >= s.len() {
                return Err(PathParamError::UnclosedBrace);
            }
            if s[j] == '{' {
                return Err(PathParamError::NestedBrace);
            }
            let raw = string_of_range(&s, start, j);
            let name = trim(raw.as_str());
            if name.is_empty() {
                return Err(PathParamError::EmptyParam);
            }
            if !parses_as_ident(name) {
                return Err(PathParamError::InvalidName(name.to_owned()));
            }
            if contains_name(&params, name) {
                return Err(PathParamError::DuplicateParam(name.to_owned()));
            }
            assert(scan_params(s@, i as int, views(params@)) == scan_params(
                s@,
                (j + 1) as int,
                views(params@).push(name@),
            ));
            let owned = name.to_owned();
            let ghost before = params@;
            params.push(owned);
            assert(views(params@) =~= views(before).push(name@));
            i = j + 1;
        } else if s[i] == '}' {
            return Err(PathParamError::StrayBrace);
        } else {
            assert(scan_params(s@, i as int, views(params@)) == scan_params(s@, i + 1, views(params@)));
            i = i + 1;
        }
    }
    Ok(params)
}

} // verus!

verus! {

/// A character that may start a path parameter name: `[A-Za-z_]`.
pub open spec fn is_name_start(c: char) -> bool {
    ('A' <= c && c <= 'Z') || ('a' <= c && c <= 'z') || c == '_'
}

/// A character that may continue a path parameter name: `[A-Za-z0-9_]`.
pub open spec fn is_name_char(c: char) -> bool {
    is_name_start(c) || ('0' <= c && c <= '9')
}

/// The first index at or after `j` whose character cannot continue a name.
pub open spec fn name_end(s: Seq<char>, j: int) -> int
    decreases s.len() - j,
{
    if j >= s.len() || j < 0 {
        if j < 0 { 0 } else { s.len() as int }
    } else if !is_name_char(s[j]) {
        j
    } else {
        name_end(s, j + 1)
    }
}

/// Whether a parameter `{name}` starts at `i`.
pub open spec fn param_at(s: Seq<char>, i: int) -> bool {
    &&& 0 <= i
    &&& i + 1 < s.len()
    &&& s[i] == '{'
    &&& is_name_start(s[i + 1])
    &&& name_end(s, i + 2) < s.len()
    &&& s[name_end(s, i + 2)] == '}'
}

/// The names of the `{name}` parameters of `s[i..]`, left to right, as the
/// pattern `\{([A-Za-z_][A-Za-z0-9_]*)\}` finds them.
pub open spec fn extract_params_from(s: Seq<char>, i: int) -> Seq<Seq<char>>
    decreases s.len() - i,
{
    if i >= s.len() || i < 0 {
        Seq::empty()
    } else if param_at(s, i) {
        let e = name_end(s, i + 2);
        if e + 1 > i {
            seq![s.subrange(i + 1, e)] + extract_params_from(s, e + 1)
        } else {
            Seq::empty()
        }
    } else {
        extract_params_from(s, i + 1)
    }
}

proof fn lemma_name_end_bounds(s: Seq<char>, j: int)
    requires
        0 <= j <= s.len(),
    ensures
        j <= name_end(s, j) <= s.len(),
        forall|m: int| j <= m < name_end(s, j) ==> is_name_char(s[m]),
        name_end(s, j) < s.len() ==> !is_name_char(s[name_end(s, j)]),
    decreases s.len() - j,
{
    if j < s.len() && is_name_char(s[j]) {
        lemma_name_end_bounds(s, j + 1);
    }
}

fn is_name_start_char(c: char) -> (b: bool)
    ensures
        b == is_name_start(c),
{
    ('A' <= c && c <= 'Z') || ('a' <= c && c <= 'z') || c == '_'
}

fn is_name_char_exec(c: char) -> (b: bool)
    ensures
        b == is_name_char(c),
{
    is_name_start_char(c) || ('0' <= c && c <= '9')
}

/// The names of the `{name}` parameters of an HTTP route path, left to right,
/// where a name is an ASCII letter or `_` followed by ASCII letters, digits or `_`.
pub fn extract_params(path: &str) -> (names: Vec<String>)
    ensures
        views(names@) == extract_params_from(path@, 0),
{
    let s = chars_of(path);
    let mut names: Vec<String> = Vec::new();
    assert(views(names@) =~= Seq::<Seq<char>>::empty());
    let mut i: usize = 0;
    while i < s.len()
        invariant
            i <= s@.len(),
            s@ == path@,
            views(names@) + extract_params_from(s@, i as int) == extract_params_from(s@, 0),
        decreases s@.len() - i,
    {
        let mut matched = false;
        if s[i] == '{' && i + 1 < s.len() && is_name_start_char(s[i + 1]) {
            let mut e = i + 2;
            proof {
                lemma_name_end_bounds(s@, (i + 2) as int);
            }
            while e < s.len() && is_name_char_exec(s[e])
                invariant
                    i + 2 <= e <= s@.len(),
                    name_end(s@, (i + 2) as int) == name_end(s@, e as int),
                decreases s@.len() - e,
            {
                e = e + 1;
            }
            assert(name_end(s@, e as int) == e);
            if e < s.len() && s[e] == '}' {
                let name = string_of_range(&s, i + 1, e);
                let ghost before = names@;
                names.push(name);
                assert(views(names@) =~= views(before).push(name@));
                assert(extract_params_from(s@, i as int) == seq![name@] + extract_params_from(
                    s@,
                    e + 1,
                ));
                assert(views(names@) + extract_params_from(s@, e + 1) =~= views(before)
                    + extract_params_from(s@, i as int));
                i = e + 1;
                matched = true;
            }
        }
        if !matched {
            assert(!param_at(s@, i as int));
            i = i + 1;
        }
    }
    assert(views(names@) + Seq::<Seq<char>>::empty() =~= views(names@));
    names
}

} // verus!

verus! {

/// The module identifier of a WASI host type: `Wasi` replaced by `wasi_`,
/// then lower case (`WasiHttp` gives `wasi_http`).
pub open spec fn wasi_ident_spec(host_type: Seq<char>) -> Seq<char> {
    lowercase_of(replace_spec(host_type, "Wasi"@, "wasi_"@))
}

/// The module identifier of a WASI host type.
pub fn wasi_ident(host_type: &str) -> (ident: String)
    ensures
        ident@ == wasi_ident_spec(host_type@),
{
    proof {
        reveal_strlit("Wasi");
    }
    let replaced = replace(host_type, "Wasi", "wasi_");
    to_lowercase(replaced.as_str())
}

/// The handler name of a request or message type: the type's name without
/// `suffix` (when it ends with it), in lower case (`SetTripRequest` gives `settrip`).
pub open spec fn handler_name_spec(type_text: Seq<char>, suffix: Seq<char>) -> Seq<char> {
    lowercase_of(strip_suffix_or_self(type_text, suffix))
}

/// The handler name of a type: its name without `suffix`, in lower case.
pub fn handler_name(type_text: &str, suffix: &str) -> (name: String)
    ensures
        name@ == handler_name_spec(type_text@, suffix@),
{
    let stripped = strip_suffix_or_all(type_text, suffix);
    to_lowercase(stripped.as_str())
}

/// The handler name of an HTTP route's request type.
pub fn route_handler_name(request_type: &str) -> (name: String)
    ensures
        name@ == handler_name_spec(request_type@, "Request"@),
{
    handler_name(request_type, "Request")
}

/// The handler name of a messaging topic's message type.
pub fn topic_handler_name(message_type: &str) -> (name: String)
    ensures
        name@ == handler_name_spec(message_type@, "Message"@),
{
    handler_name(message_type, "Message")
}

/// The first occurrence of each item of `s`, in order.
pub open spec fn distinct_spec(s: Seq<Seq<char>>) -> Seq<Seq<char>>
    decreases s.len(),
{
    if s.len() == 0 {
        Seq::empty()
    } else {
        let d = distinct_spec(s.drop_last());
        if d.contains(s.last()) {
            d
        } else {
            d.push(s.last())
        }
    }
}

/// The distinct backends of a runtime, each once, in the order they first appear.
pub fn distinct_backends(backends: &Vec<String>) -> (d: Vec<String>)
    ensures
        views(d@) == distinct_spec(views(backends@)),
{
    let mut d: Vec<String> = Vec::new();
    let mut i: usize = 0;
    assert(views(d@) =~= Seq::<Seq<char>>::empty());
    assert(views(backends@).take(0) =~= Seq::<Seq<char>>::empty());
    while i < backends.len()
        invariant
            i <= backends@.len(),
            views(d@) == distinct_spec(views(backends@).take(i as int)),
        decreases backends@.len() - i,
    {
        let ghost prefix = views(backends@).take(i + 1);
        assert(prefix.drop_last() =~= views(backends@).take(i as int));
        assert(prefix.last() == backends@[i as int]@);
        if !contains_name(&d, backends[i].as_str()) {
            let ghost before = d@;
            d.push(backends[i].clone());
            assert(views(d@) =~= views(before).push(backends@[i as int]@));
        }
        i = i + 1;
    }
    assert(views(backends@).take(backends@.len() as int) =~= views(backends@));
    d
}

/// Every backend appears once in the distinct backends.
pub proof fn lemma_distinct_no_duplicates(s: Seq<Seq<char>>)
    ensures
        distinct_spec(s).no_duplicates(),
    decreases s.len(),
{
    if s.len() > 0 {
        lemma_distinct_no_duplicates(s.drop_last());
    }
}

/// The distinct backends are exactly the backends.
pub proof fn lemma_distinct_same_items(s: Seq<Seq<char>>, x: Seq<char>)
    ensures
        distinct_spec(s).contains(x) <==> s.contains(x),
    decreases s.len(),
{
    if s.len() > 0 {
        let init = s.drop_last();
        let l = s.last();
        let d = distinct_spec(init);
        lemma_distinct_same_items(init, x);
        lemma_distinct_same_items(init, l);
        assert(s.contains(x) <==> (init.contains(x) || x == l)) by {
            if s.contains(x) && x != l {
                let m = choose|m: int| 0 <= m < s.len() && s[m] == x;
                assert(m < s.len() - 1);
                assert(init[m] == x);
            }
            if init.contains(x) {
                let m = choose|m: int| 0 <= m < init.len() && init[m] == x;
                assert(s[m] == x);
            }
            if x == l {
                assert(s[s.len() - 1] == x);
            }
        }
        if !d.contains(l) {
            assert(d.push(l).contains(x) <==> (d.contains(x) || x == l)) by {
                if d.push(l).contains(x) && x != l {
                    let m = choose|m: int| 0 <= m < d.push(l).len() && d.push(l)[m] == x;
                    assert(d[m] == x);
                }
                if d.contains(x) {
                    let m = choose|m: int| 0 <= m < d.len() && d[m] == x;
                    assert(d.push(l)[m] == x);
                }
                if x == l {
                    assert(d.push(l)[d.len() as int] == x);
                }
            }
        }
    }
}

/// Why a route's HTTP method was refused.
#[derive(Clone, Debug, PartialEq, Eq)]
pub enum MethodError {
    /// A method other than `get` or `post`, in any case.
    UnsupportedMethod(String),
}

/// The method of a route: the given method in lower case when it is `get` or
/// `post`; `get` when none is given.
pub open spec fn route_method_spec(method: Option<Seq<char>>) -> Option<Seq<char>> {
    match method {
        None => Some("get"@),
        Some(m) => if lowercase_of(m) == "get"@ || lowercase_of(m) == "post"@ {
            Some(lowercase_of(m))
        } else {
            None
        },
    }
}

/// Checks a route's HTTP method, defaulting to `get`.
pub fn route_method(method: Option<&str>) -> (r: Result<String, MethodError>)
    ensures
        match r {
            Ok(m) => route_method_spec(
                match method {
                    Some(x) => Some(x@),
                    None => None,
                },
            ) == Some(m@),
            Err(MethodError::UnsupportedMethod(m)) => route_method_spec(
                match method {
                    Some(x) => Some(x@),
                    None => None,
                },
            ) is None && method is Some && m@ == method.unwrap()@,
        },
{
    match method {
        None => Ok("get".to_owned()),
        Some(m) => {
            let lower = to_lowercase(m);
            if str_eq(lower.as_str(), "get") || str_eq(lower.as_str(), "post") {
                Ok(lower)
            } else {
                Err(MethodError::UnsupportedMethod(m.to_owned()))
            }
        },
    }
}

} // verus!

verus! {

/// Why a block of `key: value` settings in the guest macro's input was refused.
#[derive(Clone, Debug, PartialEq, Eq)]
pub enum SettingsError {
    /// A key the block does not know.
    UnknownField(String),
    /// A key given twice where the block allows one.
    RepeatedField(String),
    /// A required key that is not given.
    MissingField(String),
}

/// A settings error by views.
pub enum SettingsErrorView {
    UnknownField(Seq<char>),
    RepeatedField(Seq<char>),
    MissingField(Seq<char>),
}

/// The view of a settings error.
pub open spec fn settings_error_view(e: SettingsError) -> SettingsErrorView {
    match e {
        SettingsError::UnknownField(k) => SettingsErrorView::UnknownField(k@),
        SettingsError::RepeatedField(k) => SettingsErrorView::RepeatedField(k@),
        SettingsError::MissingField(k) => SettingsErrorView::MissingField(k@),
    }
}

/// The position of the first `x` in `s`, or `s.len()`.
pub open spec fn first_index(s: Seq<Seq<char>>, x: Seq<char>) -> int
    decreases s.len(),
{
    if s.len() == 0 {
        0
    } else if s[0] == x {
        0
    } else {
        1 + first_index(s.drop_first(), x)
    }
}

/// Which setting (by position) gives each allowed key, reading the keys
/// `keys[i..]` left to right from `slots`: an unknown key is refused, and so is
/// a repeated key unless repeats are allowed, in which case the last one counts.
pub open spec fn settings_scan(
    keys: Seq<Seq<char>>,
    allowed: Seq<Seq<char>>,
    allow_repeats: bool,
    i: int,
    slots: Seq<Option<int>>,
) -> Result<Seq<Option<int>>, SettingsErrorView>
    decreases keys.len() - i,
{
    if i >= keys.len() || i < 0 {
        Ok(slots)
    } else {
        let k = keys[i];
        let j = first_index(allowed, k);
        if j >= allowed.len() || j >= slots.len() {
            Err(SettingsErrorView::UnknownField(k))
        } else if slots[j] is Some && !allow_repeats {
            Err(SettingsErrorView::RepeatedField(k))
        } else {
            settings_scan(keys, allowed, allow_repeats, i + 1, slots.update(j, Some(i)))
        }
    }
}

/// The setting positions of each allowed key, starting from none.
pub open spec fn settings_spec(keys: Seq<Seq<char>>, allowed: Seq<Seq<char>>, allow_repeats: bool) -> Result<Seq<Option<int>>, SettingsErrorView> {
    settings_scan(keys, allowed, allow_repeats, 0, Seq::new(allowed.len(), |j: int| None::<int>))
}

/// The view of slot positions.
pub open spec fn slots_view(v: Seq<Option<usize>>) -> Seq<Option<int>> {
    v.map_values(|o: Option<usize>| match o {
        Some(x) => Some(x as int),
        None => None::<int>,
    })
}

proof fn lemma_first_index(s: Seq<Seq<char>>, x: Seq<char>)
    ensures
        0 <= first_index(s, x) <= s.len(),
        first_index(s, x) < s.len() ==> s[first_index(s, x)] == x,
        forall|m: int| 0 <= m < first_index(s, x) ==> s[m] != x,
    decreases s.len(),
{
    if s.len() > 0 && s[0] != x {
        lemma_first_index(s.drop_first(), x);
        assert forall|m: int| 0 <= m < first_index(s, x) implies s[m] != x by {
            if m > 0 {
                assert(s[m] == s.drop_first()[m - 1]);
            }
        }
    }
}

/// The position of the first `key` in `names`, or `names.len()`.
fn find_name(names: &Vec<String>, key: &str) -> (j: usize)
    ensures
        j == first_index(views(names@), key@),
{
    proof {
        lemma_first_index(views(names@), key@);
    }
    let mut j: usize = 0;
    while j < names.len()
        invariant
            j <= names@.len(),
            forall|m: int| 0 <= m < j ==> names@[m]@ != key@,
            0 <= first_index(views(names@), key@) <= names@.len(),
            first_index(views(names@), key@) < names@.len() ==> views(names@)[first_index(views(names@), key@)] == key@,
            forall|m: int| 0 <= m < first_index(views(names@), key@) ==> views(names@)[m] != key@,
        decreases names@.len() - j,
    {
        if str_eq(names[j].as_str(), key) {
            assert(views(names@)[j as int] == key@);
            return j;
        }
        j = j + 1;
    }
    j
}

/// Assigns each setting key to the allowed key it names: for each allowed key,
/// the position of the setting that gives it.
pub fn assign_settings(keys: &Vec<String>, allowed: &Vec<String>, allow_repeats: bool) -> (r: Result<Vec<Option<usize>>, SettingsError>)
    ensures
        match r {
            Ok(slots) => settings_spec(views(keys@), views(allowed@), allow_repeats) == Ok::<Seq<Option<int>>, SettingsErrorView>(slots_view(slots@))
                && slots@.len() == allowed@.len()
                && forall|m: int| 0 <= m < slots@.len() ==> (#[trigger] slots@[m] matches Some(x) ==> x < keys@.len()),
            Err(e) => settings_spec(views(keys@), views(allowed@), allow_repeats) == Err::<Seq<Option<int>>, SettingsErrorView>(settings_error_view(e)),
        },
{
    let mut slots: Vec<Option<usize>> = Vec::new();
    let mut j: usize = 0;
    while j < allowed.len()
        invariant
            j <= allowed@.len(),
            slots@.len() == j,
            forall|m: int| 0 <= m < j ==> slots@[m] is None,
        decreases allowed@.len() - j,
    {
        slots.push(None);
        j = j + 1;
    }
    assert(slots_view(slots@) =~= Seq::new(allowed@.len(), |j: int| None::<int>));
    let mut i: usize = 0;
    while i < keys.len()
        invariant
            i <= keys@.len(),
            slots@.len() == allowed@.len(),
            forall|m: int| 0 <= m < slots@.len() ==> (#[trigger] slots@[m] matches Some(x) ==> x < i),
            settings_scan(views(keys@), views(allowed@), allow_repeats, i as int, slots_view(slots@)) == settings_spec(views(keys@), views(allowed@), allow_repeats),
        decreases keys@.len() - i,
    {
        let k = keys[i].as_str();
        let j = find_name(allowed, k);
        assert(views(keys@)[i as int] == k@);
        if j >= allowed.len() {
            return Err(SettingsError::UnknownField(k.to_owned()));
        }
        if slots[j].is_some() && !allow_repeats {
            return Err(SettingsError::RepeatedField(k.to_owned()));
        }
        let ghost before = slots_view(slots@);
        slots.set(j, Some(i));
        assert(slots_view(slots@) =~= before.update(j as int, Some(i as int)));
        i = i + 1;
    }
    Ok(slots)
}

} // verus!

verus! {

/// The allowed keys `a`, `b`, `c`, as owned strings.
fn names3(a: &str, b: &str, c: &str) -> (v: Vec<String>)
    ensures
        views(v@) == seq![a@, b@, c@],
{
    let mut v: Vec<String> = Vec::new();
    v.push(a.to_owned());
    v.push(b.to_owned());
    v.push(c.to_owned());
    assert(views(v@) =~= seq![a@, b@, c@]);
    v
}

/// An HTTP route of the guest macro: its path, its path parameters, its
/// method, and the text of its request and reply types.
#[derive(Clone, Debug, PartialEq, Eq)]
pub struct RouteSpec {
    pub path: String,
    pub params: Vec<String>,
    pub method: String,
    pub request: String,
    pub reply: String,
}

/// Why a route was refused.
#[derive(Clone, Debug, PartialEq, Eq)]
pub enum RouteError {
    Settings(SettingsError),
    Method(MethodError),
    PathParams(PathParamError),
}

/// The settings of a route by views: the positions of `method`, `request` and
/// `reply` among the keys, or the error.
pub open spec fn route_slots(keys: Seq<Seq<char>>, allow_repeats: bool) -> Result<Seq<Option<int>>, SettingsErrorView> {
    settings_spec(keys, seq!["method"@, "request"@, "reply"@], allow_repeats)
}

/// Reads a route of the guest macro's `http` list: the path, then the keys of
/// its settings with the text of each value. The settings may name `method`
/// (`get` or `post`, `get` when absent), and must name `request` and `reply`;
/// the path's parameters are read by [`parse_path_params`]. A repeated key is
/// refused unless `allow_repeats`, in which case the last one counts.
pub fn parse_route(path: &str, keys: &Vec<String>, values: &Vec<String>, allow_repeats: bool) -> (r: Result<RouteSpec, RouteError>)
    requires
        keys@.len() == values@.len(),
    ensures
        match route_slots(views(keys@), allow_repeats) {
            Err(e) => r matches Err(RouteError::Settings(x)) && settings_error_view(x) == e,
            Ok(slots) => {
                let method = match slots[0] {
                    Some(m) => route_method_spec(Some(values@[m]@)),
                    None => route_method_spec(None),
                };
                if method is None {
                    r matches Err(RouteError::Method(_))
                } else if slots[1] is None {
                    r matches Err(RouteError::Settings(SettingsError::MissingField(k))) && k@ == "request"@
                } else if slots[2] is None {
                    r matches Err(RouteError::Settings(SettingsError::MissingField(k))) && k@ == "reply"@
                } else {
                    match path_params_spec(path@) {
                        PathParamsView::Params(ps) => r matches Ok(route) && route.path@ == path@
                            && views(route.params@) == ps && Some(route.method@) == method
                            && route.request@ == values@[slots[1]->0]@ && route.reply@
                            == values@[slots[2]->0]@,
                        _ => r matches Err(RouteError::PathParams(e)) && path_params_view(Err(e)) == path_params_spec(path@),
                    }
                }
            },
        },
{
    let allowed = names3("method", "request", "reply");
    let slots = match assign_settings(keys, &allowed, allow_repeats) {
        Ok(s) => s,
        Err(e) => return Err(RouteError::Settings(e)),
    };
    assert(slots_view(slots@)[0] == match slots@[0] { Some(x) => Some(x as int), None => None::<int> });
    assert(slots_view(slots@)[1] == match slots@[1] { Some(x) => Some(x as int), None => None::<int> });
    assert(slots_view(slots@)[2] == match slots@[2] { Some(x) => Some(x as int), None => None::<int> });
    assert(views(allowed@) == seq!["method"@, "request"@, "reply"@]);
    let method = match slots[0] {
        Some(m) => route_method(Some(values[m].as_str())),
        None => route_method(None),
    };
    let method = match method {
        Ok(m) => m,
        Err(e) => return Err(RouteError::Method(e)),
    };
    let request = match slots[1] {
        Some(q) => values[q].clone(),
        None => return Err(RouteError::Settings(SettingsError::MissingField("request".to_owned()))),
    };
    let reply = match slots[2] {
        Some(p) => values[p].clone(),
        None => return Err(RouteError::Settings(SettingsError::MissingField("reply".to_owned()))),
    };
    let params = match parse_path_params(path) {
        Ok(ps) => ps,
        Err(e) => return Err(RouteError::PathParams(e)),
    };
    Ok(RouteSpec { path: path.to_owned(), params, method, request, reply })
}

} // verus!

verus! {

/// Reads a route of the `http` list where each setting may be given once and
/// the path parameters are the `{name}` patterns of [`extract_params`]. The
/// settings may name `method` (`get` or `post`, `get` when absent), and must
/// name `request` and `reply`.
pub fn parse_route_strict(path: &str, keys: &Vec<String>, values: &Vec<String>) -> (r: Result<RouteSpec, RouteError>)
    requires
        keys@.len() == values@.len(),
    ensures
        match route_slots(views(keys@), false) {
            Err(e) => r matches Err(RouteError::Settings(x)) && settings_error_view(x) == e,
            Ok(slots) => {
                let method = match slots[0] {
                    Some(m) => route_method_spec(Some(values@[m]@)),
                    None => route_method_spec(None),
                };
                if method is None {
                    r matches Err(RouteError::Method(_))
                } else if slots[1] is None {
                    r matches Err(RouteError::Settings(SettingsError::MissingField(k))) && k@ == "request"@
                } else if slots[2] is None {
                    r matches Err(RouteError::Settings(SettingsError::MissingField(k))) && k@ == "reply"@
                } else {
                    r matches Ok(route) && route.path@ == path@ && views(route.params@)
                        == extract_params_from(path@, 0) && Some(route.method@) == method
                        && route.request@ == values@[slots[1]->0]@ && route.reply@
                        == values@[slots[2]->0]@
                }
            },
        },
{
    let allowed = names3("method", "request", "reply");
    let slots = match assign_settings(keys, &allowed, false) {
        Ok(s) => s,
        Err(e) => return Err(RouteError::Settings(e)),
    };
    assert(slots_view(slots@)[0] == match slots@[0] { Some(x) => Some(x as int), None => None::<int> });
    assert(slots_view(slots@)[1] == match slots@[1] { Some(x) => Some(x as int), None => None::<int> });
    assert(slots_view(slots@)[2] == match slots@[2] { Some(x) => Some(x as int), None => None::<int> });
    let method = match slots[0] {
        Some(m) => route_method(Some(values[m].as_str())),
        None => route_method(None),
    };
    let method = match method {
        Ok(m) => m,
        Err(e) => return Err(RouteError::Method(e)),
    };
    let request = match slots[1] {
        Some(q) => values[q].clone(),
        None => return Err(RouteError::Settings(SettingsError::MissingField("request".to_owned()))),
    };
    let reply = match slots[2] {
        Some(p) => values[p].clone(),
        None => return Err(RouteError::Settings(SettingsError::MissingField("reply".to_owned()))),
    };
    let params = extract_params(path);
    Ok(RouteSpec { path: path.to_owned(), params, method, request, reply })
}

/// A messaging topic of the guest macro: its pattern and the text of its message type.
#[derive(Clone, Debug, PartialEq, Eq)]
pub struct TopicSpec {
    pub pattern: String,
    pub message: String,
}

/// Reads a topic of the `messaging` list: its pattern, then the keys of its
/// settings with the text of each value; the settings must name `message`. A
/// repeated key is refused unless `allow_repeats`, in which case the last one counts.
pub fn parse_topic(pattern: &str, keys: &Vec<String>, values: &Vec<String>, allow_repeats: bool) -> (r: Result<TopicSpec, SettingsError>)
    requires
        keys@.len() == values@.len(),
    ensures
        match settings_spec(views(keys@), seq!["message"@], allow_repeats) {
            Err(e) => r matches Err(x) && settings_error_view(x) == e,
            Ok(slots) => match slots[0] {
                None => r matches Err(SettingsError::MissingField(k)) && k@ == "message"@,
                Some(m) => r matches Ok(t) && t.pattern@ == pattern@ && t.message@ == values@[m]@,
            },
        },
{
    let mut allowed: Vec<String> = Vec::new();
    allowed.push("message".to_owned());
    assert(views(allowed@) =~= seq!["message"@]);
    let slots = match assign_settings(keys, &allowed, allow_repeats) {
        Ok(s) => s,
        Err(e) => return Err(e),
    };
    assert(slots_view(slots@)[0] == match slots@[0] { Some(x) => Some(x as int), None => None::<int> });
    match slots[0] {
        Some(m) => Ok(TopicSpec { pattern: pattern.to_owned(), message: values[m].clone() }),
        None => Err(SettingsError::MissingField("message".to_owned())),
    }
}

/// The settings of the guest macro's input: the positions of `owner` and
/// `provider`, and of `http` and `messaging` when given.
#[derive(Clone, Copy, Debug, PartialEq, Eq)]
pub struct InputSettings {
    pub owner: usize,
    pub provider: usize,
    pub http: Option<usize>,
    pub messaging: Option<usize>,
}

/// Reads the keys of the guest macro's input: `owner`, `provider`, `http` and
/// `messaging`, the last of a repeated key counting; `owner` and `provider`
/// are required.
pub fn parse_input_settings(keys: &Vec<String>) -> (r: Result<InputSettings, SettingsError>)
    ensures
        match settings_spec(views(keys@), seq!["owner"@, "provider"@, "http"@, "messaging"@], true) {
            Err(e) => r matches Err(x) && settings_error_view(x) == e,
            Ok(slots) => if slots[0] is None {
                r matches Err(SettingsError::MissingField(k)) && k@ == "owner"@
            } else if slots[1] is None {
                r matches Err(SettingsError::MissingField(k)) && k@ == "provider"@
            } else {
                r matches Ok(s) && Some(s.owner as int) == slots[0] && Some(s.provider as int)
                    == slots[1] && slots_view(seq![s.http, s.messaging]) == seq![slots[2], slots[3]]
            },
        },
{
    let mut allowed: Vec<String> = Vec::new();
    allowed.push("owner".to_owned());
    allowed.push("provider".to_owned());
    allowed.push("http".to_owned());
    allowed.push("messaging".to_owned());
    assert(views(allowed@) =~= seq!["owner"@, "provider"@, "http"@, "messaging"@]);
    let slots = match assign_settings(keys, &allowed, true) {
        Ok(s) => s,
        Err(e) => return Err(e),
    };
    assert(slots_view(slots@)[0] == match slots@[0] { Some(x) => Some(x as int), None => None::<int> });
    assert(slots_view(slots@)[1] == match slots@[1] { Some(x) => Some(x as int), None => None::<int> });
    assert(slots_view(slots@)[2] == match slots@[2] { Some(x) => Some(x as int), None => None::<int> });
    assert(slots_view(slots@)[3] == match slots@[3] { Some(x) => Some(x as int), None => None::<int> });
    let owner = match slots[0] {
        Some(o) => o,
        None => return Err(SettingsError::MissingField("owner".to_owned())),
    };
    let provider = match slots[1] {
        Some(p) => p,
        None => return Err(SettingsError::MissingField("provider".to_owned())),
    };
    let s = InputSettings { owner, provider, http: slots[2], messaging: slots[3] };
    assert(slots_view(seq![s.http, s.messaging]) =~= seq![slots_view(slots@)[2], slots_view(slots@)[3]]);
    Ok(s)
}

/// A host interface of the runtime and the backend that serves it, by the
/// text of their types.
#[derive(Clone, Debug)]
pub struct HostBinding {
    pub host_type: String,
    pub backend: String,
}

/// What the runtime's build macro generates, by identifiers and type texts:
/// a context field per distinct backend (named by the backend's type), and
/// per host a store field (named by the host's module) that clones the
/// backend's context field, the host interface implemented, and the host
/// module whose view macro is invoked.
#[derive(Clone, Debug)]
pub struct BuildPlan {
    /// Context fields: (field name, backend type).
    pub context_fields: Vec<(String, String)>,
    /// Store fields: (host module, backend type).
    pub store_fields: Vec<(String, String)>,
    /// Store values: (host module, backend context field cloned into it).
    pub store_values: Vec<(String, String)>,
    /// The host interfaces implemented, in order.
    pub host_types: Vec<String>,
    /// The host modules whose view macro is invoked, in order.
    pub view_modules: Vec<String>,
    /// Whether a `main` function is generated.
    pub gen_main: bool,
}

/// A list of pairs by views.
pub open spec fn pairs_view(v: Seq<(String, String)>) -> Seq<(Seq<char>, Seq<char>)> {
    v.map_values(|p: (String, String)| (p.0@, p.1@))
}

/// The host bindings by views.
pub open spec fn bindings_view(v: Seq<HostBinding>) -> Seq<(Seq<char>, Seq<char>)> {
    v.map_values(|h: HostBinding| (h.host_type@, h.backend@))
}

/// Appends `(a, b)` to a list of pairs.
fn push_pair(v: &mut Vec<(String, String)>, a: String, b: String)
    ensures
        pairs_view(final(v)@) == pairs_view(old(v)@).push((a@, b@)),
{
    let ghost before = v@;
    v.push((a, b));
    assert(pairs_view(v@) =~= pairs_view(before).push((a@, b@)));
}

/// Plans what the build macro generates for `backends` and `hosts`.
pub fn build_plan(backends: &Vec<String>, hosts: &Vec<HostBinding>, gen_main: bool) -> (p: BuildPlan)
    ensures
        pairs_view(p.context_fields@) == distinct_spec(views(backends@)).map_values(|b: Seq<char>| (b, b)),
        pairs_view(p.store_fields@) == bindings_view(hosts@).map_values(
            |h: (Seq<char>, Seq<char>)| (wasi_ident_spec(h.0), h.1),
        ),
        pairs_view(p.store_values@) == pairs_view(p.store_fields@),
        views(p.host_types@) == bindings_view(hosts@).map_values(|h: (Seq<char>, Seq<char>)| h.0),
        views(p.view_modules@) == bindings_view(hosts@).map_values(
            |h: (Seq<char>, Seq<char>)| wasi_ident_spec(h.0),
        ),
        p.gen_main == gen_main,
{
    let distinct = distinct_backends(backends);
    let mut context_fields: Vec<(String, String)> = Vec::new();
    let mut i: usize = 0;
    while i < distinct.len()
        invariant
            i <= distinct@.len(),
            pairs_view(context_fields@) == views(distinct@).take(i as int).map_values(|b: Seq<char>| (b, b)),
        decreases distinct@.len() - i,
    {
        push_pair(&mut context_fields, distinct[i].clone(), distinct[i].clone());
        assert(views(distinct@).take(i + 1).map_values(|b: Seq<char>| (b, b)) =~= views(distinct@).take(
            i as int,
        ).map_values(|b: Seq<char>| (b, b)).push((distinct@[i as int]@, distinct@[i as int]@)));
        i = i + 1;
    }
    assert(views(distinct@).take(distinct@.len() as int) =~= views(distinct@));
    let ghost hv = bindings_view(hosts@);
    let mut store_fields: Vec<(String, String)> = Vec::new();
    let mut store_values: Vec<(String, String)> = Vec::new();
    let mut host_types: Vec<String> = Vec::new();
    let mut view_modules: Vec<String> = Vec::new();
    let mut j: usize = 0;
    while j < hosts.len()
        invariant
            j <= hosts@.len(),
            hv == bindings_view(hosts@),
            pairs_view(store_fields@) == hv.take(j as int).map_values(|h: (Seq<char>, Seq<char>)| (wasi_ident_spec(h.0), h.1)),
            pairs_view(store_values@) == pairs_view(store_fields@),
            views(host_types@) == hv.take(j as int).map_values(|h: (Seq<char>, Seq<char>)| h.0),
            views(view_modules@) == hv.take(j as int).map_values(|h: (Seq<char>, Seq<char>)| wasi_ident_spec(h.0)),
        decreases hosts@.len() - j,
    {
        let host = &hosts[j];
        let ident = wasi_ident(host.host_type.as_str());
        push_pair(&mut store_fields, ident.clone(), host.backend.clone());
        push_pair(&mut store_values, ident.clone(), host.backend.clone());
        let ghost ht = host_types@;
        host_types.push(host.host_type.clone());
        let ghost vm = view_modules@;
        view_modules.push(ident);
        assert(views(host_types@) =~= views(ht).push(hosts@[j as int].host_type@));
        assert(views(view_modules@) =~= views(vm).push(wasi_ident_spec(hosts@[j as int].host_type@)));
        assert(hv.take(j + 1) =~= hv.take(j as int).push(hv[j as int]));
        assert(hv.take(j + 1).map_values(|h: (Seq<char>, Seq<char>)| (wasi_ident_spec(h.0), h.1)) =~= hv.take(
            j as int,
        ).map_values(|h: (Seq<char>, Seq<char>)| (wasi_ident_spec(h.0), h.1)).push(
            (wasi_ident_spec(hv[j as int].0), hv[j as int].1),
        ));
        assert(hv.take(j + 1).map_values(|h: (Seq<char>, Seq<char>)| h.0) =~= hv.take(j as int).map_values(
            |h: (Seq<char>, Seq<char>)| h.0,
        ).push(hv[j as int].0));
        assert(hv.take(j + 1).map_values(|h: (Seq<char>, Seq<char>)| wasi_ident_spec(h.0)) =~= hv.take(
            j as int,
        ).map_values(|h: (Seq<char>, Seq<char>)| wasi_ident_spec(h.0)).push(wasi_ident_spec(hv[j as int].0)));
        j = j + 1;
    }
    assert(hv.take(hosts@.len() as int) =~= hv);
    BuildPlan { context_fields, store_fields, store_values, host_types, view_modules, gen_main }
}

/// Scanning from an accumulator without duplicates gives parameters without
/// duplicates.
proof fn lemma_scan_distinct(s: Seq<char>, i: int, acc: Seq<Seq<char>>)
    requires
        acc.no_duplicates(),
    ensures
        scan_params(s, i, acc) matches PathParamsView::Params(ps) ==> ps.no_duplicates(),
    decreases s.len() - i, 0int,
{
    if 0 <= i < s.len() {
        if s[i] == '{' {
            let k = next_brace(s, i + 1);
            if k < s.len() && s[k] != '{' {
                let name = trimmed(s.subrange(i + 1, k));
                if name.len() > 0 && is_rust_ident(name) && !acc.contains(name) && k + 1 > i {
                    assert(acc.push(name).no_duplicates()) by {
                        assert forall|a: int, b: int| 0 <= a < b < acc.push(name).len() implies acc.push(name)[a] != acc.push(name)[b] by {
                            if b == acc.len() {
                                assert(acc.contains(acc[a]));
                            }
                        }
                    }
                    lemma_scan_distinct(s, k + 1, acc.push(name));
                }
            }
        } else if s[i] != '}' {
            lemma_scan_distinct(s, i + 1, acc);
        }
    }
}

/// A route path's parameters are distinct: a name given twice is refused.
pub proof fn lemma_path_params_distinct(path: Seq<char>)
    ensures
        path_params_spec(path) matches PathParamsView::Params(ps) ==> ps.no_duplicates(),
{
    lemma_scan_distinct(path, 0, Seq::empty());
}

/// The build macro generates one context field per backend, never two of the
/// same name.
pub proof fn lemma_context_fields_distinct(backends: Seq<Seq<char>>)
    ensures
        distinct_spec(backends).map_values(|b: Seq<char>| (b, b)).no_duplicates(),
{
    lemma_distinct_no_duplicates(backends);
    let d = distinct_spec(backends);
    let m = d.map_values(|b: Seq<char>| (b, b));
    assert forall|a: int, b: int| 0 <= a < b < m.len() implies m[a] != m[b] by {
        assert(d[a] != d[b]);
    }
}

} // verus!
