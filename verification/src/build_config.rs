//! The configuration of the runtime build macro: components and the
//! resources each one uses.

use vstd::prelude::*;
use crate::buildgen::{is_rust_ident, parses_as_ident};
use crate::text::{chars_of, string_of_range, views};

verus! {

/// One component of a runtime: its name and the resources it uses.
#[derive(Debug, Default, Clone)]
pub struct Component {
    pub name: String,
    pub resources: Vec<String>,
}

/// The components of a runtime, in the order given.
#[derive(Debug, Default, Clone)]
pub struct Config {
    components: Vec<Component>,
}

impl Config {
    /// The components, in order.
    pub closed spec fn spec_components(&self) -> Seq<Component> {
        self.components@
    }

    /// A configuration with no components.
    pub fn new() -> (c: Config)
        ensures
            c.spec_components() == Seq::<Component>::empty(),
    {
        Config { components: Vec::new() }
    }

    /// Adds a component after those already given.
    pub fn push(&mut self, component: Component)
        ensures
            final(self).spec_components() == old(self).spec_components().push(component),
    {
        self.components.push(component);
    }

    /// The components, in order.
    pub fn components(&self) -> (c: &Vec<Component>)
        ensures
            c@ == self.spec_components(),
    {
        &self.components
    }
}

/// A token of the macro's input: one of `{ } [ ] : ,`, or a word (a run of
/// other characters without white space).
#[derive(Debug, Clone)]
pub enum ConfigToken {
    Punct(char),
    Word(String),
}

/// A token by views.
pub enum TokenView {
    Punct(char),
    Word(Seq<char>),
}

/// The view of a token.
pub open spec fn token_view(t: ConfigToken) -> TokenView {
    match t {
        ConfigToken::Punct(c) => TokenView::Punct(c),
        ConfigToken::Word(w) => TokenView::Word(w@),
    }
}

/// The views of tokens.
pub open spec fn tokens_view(v: Seq<ConfigToken>) -> Seq<TokenView> {
    v.map_values(|t: ConfigToken| token_view(t))
}

/// Whether `c` is a punctuation token.
pub open spec fn is_punct(c: char) -> bool {
    c == '{' || c == '}' || c == '[' || c == ']' || c == ':' || c == ','
}

/// Whether `c` separates tokens.
pub open spec fn is_space(c: char) -> bool {
    c == ' ' || c == '\t' || c == '\n' || c == '\r'
}

/// The end of the word that starts at `i`.
pub open spec fn word_end(s: Seq<char>, i: int) -> int
    decreases s.len() - i,
{
    if i >= s.len() || i < 0 || is_punct(s[i]) || is_space(s[i]) {
        i
    } else {
        word_end(s, i + 1)
    }
}

/// The tokens of `s` from position `i`.
pub open spec fn tokens_from(s: Seq<char>, i: int) -> Seq<TokenView>
    decreases s.len() - i, 1int,
{
    if i >= s.len() || i < 0 {
        Seq::empty()
    } else if is_space(s[i]) {
        tokens_from(s, i + 1)
    } else if is_punct(s[i]) {
        seq![TokenView::Punct(s[i])] + tokens_from(s, i + 1)
    } else {
        let j = word_end(s, i);
        if i < j <= s.len() {
            seq![TokenView::Word(s.subrange(i, j))] + tokens_from(s, j)
        } else {
            Seq::empty()
        }
    }
}

/// The word end is after the start and at most the length.
proof fn lemma_word_end(s: Seq<char>, i: int)
    requires
        0 <= i <= s.len(),
    ensures
        i <= word_end(s, i) <= s.len(),
        forall|k: int| i <= k < word_end(s, i) ==> !is_punct(s[k]) && !is_space(s[k]),
        word_end(s, i) < s.len() ==> is_punct(s[word_end(s, i)]) || is_space(s[word_end(s, i)]),
    decreases s.len() - i,
{
    if i < s.len() && !is_punct(s[i]) && !is_space(s[i]) {
        lemma_word_end(s, i + 1);
    }
}

fn is_punct_char(c: char) -> (b: bool)
    ensures
        b == is_punct(c),
{
    c == '{' || c == '}' || c == '[' || c == ']' || c == ':' || c == ','
}

fn is_space_char(c: char) -> (b: bool)
    ensures
        b == is_space(c),
{
    c == ' ' || c == '\t' || c == '\n' || c == '\r'
}

/// Splits the macro's input into tokens.
pub fn tokenize(text: &str) -> (toks: Vec<ConfigToken>)
    ensures
        tokens_view(toks@) == tokens_from(text@, 0),
{
    let chars = chars_of(text);
    let ghost s = text@;
    let mut toks: Vec<ConfigToken> = Vec::new();
    let mut i: usize = 0;
    assert(tokens_view(toks@) + tokens_from(s, 0) =~= tokens_from(s, 0));
    while i < chars.len()
        invariant
            s == text@,
            chars@ == s,
            i <= s.len(),
            tokens_view(toks@) + tokens_from(s, i as int) == tokens_from(s, 0),
        decreases s.len() - i,
    {
        let c = chars[i];
        if is_space_char(c) {
            i = i + 1;
        } else if is_punct_char(c) {
            let ghost before = toks@;
            toks.push(ConfigToken::Punct(c));
            assert(tokens_view(toks@) =~= tokens_view(before).push(TokenView::Punct(c)));
            assert(tokens_view(toks@) + tokens_from(s, i + 1) =~= tokens_view(before) + tokens_from(s, i as int));
            i = i + 1;
        } else {
            let mut j: usize = i + 1;
            while j < chars.len() && !is_punct_char(chars[j]) && !is_space_char(chars[j])
                invariant
                    chars@ == s,
                    i < j <= s.len(),
                    word_end(s, i as int) == word_end(s, j as int),
                decreases s.len() - j,
            {
                j = j + 1;
            }
            proof {
                lemma_word_end(s, i as int);
            }
            let word = string_of_range(chars.as_slice(), i, j);
            let ghost before = toks@;
            toks.push(ConfigToken::Word(word));
            assert(tokens_view(toks@) =~= tokens_view(before).push(TokenView::Word(s.subrange(i as int, j as int))));
            assert(tokens_view(toks@) + tokens_from(s, j as int) =~= tokens_view(before) + tokens_from(s, i as int));
            i = j;
        }
    }
    assert(tokens_from(s, i as int) =~= Seq::<TokenView>::empty());
    assert(tokens_view(toks@) =~= tokens_view(toks@) + tokens_from(s, i as int));
    toks
}

/// Why the macro's input was refused, by token position.
#[derive(Debug, Clone, Copy, PartialEq, Eq)]
pub enum ConfigParseError {
    /// The input does not start with `{`.
    ExpectedObject,
    /// The word at this position is not an identifier.
    InvalidIdent(usize),
    /// The token at this position (or the end, at the number of tokens) is
    /// not what the grammar allows there.
    Unexpected(usize),
}

/// A parse error by views.
pub enum ParseErr {
    ExpectedObject,
    InvalidIdent(int),
    Unexpected(int),
}

/// The view of a parse error.
pub open spec fn parse_err_view(e: ConfigParseError) -> ParseErr {
    match e {
        ConfigParseError::ExpectedObject => ParseErr::ExpectedObject,
        ConfigParseError::InvalidIdent(i) => ParseErr::InvalidIdent(i as int),
        ConfigParseError::Unexpected(i) => ParseErr::Unexpected(i as int),
    }
}

/// A component by views: its name and resources.
pub type ComponentView = (Seq<char>, Seq<Seq<char>>);

/// The view of a component.
pub open spec fn component_view(c: Component) -> ComponentView {
    (c.name@, views(c.resources@))
}

/// Whether token `i` is the punctuation `c`.
pub open spec fn tok_is(t: Seq<TokenView>, i: int, c: char) -> bool {
    0 <= i < t.len() && t[i] == TokenView::Punct(c)
}

/// The word at token `i`, if it is one.
pub open spec fn word_at(t: Seq<TokenView>, i: int) -> Option<Seq<char>> {
    if 0 <= i < t.len() {
        match t[i] {
            TokenView::Word(w) => Some(w),
            TokenView::Punct(_) => None,
        }
    } else {
        None
    }
}

/// The resource names from token `i` up to the closing `]`, after `acc`,
/// separated by commas with an optional trailing one; with the position of
/// the `]`.
pub open spec fn idents_from(t: Seq<TokenView>, i: int, acc: Seq<Seq<char>>) -> Result<(Seq<Seq<char>>, int), ParseErr>
    decreases t.len() - i,
{
    if i < 0 {
        Err(ParseErr::Unexpected(i))
    } else if tok_is(t, i, ']') {
        Ok((acc, i))
    } else {
        match word_at(t, i) {
            None => Err(ParseErr::Unexpected(i)),
            Some(w) => if !is_rust_ident(w) {
                Err(ParseErr::InvalidIdent(i))
            } else if tok_is(t, i + 1, ']') {
                Ok((acc.push(w), i + 1))
            } else if tok_is(t, i + 1, ',') {
                idents_from(t, i + 2, acc.push(w))
            } else {
                Err(ParseErr::Unexpected(i + 1))
            },
        }
    }
}

/// The component at token `i`: `name : [ resources ]`, with the position
/// after its `]`.
pub open spec fn component_at(t: Seq<TokenView>, i: int) -> Result<(ComponentView, int), ParseErr> {
    match word_at(t, i) {
        None => Err(ParseErr::Unexpected(i)),
        Some(name) => if !is_rust_ident(name) {
            Err(ParseErr::InvalidIdent(i))
        } else if !tok_is(t, i + 1, ':') {
            Err(ParseErr::Unexpected(i + 1))
        } else if !tok_is(t, i + 2, '[') {
            Err(ParseErr::Unexpected(i + 2))
        } else {
            match idents_from(t, i + 3, Seq::empty()) {
                Err(e) => Err(e),
                Ok((names, k)) => Ok(((name, names), k + 1)),
            }
        },
    }
}

/// The components from token `i` up to the closing `}`, after `acc`,
/// separated by commas with an optional trailing one; with the position of
/// the `}`.
pub open spec fn components_from(t: Seq<TokenView>, i: int, acc: Seq<ComponentView>) -> Result<(Seq<ComponentView>, int), ParseErr>
    decreases t.len() - i,
{
    if i < 0 {
        Err(ParseErr::Unexpected(i))
    } else if tok_is(t, i, '}') {
        Ok((acc, i))
    } else {
        match component_at(t, i) {
            Err(e) => Err(e),
            Ok((c, j)) => if tok_is(t, j, '}') {
                Ok((acc.push(c), j))
            } else if tok_is(t, j, ',') && j >= i {
                components_from(t, j + 1, acc.push(c))
            } else {
                Err(ParseErr::Unexpected(j))
            },
        }
    }
}

/// The configuration the tokens `t` give: `{`, the components, `}`, and
/// nothing after.
pub open spec fn config_spec(t: Seq<TokenView>) -> Result<Seq<ComponentView>, ParseErr> {
    if !tok_is(t, 0, '{') {
        Err(ParseErr::ExpectedObject)
    } else {
        match components_from(t, 1, Seq::empty()) {
            Err(e) => Err(e),
            Ok((cs, k)) => if k + 1 == t.len() {
                Ok(cs)
            } else {
                Err(ParseErr::Unexpected(k + 1))
            },
        }
    }
}

/// Whether token `i` is the punctuation `c`.
fn token_is(toks: &Vec<ConfigToken>, i: usize, c: char) -> (b: bool)
    ensures
        b == tok_is(tokens_view(toks@), i as int, c),
        b ==> i < toks@.len(),
        toks@.len() <= usize::MAX,
{
    if i < toks.len() {
        match &toks[i] {
            ConfigToken::Punct(p) => *p == c,
            ConfigToken::Word(_) => false,
        }
    } else {
        false
    }
}

/// The word at token `i`, if it is one.
fn word_token(toks: &Vec<ConfigToken>, i: usize) -> (w: Option<String>)
    ensures
        w is Some ==> i < toks@.len(),
        toks@.len() <= usize::MAX,
        match w {
            Some(x) => word_at(tokens_view(toks@), i as int) == Some(x@),
            None => word_at(tokens_view(toks@), i as int) is None,
        },
{
    if i < toks.len() {
        match &toks[i] {
            ConfigToken::Word(x) => Some(x.clone()),
            ConfigToken::Punct(_) => None,
        }
    } else {
        None
    }
}

/// Reads the resource names from token `i`.
fn parse_idents(toks: &Vec<ConfigToken>, i: usize, acc: Vec<String>) -> (r: Result<(Vec<String>, usize), ConfigParseError>)
    requires
        i <= toks@.len(),
    ensures
        r matches Ok((_, k)) ==> i <= k < toks@.len(),
        match r {
            Ok((names, k)) => idents_from(tokens_view(toks@), i as int, views(acc@)) == Ok::<(Seq<Seq<char>>, int), ParseErr>(
                (views(names@), k as int),
            ),
            Err(e) => idents_from(tokens_view(toks@), i as int, views(acc@)) == Err::<(Seq<Seq<char>>, int), ParseErr>(
                parse_err_view(e),
            ),
        },
    decreases toks@.len() - i,
{
    if token_is(toks, i, ']') {
        return Ok((acc, i));
    }
    let w = match word_token(toks, i) {
        Some(w) => w,
        None => return Err(ConfigParseError::Unexpected(i)),
    };
    if !parses_as_ident(w.as_str()) {
        return Err(ConfigParseError::InvalidIdent(i));
    }
    let mut acc = acc;
    let ghost before = acc@;
    acc.push(w);
    assert(views(acc@) =~= views(before).push(w@));
    if token_is(toks, i + 1, ']') {
        Ok((acc, i + 1))
    } else if token_is(toks, i + 1, ',') {
        parse_idents(toks, i + 2, acc)
    } else {
        Err(ConfigParseError::Unexpected(i + 1))
    }
}

/// Reads the component at token `i`.
fn parse_component(toks: &Vec<ConfigToken>, i: usize) -> (r: Result<(Component, usize), ConfigParseError>)
    requires
        i <= toks@.len(),
    ensures
        r matches Ok((_, j)) ==> i < j <= toks@.len(),
        match r {
            Ok((c, j)) => component_at(tokens_view(toks@), i as int) == Ok::<(ComponentView, int), ParseErr>(
                (component_view(c), j as int),
            ),
            Err(e) => component_at(tokens_view(toks@), i as int) == Err::<(ComponentView, int), ParseErr>(
                parse_err_view(e),
            ),
        },
{
    let name = match word_token(toks, i) {
        Some(w) => w,
        None => return Err(ConfigParseError::Unexpected(i)),
    };
    if !parses_as_ident(name.as_str()) {
        return Err(ConfigParseError::InvalidIdent(i));
    }
    if !token_is(toks, i + 1, ':') {
        return Err(ConfigParseError::Unexpected(i + 1));
    }
    if !token_is(toks, i + 2, '[') {
        return Err(ConfigParseError::Unexpected(i + 2));
    }
    let empty: Vec<String> = Vec::new();
    assert(views(empty@) =~= Seq::<Seq<char>>::empty());
    match parse_idents(toks, i + 3, empty) {
        Err(e) => Err(e),
        Ok((resources, k)) => Ok((Component { name, resources }, k + 1)),
    }
}

/// Where `idents_from` ends: at a `]` at or after `i`.
proof fn lemma_idents_end(t: Seq<TokenView>, i: int, acc: Seq<Seq<char>>)
    ensures
        idents_from(t, i, acc) matches Ok((_, k)) ==> i <= k && tok_is(t, k, ']'),
    decreases t.len() - i,
{
    if i >= 0 && !tok_is(t, i, ']') {
        if let Some(w) = word_at(t, i) {
            if is_rust_ident(w) && !tok_is(t, i + 1, ']') && tok_is(t, i + 1, ',') {
                lemma_idents_end(t, i + 2, acc.push(w));
            }
        }
    }
}

/// Reads the components from token `i`.
fn parse_components(toks: &Vec<ConfigToken>, i: usize, acc: Vec<Component>) -> (r: Result<(Vec<Component>, usize), ConfigParseError>)
    requires
        i <= toks@.len(),
    ensures
        r matches Ok((_, k)) ==> k < toks@.len(),
        match r {
            Ok((cs, k)) => components_from(tokens_view(toks@), i as int, acc@.map_values(|c: Component| component_view(c)))
                == Ok::<(Seq<ComponentView>, int), ParseErr>((cs@.map_values(|c: Component| component_view(c)), k as int)),
            Err(e) => components_from(tokens_view(toks@), i as int, acc@.map_values(|c: Component| component_view(c)))
                == Err::<(Seq<ComponentView>, int), ParseErr>(parse_err_view(e)),
        },
    decreases toks@.len() - i,
{
    if token_is(toks, i, '}') {
        return Ok((acc, i));
    }
    let (c, j) = match parse_component(toks, i) {
        Ok(x) => x,
        Err(e) => return Err(e),
    };
    proof {
        lemma_idents_end(tokens_view(toks@), i + 3, Seq::empty());
    }
    let ghost cv = component_view(c);
    let mut acc = acc;
    let ghost before = acc@;
    acc.push(c);
    assert(acc@.map_values(|x: Component| component_view(x)) =~= before.map_values(|x: Component| component_view(x)).push(cv));
    if token_is(toks, j, '}') {
        Ok((acc, j))
    } else if token_is(toks, j, ',') {
        parse_components(toks, j + 1, acc)
    } else {
        Err(ConfigParseError::Unexpected(j))
    }
}

impl Config {
    /// The components by views.
    pub open spec fn spec_view(&self) -> Seq<ComponentView> {
        self.spec_components().map_values(|c: Component| component_view(c))
    }

    /// Reads the macro's input `{ name: [resource, ...], ... }`: the tokens of
    /// `text`, parsed as `config_spec` describes. Names must be
    /// identifiers; commas separate items and may trail.
    pub fn parse(text: &str) -> (r: Result<Config, ConfigParseError>)
        ensures
            match r {
                Ok(c) => config_spec(tokens_from(text@, 0)) == Ok::<Seq<ComponentView>, ParseErr>(c.spec_view()),
                Err(e) => config_spec(tokens_from(text@, 0)) == Err::<Seq<ComponentView>, ParseErr>(parse_err_view(e)),
            },
    {
        let toks = tokenize(text);
        if !token_is(&toks, 0, '{') {
            return Err(ConfigParseError::ExpectedObject);
        }
        let empty: Vec<Component> = Vec::new();
        assert(empty@.map_values(|c: Component| component_view(c)) =~= Seq::<ComponentView>::empty());
        match parse_components(&toks, 1, empty) {
            Err(e) => Err(e),
            Ok((components, k)) => {
                if k + 1 == toks.len() {
                    Ok(Config { components })
                } else {
                    Err(ConfigParseError::Unexpected(k + 1))
                }
            },
        }
    }
}

} // verus!
