use vstd::prelude::*;

verus! {

broadcast use vstd::string::group_string_axioms;

/// The characters of `s`, in order.
pub fn chars_of(s: &str) -> (v: Vec<char>)
    ensures
        v@ == s@,
{
    let mut v: Vec<char> = Vec::new();
    for c in iter: s.chars()
        invariant
            v@ == iter.seq().take(iter.index()),
            iter.seq() == s@,
    {
        v.push(c);
    }
    v
}

/// Appends one character to a string (`String::push`).
#[verifier::external_body]
pub(crate) fn push_char(s: &mut String, c: char)
    ensures
        final(s)@ == old(s)@.push(c),
{
    s.push(c);
}

/// Appends a string slice to a string (`String::push_str`).
#[verifier::external_body]
pub(crate) fn push_str(s: &mut String, t: &str)
    ensures
        final(s)@ == old(s)@ + t@,
{
    s.push_str(t);
}

/// Whether `a` and `b` hold the same characters.
pub fn str_eq(a: &str, b: &str) -> (r: bool)
    ensures
        r == (a@ == b@),
{
    let x = chars_of(a);
    let y = chars_of(b);
    if x.len() != y.len() {
        return false;
    }
    let mut i: usize = 0;
    while i < x.len()
        invariant
            i <= x@.len() == y@.len(),
            x@ == a@,
            y@ == b@,
            forall|m: int| 0 <= m < i ==> x@[m] == y@[m],
        decreases x@.len() - i,
    {
        if x[i] != y[i] {
            assert(a@[i as int] != b@[i as int]);
            return false;
        }
        i = i + 1;
    }
    assert(x@ =~= y@);
    true
}

/// The string made of the characters `v[from..to]`.
pub fn string_of_range(v: &[char], from: usize, to: usize) -> (s: String)
    requires
        from <= to <= v@.len(),
    ensures
        s@ == v@.subrange(from as int, to as int),
{
    let mut s = String::new();
    let mut i = from;
    while i < to
        invariant
            from <= i <= to <= v@.len(),
            s@ == v@.subrange(from as int, i as int),
        decreases to - i,
    {
        push_char(&mut s, v[i]);
        assert(v@.subrange(from as int, i + 1) == v@.subrange(from as int, i as int).push(v@[i as int]));
        i = i + 1;
    }
    s
}

/// The string made of all the characters of `v`.
pub fn string_of(v: &[char]) -> (s: String)
    ensures
        s@ == v@,
{
    let s = string_of_range(v, 0, v.len());
    assert(v@.subrange(0, v@.len() as int) == v@);
    s
}

/// Whether `c` has the Unicode property White_Space (`char::is_whitespace`).
pub open spec fn is_white_space(c: char) -> bool {
    let u = c as u32;
    ||| 0x09 <= u <= 0x0d
    ||| u == 0x20
    ||| u == 0x85
    ||| u == 0xa0
    ||| u == 0x1680
    ||| 0x2000 <= u <= 0x200a
    ||| u == 0x2028
    ||| u == 0x2029
    ||| u == 0x202f
    ||| u == 0x205f
    ||| u == 0x3000
}

/// `s` without its leading white space.
pub open spec fn trimmed_start(s: Seq<char>) -> Seq<char>
    decreases s.len(),
{
    if s.len() > 0 && is_white_space(s[0]) {
        trimmed_start(s.drop_first())
    } else {
        s
    }
}

/// `s` without its trailing white space.
pub open spec fn trimmed_end(s: Seq<char>) -> Seq<char>
    decreases s.len(),
{
    if s.len() > 0 && is_white_space(s.last()) {
        trimmed_end(s.drop_last())
    } else {
        s
    }
}

/// What `str::trim` gives back for `s`: `s` without its leading and
/// trailing white space.
pub open spec fn trimmed(s: Seq<char>) -> Seq<char> {
    trimmed_end(trimmed_start(s))
}

/// `str::trim`: the slice of `s` without leading and trailing white space.
#[verifier::external_body]
pub(crate) fn trim(s: &str) -> (t: &str)
    ensures
        t@ == trimmed(s@),
{
    s.trim()
}

/// What `str::to_lowercase` gives back for `s` (full Unicode lowercase mapping).
pub uninterp spec fn lowercased(s: Seq<char>) -> Seq<char>;

/// The ASCII lowercase form of one character.
pub open spec fn ascii_lower(c: char) -> char {
    if 'A' <= c && c <= 'Z' {
        ((c as u32) + 32) as char
    } else {
        c
    }
}

/// Whether every character of `s` is ASCII.
pub open spec fn all_ascii(s: Seq<char>) -> bool {
    forall|i: int| 0 <= i < s.len() ==> (s[i] as u32) < 0x80
}

/// The lowercase form of `s`: for ASCII text, its ASCII letters lowercased,
/// as the Unicode mapping gives there; otherwise the Unicode mapping.
pub open spec fn lowercase_of(s: Seq<char>) -> Seq<char> {
    if all_ascii(s) {
        s.map_values(|c: char| ascii_lower(c))
    } else {
        lowercased(s)
    }
}

/// `str::to_lowercase`: the Unicode lowercase form of `s`, which on ASCII
/// text lowercases the ASCII letters and leaves every other character.
#[verifier::external_body]
pub(crate) fn to_lowercase(s: &str) -> (t: String)
    ensures
        t@ == lowercased(s@),
        all_ascii(s@) ==> t@ == s@.map_values(|c: char| ascii_lower(c)),
{
    s.to_lowercase()
}

/// The ASCII uppercase form of one character.
pub open spec fn ascii_upper(c: char) -> char {
    if 'a' <= c && c <= 'z' {
        ((c as u32) - 32) as char
    } else {
        c
    }
}

/// Uppercases the ASCII letters of `s`, leaving every other character as is
/// (`str::to_ascii_uppercase`).
pub fn to_ascii_uppercase(s: &str) -> (t: String)
    ensures
        t@ == s@.map_values(|c: char| ascii_upper(c)),
{
    let v = chars_of(s);
    let mut t = String::new();
    let mut i: usize = 0;
    while i < v.len()
        invariant
            i <= v@.len(),
            v@ == s@,
            t@ == v@.take(i as int).map_values(|c: char| ascii_upper(c)),
        decreases v@.len() - i,
    {
        let c = v[i];
        let u = if 'a' <= c && c <= 'z' {
            let code: u32 = (c as u32) - 32;
            assert(code <= 0x7a);
            char_from_ascii(code)
        } else {
            c
        };
        push_char(&mut t, u);
        assert(v@.take(i + 1) == v@.take(i as int).push(c));
        i = i + 1;
    }
    assert(v@.take(v@.len() as int) == v@);
    t
}

/// The character with an ASCII code point.
fn char_from_ascii(code: u32) -> (c: char)
    requires
        code < 128,
    ensures
        c as u32 == code,
{
    let b: u8 = code as u8;
    b as char
}

/// The pieces of `s` between the occurrences of `sep`, as `str::split` with a
/// character pattern gives them: one more piece than there are separators.
pub open spec fn split_spec(s: Seq<char>, sep: char) -> Seq<Seq<char>>
    decreases s.len(),
{
    if s.len() == 0 {
        seq![Seq::<char>::empty()]
    } else {
        let init = split_spec(s.drop_last(), sep);
        if s.last() == sep {
            init.push(Seq::<char>::empty())
        } else {
            init.update(init.len() - 1, init.last().push(s.last()))
        }
    }
}

/// A sequence of strings by their views.
pub open spec fn views(v: Seq<String>) -> Seq<Seq<char>> {
    v.map_values(|x: String| x@)
}

/// Proves that the split of any sequence has at least one piece.
pub proof fn lemma_split_nonempty(s: Seq<char>, sep: char)
    ensures
        split_spec(s, sep).len() >= 1,
    decreases s.len(),
{
    if s.len() > 0 {
        lemma_split_nonempty(s.drop_last(), sep);
    }
}

/// Splits `s` at every `sep` (`str::split` with a character pattern).
pub fn split_on(s: &str, sep: char) -> (pieces: Vec<String>)
    ensures
        views(pieces@) == split_spec(s@, sep),
{
    let v = chars_of(s);
    let mut pieces: Vec<String> = Vec::new();
    let mut cur = String::new();
    let mut i: usize = 0;
    while i < v.len()
        invariant
            i <= v@.len(),
            v@ == s@,
            views(pieces@).push(cur@) == split_spec(v@.take(i as int), sep),
        decreases v@.len() - i,
    {
        let c = v[i];
        let ghost prev = v@.take(i as int);
        assert(v@.take(i + 1).drop_last() == prev);
        proof {
            lemma_split_nonempty(prev, sep);
        }
        if c == sep {
            let done = cur;
            pieces.push(done);
            cur = String::new();
            assert(views(pieces@) == views(pieces@.drop_last()).push(done@));
        } else {
            push_char(&mut cur, c);
            assert(views(pieces@).push(cur@) == split_spec(prev, sep).update(
                split_spec(prev, sep).len() - 1,
                split_spec(prev, sep).last().push(c),
            ));
        }
        i = i + 1;
    }
    assert(v@.take(v@.len() as int) == v@);
    pieces.push(cur);
    assert(views(pieces@) == views(pieces@.drop_last()).push(pieces@.last()@));
    pieces
}

} // verus!

verus! {

/// The ASCII digit for `d < 10`.
pub open spec fn digit_char(d: nat) -> char {
    (48 + d) as char
}

/// The decimal representation of `n`, without leading zeros.
pub open spec fn decimal(n: nat) -> Seq<char>
    decreases n,
{
    if n < 10 {
        seq![digit_char(n)]
    } else {
        decimal(n / 10).push(digit_char(n % 10))
    }
}

/// Appends the decimal representation of `n` to `s`.
pub fn push_decimal(s: &mut String, n: u64)
    ensures
        final(s)@ == old(s)@ + decimal(n as nat),
    decreases n,
{
    if n >= 10 {
        push_decimal(s, n / 10);
    }
    let d: u32 = (n % 10) as u32;
    let c = char_from_ascii(48 + d);
    push_char(s, c);
    assert(c == digit_char((n % 10) as nat));
    if n >= 10 {
        assert(decimal(n as nat) == decimal((n / 10) as nat).push(digit_char((n % 10) as nat)));
        assert(old(s)@ + decimal((n / 10) as nat) + seq![c] =~= old(s)@ + decimal(n as nat));
    } else {
        assert(old(s)@ + seq![c] =~= old(s)@ + decimal(n as nat));
    }
}

/// The decimal representation of `n` (`u64::to_string`).
pub fn decimal_string(n: u64) -> (s: String)
    ensures
        s@ == decimal(n as nat),
{
    let mut s = String::new();
    push_decimal(&mut s, n);
    assert(Seq::<char>::empty() + decimal(n as nat) =~= decimal(n as nat));
    s
}

/// Whether `c` is an ASCII digit.
pub open spec fn is_digit(c: char) -> bool {
    '0' <= c && c <= '9'
}

/// The value of the ASCII digit `c`.
pub open spec fn digit_value(c: char) -> int {
    (c as u32) - 48
}

/// Whether every character of `s` is an ASCII digit.
pub open spec fn all_digits(s: Seq<char>) -> bool {
    forall|i: int| 0 <= i < s.len() ==> is_digit(#[trigger] s[i])
}

/// The number written by the digits `s`, most significant first.
pub open spec fn digits_value(s: Seq<char>) -> int
    decreases s.len(),
{
    if s.len() == 0 {
        0
    } else {
        digits_value(s.drop_last()) * 10 + digit_value(s.last())
    }
}

/// The magnitude part of a number with an optional leading `+`.
pub open spec fn unsigned_body(s: Seq<char>) -> Seq<char> {
    if s.len() > 0 && s[0] == '+' {
        s.drop_first()
    } else {
        s
    }
}

/// What `from_str` of an unsigned integer type whose largest value is `max`
/// gives for `s`: an optional `+`, then at least one ASCII digit, with a value
/// that fits.
pub open spec fn parse_unsigned_spec(s: Seq<char>, max: int) -> Option<int> {
    let body = unsigned_body(s);
    if body.len() > 0 && all_digits(body) && digits_value(body) <= max {
        Some(digits_value(body))
    } else {
        None
    }
}

/// What `i32::from_str` gives for `s`: an optional `+` or `-`, then at least
/// one ASCII digit, with a value in range.
pub open spec fn parse_i32_spec(s: Seq<char>) -> Option<i32> {
    if s.len() > 0 && s[0] == '-' {
        let body = s.drop_first();
        if body.len() > 0 && all_digits(body) && digits_value(body) <= 0x8000_0000 {
            Some((0 - digits_value(body)) as i32)
        } else {
            None
        }
    } else {
        match parse_unsigned_spec(s, 0x7fff_ffff) {
            Some(v) => Some(v as i32),
            None => None,
        }
    }
}

/// A number read by [`parse_unsigned_spec`] lies between 0 and its bound.
pub proof fn lemma_parse_unsigned_in_range(s: Seq<char>, max: int)
    ensures
        parse_unsigned_spec(s, max) matches Some(n) ==> 0 <= n <= max,
{
    let body = unsigned_body(s);
    if body.len() > 0 && all_digits(body) {
        lemma_digits_value_nonneg(body);
    }
}

proof fn lemma_digits_value_nonneg(s: Seq<char>)
    requires
        all_digits(s),
    ensures
        digits_value(s) >= 0,
    decreases s.len(),
{
    if s.len() > 0 {
        assert(all_digits(s.drop_last()));
        lemma_digits_value_nonneg(s.drop_last());
        assert(is_digit(s[s.len() - 1]));
    }
}

proof fn lemma_digits_value_prefix(s: Seq<char>, i: int)
    requires
        all_digits(s),
        0 <= i <= s.len(),
    ensures
        digits_value(s.take(i)) <= digits_value(s),
    decreases s.len() - i,
{
    if i < s.len() {
        lemma_digits_value_prefix(s, i + 1);
        let p = s.take(i + 1);
        assert(p.drop_last() =~= s.take(i));
        assert(all_digits(s.take(i)));
        lemma_digits_value_nonneg(s.take(i));
        assert(is_digit(s[i]));
    } else {
        assert(s.take(i) =~= s);
    }
}

/// Reads the digits `v[from..]` as a number no larger than `max`, or `None`
/// when there are none, one is not a digit, or the value is larger.
fn digits_up_to(v: &Vec<char>, from: usize, max: u64) -> (r: Option<u64>)
    requires
        from <= v@.len(),
        max >= 9,
    ensures
        ({
            let body = v@.subrange(from as int, v@.len() as int);
            match r {
                Some(n) => body.len() > 0 && all_digits(body) && digits_value(body) <= max
                    && n == digits_value(body),
                None => !(body.len() > 0 && all_digits(body) && digits_value(body) <= max),
            }
        }),
{
    let ghost body = v@.subrange(from as int, v@.len() as int);
    if from == v.len() {
        return None;
    }
    let mut acc: u64 = 0;
    let mut i = from;
    while i < v.len()
        invariant
            from <= i <= v@.len(),
            body == v@.subrange(from as int, v@.len() as int),
            all_digits(body.take(i - from)),
            acc == digits_value(body.take(i - from)),
            acc <= max,
            max >= 9,
        decreases v@.len() - i,
    {
        let c = v[i];
        let ghost k = i - from;
        assert(body.take(k + 1).drop_last() =~= body.take(k));
        assert(body[k] == c);
        if !('0' <= c && c <= '9') {
            assert(!all_digits(body));
            return None;
        }
        let d: u64 = ((c as u32) - 48) as u64;
        if acc > (max - d) / 10 {
            proof {
                assert(all_digits(body.take(k + 1)));
                assert(digits_value(body.take(k + 1)) == acc * 10 + d);
                assert(acc * 10 + d > max) by (nonlinear_arith)
                    requires
                        acc > (max - d) / 10,
                        d <= 9,
                        max >= 9,
                ;
                if all_digits(body) {
                    lemma_digits_value_prefix(body, k + 1);
                }
            }
            return None;
        }
        assert(acc * 10 + d <= max) by (nonlinear_arith)
            requires
                acc <= (max - d) / 10,
                d <= 9,
                acc <= max,
        ;
        acc = acc * 10 + d;
        assert(all_digits(body.take(k + 1)));
        i = i + 1;
    }
    assert(body.take(body.len() as int) =~= body);
    Some(acc)
}

/// `usize::from_str`: an optional `+`, then at least one ASCII digit, with a
/// value that fits in `usize`.
pub fn parse_usize(s: &str) -> (r: Option<usize>)
    ensures
        match r {
            Some(n) => parse_unsigned_spec(s@, usize::MAX as int) == Some(n as int),
            None => parse_unsigned_spec(s@, usize::MAX as int) is None,
        },
{
    let v = chars_of(s);
    let from: usize = if v.len() > 0 && v[0] == '+' { 1 } else { 0 };
    assert(unsigned_body(s@) =~= v@.subrange(from as int, v@.len() as int));
    match digits_up_to(&v, from, usize::MAX as u64) {
        Some(n) => Some(n as usize),
        None => None,
    }
}

/// `u64::from_str`: an optional `+`, then at least one ASCII digit, with a
/// value that fits in `u64`.
pub fn parse_u64(s: &str) -> (r: Option<u64>)
    ensures
        match r {
            Some(n) => parse_unsigned_spec(s@, u64::MAX as int) == Some(n as int),
            None => parse_unsigned_spec(s@, u64::MAX as int) is None,
        },
{
    let v = chars_of(s);
    let from: usize = if v.len() > 0 && v[0] == '+' { 1 } else { 0 };
    assert(unsigned_body(s@) =~= v@.subrange(from as int, v@.len() as int));
    digits_up_to(&v, from, u64::MAX)
}

/// `i32::from_str`: an optional `+` or `-`, then at least one ASCII digit,
/// with a value in range.
pub fn parse_i32(s: &str) -> (r: Option<i32>)
    ensures
        r == parse_i32_spec(s@),
{
    let v = chars_of(s);
    if v.len() > 0 && v[0] == '-' {
        assert(s@.drop_first() =~= v@.subrange(1, v@.len() as int));
        match digits_up_to(&v, 1, 0x8000_0000) {
            Some(n) => {
                let m: i64 = 0 - (n as i64);
                Some(m as i32)
            },
            None => None,
        }
    } else {
        let from: usize = if v.len() > 0 && v[0] == '+' { 1 } else { 0 };
        assert(unsigned_body(s@) =~= v@.subrange(from as int, v@.len() as int));
        match digits_up_to(&v, from, 0x7fff_ffff) {
            Some(n) => Some(n as i32),
            None => None,
        }
    }
}

} // verus!

verus! {

/// `s` without the suffix `suf`, or `s` itself when it does not end with `suf`
/// (`str::strip_suffix(..).unwrap_or(s)`).
pub open spec fn strip_suffix_or_self(s: Seq<char>, suf: Seq<char>) -> Seq<char> {
    if suf.len() <= s.len() && s.subrange(s.len() - suf.len(), s.len() as int) == suf {
        s.subrange(0, s.len() - suf.len())
    } else {
        s
    }
}

/// `s` without the prefix `pre`, when it starts with `pre` (`str::strip_prefix`).
pub open spec fn strip_prefix_spec(s: Seq<char>, pre: Seq<char>) -> Option<Seq<char>> {
    if pre.len() <= s.len() && s.subrange(0, pre.len() as int) == pre {
        Some(s.subrange(pre.len() as int, s.len() as int))
    } else {
        None
    }
}

/// Whether `v[at..at + p.len()]` is `p`.
fn matches_at(v: &Vec<char>, at: usize, p: &Vec<char>) -> (b: bool)
    requires
        at + p@.len() <= v@.len(),
    ensures
        b == (v@.subrange(at as int, at + p@.len()) == p@),
{
    let mut k: usize = 0;
    while k < p.len()
        invariant
            k <= p@.len(),
            at + p@.len() <= v.len(),
            forall|m: int| 0 <= m < k ==> v@[at + m] == p@[m],
        decreases p@.len() - k,
    {
        if v[at + k] != p[k] {
            assert(v@.subrange(at as int, at + p@.len())[k as int] != p@[k as int]);
            return false;
        }
        k = k + 1;
    }
    assert(v@.subrange(at as int, at + p@.len()) =~= p@);
    true
}

/// `s` without the suffix `suf`, or all of `s` when it does not end with it.
pub fn strip_suffix_or_all(s: &str, suf: &str) -> (t: String)
    ensures
        t@ == strip_suffix_or_self(s@, suf@),
{
    let v = chars_of(s);
    let p = chars_of(suf);
    if p.len() <= v.len() && matches_at(&v, v.len() - p.len(), &p) {
        string_of_range(&v, 0, v.len() - p.len())
    } else {
        let t = string_of(&v);
        t
    }
}

/// `s` without the prefix `pre`, when it starts with it.
pub fn strip_prefix(s: &str, pre: &str) -> (t: Option<String>)
    ensures
        match t {
            Some(x) => strip_prefix_spec(s@, pre@) == Some(x@),
            None => strip_prefix_spec(s@, pre@) is None,
        },
{
    let v = chars_of(s);
    let p = chars_of(pre);
    if p.len() <= v.len() && matches_at(&v, 0, &p) {
        Some(string_of_range(&v, p.len(), v.len()))
    } else {
        None
    }
}

/// `s` with every occurrence of `pat`, scanned left to right without overlap,
/// replaced by `rep` (`str::replace` with a non-empty pattern).
pub open spec fn replace_spec(s: Seq<char>, pat: Seq<char>, rep: Seq<char>) -> Seq<char>
    decreases s.len(),
{
    if pat.len() == 0 || s.len() < pat.len() {
        s
    } else if s.subrange(0, pat.len() as int) == pat {
        rep + replace_spec(s.subrange(pat.len() as int, s.len() as int), pat, rep)
    } else {
        seq![s[0]] + replace_spec(s.drop_first(), pat, rep)
    }
}

/// Replaces every occurrence of the non-empty `pat` in `s` by `rep`, left to
/// right without overlap (`str::replace`).
pub fn replace(s: &str, pat: &str, rep: &str) -> (t: String)
    requires
        pat@.len() > 0,
    ensures
        t@ == replace_spec(s@, pat@, rep@),
{
    let v = chars_of(s);
    let p = chars_of(pat);
    let mut out = String::new();
    let mut i: usize = 0;
    assert(v@.subrange(0, v@.len() as int) =~= v@);
    while i < v.len()
        invariant
            i <= v@.len(),
            v@ == s@,
            p@ == pat@,
            p@.len() > 0,
            out@ + replace_spec(v@.subrange(i as int, v@.len() as int), p@, rep@) == replace_spec(v@, p@, rep@),
        decreases v@.len() - i,
    {
        let ghost rest = v@.subrange(i as int, v@.len() as int);
        if p.len() <= v.len() - i && matches_at(&v, i, &p) {
            assert(rest.subrange(0, p@.len() as int) =~= v@.subrange(i as int, i + p@.len()));
            assert(rest.subrange(p@.len() as int, rest.len() as int) =~= v@.subrange(i + p@.len(), v@.len() as int));
            push_str(&mut out, rep);
            assert(out@ + replace_spec(v@.subrange(i + p@.len(), v@.len() as int), p@, rep@) =~= replace_spec(v@, p@, rep@));
            i = i + p.len();
        } else {
            if p.len() <= v.len() - i {
                assert(rest.subrange(0, p@.len() as int) =~= v@.subrange(i as int, i + p@.len()));
                assert(rest.drop_first() =~= v@.subrange(i + 1, v@.len() as int));
                push_char(&mut out, v[i]);
                assert(out@ + replace_spec(v@.subrange(i + 1, v@.len() as int), p@, rep@) =~= replace_spec(v@, p@, rep@));
                i = i + 1;
            } else {
                let tail = string_of_range(&v, i, v.len());
                push_str(&mut out, tail.as_str());
                assert(out@ + replace_spec(v@.subrange(v@.len() as int, v@.len() as int), p@, rep@) =~= replace_spec(v@, p@, rep@));
                i = v.len();
            }
        }
    }
    assert(out@ + replace_spec(v@.subrange(i as int, v@.len() as int), p@, rep@) =~= out@);
    out
}

} // verus!
