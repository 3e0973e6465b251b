//! Lexical rules: whitespace, strings, numbers, booleans, identifiers,
//! literals, key-value pairs and numeric triples.
//!
//! Each rule `r` has a model `spec_r(s, i)` over the characters `s` of the
//! input, which gives the recognised value and the position after it, or
//! `None` where the rule does not match at `i`. The executable parser
//! `r_at(s, n, i)` computes exactly that model; the public function `r`
//! applies it at the start of its input and hands back the rest.
use vstd::prelude::*;
use vstd::string::*;
use crate::ast::{Kvp, KvpModel, Literal, LiteralKind, LiteralModel, ParseError, Rule, Vec3, Vec3Model};

verus! {

pub open spec fn is_ws(c: char) -> bool {
    c == ' ' || c == '\t' || c == '\n' || c == '\r'
}

pub open spec fn is_digit(c: char) -> bool {
    '0' <= c && c <= '9'
}

pub open spec fn is_alpha(c: char) -> bool {
    ('a' <= c && c <= 'z') || ('A' <= c && c <= 'Z')
}

pub open spec fn is_ident_char(c: char) -> bool {
    c == '_' || is_alpha(c) || is_digit(c)
}

pub open spec fn has_char(s: Seq<char>, i: int, c: char) -> bool {
    0 <= i < s.len() && s[i] == c
}

pub open spec fn has_tag(s: Seq<char>, i: int, t: Seq<char>) -> bool {
    0 <= i && i + t.len() <= s.len() && s.subrange(i, i + t.len()) == t
}

/// The end of the run of whitespace that starts at `i`.
pub open spec fn ws_end(s: Seq<char>, i: int) -> int
    decreases s.len() - i,
{
    if 0 <= i < s.len() && is_ws(s[i]) {
        ws_end(s, i + 1)
    } else {
        i
    }
}

/// The end of the run of decimal digits that starts at `i`.
pub open spec fn digits_end(s: Seq<char>, i: int) -> int
    decreases s.len() - i,
{
    if 0 <= i < s.len() && is_digit(s[i]) {
        digits_end(s, i + 1)
    } else {
        i
    }
}

/// The end of the run of identifier characters that starts at `i`.
pub open spec fn ident_chars_end(s: Seq<char>, i: int) -> int
    decreases s.len() - i,
{
    if 0 <= i < s.len() && is_ident_char(s[i]) {
        ident_chars_end(s, i + 1)
    } else {
        i
    }
}

/// The first position at or after `i` that holds `q`, or the end of `s`.
pub open spec fn till_end(s: Seq<char>, i: int, q: char) -> int
    decreases s.len() - i,
{
    if 0 <= i < s.len() && s[i] != q {
        till_end(s, i + 1, q)
    } else {
        i
    }
}

/// A string delimited by `q` at `i`: its contents and the end of the closing quote.
pub open spec fn spec_quoted(s: Seq<char>, i: int, q: char) -> Option<(Seq<char>, int)> {
    if has_char(s, i, q) && till_end(s, i + 1, q) < s.len() {
        Some((s.subrange(i + 1, till_end(s, i + 1, q)), till_end(s, i + 1, q) + 1))
    } else {
        None
    }
}

/// `'...'` or `"..."`, without escapes; the value excludes the quotes.
pub open spec fn spec_string(s: Seq<char>, i: int) -> Option<(Seq<char>, int)> {
    if spec_quoted(s, i, '\'') is Some {
        spec_quoted(s, i, '\'')
    } else {
        spec_quoted(s, i, '"')
    }
}

/// The end of an optional part `c digit+` at `i`: past it where it is there, else `i`.
pub open spec fn digits_part_end(s: Seq<char>, i: int, c1: char, c2: char) -> int {
    if (has_char(s, i, c1) || has_char(s, i, c2)) && digits_end(s, i + 1) > i + 1 {
        digits_end(s, i + 1)
    } else {
        i
    }
}

/// The end of `digit+ ("." digit+)? (("e" | "E") digit+)?` at `i`.
pub open spec fn number_end(s: Seq<char>, i: int) -> Option<int> {
    if 0 <= i && digits_end(s, i) > i {
        Some(digits_part_end(s, digits_part_end(s, digits_end(s, i), '.', '.'), 'e', 'E'))
    } else {
        None
    }
}

/// A number at `i`, as its raw text.
pub open spec fn spec_number(s: Seq<char>, i: int) -> Option<(Seq<char>, int)> {
    match number_end(s, i) {
        Some(e) => Some((s.subrange(i, e), e)),
        None => None,
    }
}

/// `true` or `false` at `i`.
pub open spec fn spec_boolean(s: Seq<char>, i: int) -> Option<(Seq<char>, int)> {
    if has_tag(s, i, "true"@) {
        Some(("true"@, i + "true"@.len()))
    } else if has_tag(s, i, "false"@) {
        Some(("false"@, i + "false"@.len()))
    } else {
        None
    }
}

/// `("_" | alpha) ("_" | alnum)*` at `i` (ASCII letters and digits).
pub open spec fn spec_identifier(s: Seq<char>, i: int) -> Option<(Seq<char>, int)> {
    if 0 <= i < s.len() && (s[i] == '_' || is_alpha(s[i])) {
        Some((s.subrange(i, ident_chars_end(s, i + 1)), ident_chars_end(s, i + 1)))
    } else {
        None
    }
}

/// A string, else a number, else a boolean: the first form that matches decides the kind.
pub open spec fn spec_literal(s: Seq<char>, i: int) -> Option<(LiteralModel, int)> {
    match spec_string(s, i) {
        Some((v, e)) => Some((LiteralModel { kind: LiteralKind::String, value: v }, e)),
        None => match spec_number(s, i) {
            Some((v, e)) => Some((LiteralModel { kind: LiteralKind::Number, value: v }, e)),
            None => match spec_boolean(s, i) {
                Some((v, e)) => Some((LiteralModel { kind: LiteralKind::Boolean, value: v }, e)),
                None => None,
            },
        },
    }
}

/// `identifier ws* ":" ws* literal` at `i`.
pub open spec fn spec_kvp(s: Seq<char>, i: int) -> Option<(KvpModel, int)> {
    match spec_identifier(s, i) {
        Some((key, e)) => if has_char(s, ws_end(s, e), ':') {
            match spec_literal(s, ws_end(s, ws_end(s, e) + 1)) {
                Some((value, f)) => Some((KvpModel { key, value }, f)),
                None => None,
            }
        } else {
            None
        },
        None => None,
    }
}

/// `ws* number ws*` at `i`.
pub open spec fn spec_padded_number(s: Seq<char>, i: int) -> Option<(Seq<char>, int)> {
    match spec_number(s, ws_end(s, i)) {
        Some((v, e)) => Some((v, ws_end(s, e))),
        None => None,
    }
}

/// The next component of a triple: `"," ws* number ws*` at `i`.
pub open spec fn spec_next_component(s: Seq<char>, i: int) -> Option<(Seq<char>, int)> {
    if has_char(s, i, ',') {
        spec_padded_number(s, i + 1)
    } else {
        None
    }
}

/// Three numbers separated by commas, whitespace allowed around each.
pub open spec fn spec_vec3(s: Seq<char>, i: int) -> Option<(Vec3Model, int)> {
    match spec_padded_number(s, i) {
        Some((x, a)) => match spec_next_component(s, a) {
            Some((y, b)) => match spec_next_component(s, b) {
                Some((z, c)) => Some((Vec3Model { x, y, z }, c)),
                None => None,
            },
            None => None,
        },
        None => None,
    }
}

pub fn is_ws_char(c: char) -> (r: bool)
    ensures
        r == is_ws(c),
{
    c == ' ' || c == '\t' || c == '\n' || c == '\r'
}

pub fn is_digit_char(c: char) -> (r: bool)
    ensures
        r == is_digit(c),
{
    '0' <= c && c <= '9'
}

pub fn is_alpha_char(c: char) -> (r: bool)
    ensures
        r == is_alpha(c),
{
    ('a' <= c && c <= 'z') || ('A' <= c && c <= 'Z')
}

pub fn is_ident_char_exec(c: char) -> (r: bool)
    ensures
        r == is_ident_char(c),
{
    c == '_' || is_alpha_char(c) || is_digit_char(c)
}

/// A failure of `rule` at `offset`.
pub fn fail(offset: usize, rule: Rule) -> (e: ParseError)
    ensures
        e.offset == offset,
        e.context@ == seq![rule],
{
    ParseError { offset, context: vec![rule] }
}

/// The failure `e`, seen from the enclosing `rule`.
pub fn within(e: ParseError, rule: Rule) -> (r: ParseError)
    ensures
        r.offset == e.offset,
        r.context@ == e.context@.push(rule),
{
    let mut r = e;
    r.context.push(rule);
    r
}

pub fn char_at(s: &str, n: usize, i: usize, c: char) -> (r: bool)
    requires
        n == s@.len(),
    ensures
        r == has_char(s@, i as int, c),
{
    i < n && s.get_char(i) == c
}

pub fn tag_at(s: &str, n: usize, i: usize, t: &str) -> (r: bool)
    requires
        n == s@.len(),
    ensures
        r == has_tag(s@, i as int, t@),
{
    let m = t.unicode_len();
    if i > n || m > n - i {
        return false;
    }
    let mut k: usize = 0;
    while k < m
        invariant
            n == s@.len(),
            m == t@.len(),
            i + m <= n,
            k <= m,
            forall|j: int| 0 <= j < k ==> s@[i + j] == t@[j],
        decreases m - k,
    {
        if s.get_char(i + k) != t.get_char(k) {
            assert(s@.subrange(i as int, i + m)[k as int] != t@[k as int]);
            return false;
        }
        k += 1;
    }
    assert(s@.subrange(i as int, i + m) =~= t@);
    true
}

pub fn skip_ws(s: &str, n: usize, i: usize) -> (r: usize)
    requires
        n == s@.len(),
        i <= n,
    ensures
        r == ws_end(s@, i as int),
        i <= r <= n,
{
    let mut j = i;
    while j < n && is_ws_char(s.get_char(j))
        invariant
            n == s@.len(),
            i <= j <= n,
            ws_end(s@, i as int) == ws_end(s@, j as int),
        decreases n - j,
    {
        j += 1;
    }
    j
}

pub fn skip_digits(s: &str, n: usize, i: usize) -> (r: usize)
    requires
        n == s@.len(),
        i <= n,
    ensures
        r == digits_end(s@, i as int),
        i <= r <= n,
{
    let mut j = i;
    while j < n && is_digit_char(s.get_char(j))
        invariant
            n == s@.len(),
            i <= j <= n,
            digits_end(s@, i as int) == digits_end(s@, j as int),
        decreases n - j,
    {
        j += 1;
    }
    j
}

pub fn skip_ident_chars(s: &str, n: usize, i: usize) -> (r: usize)
    requires
        n == s@.len(),
        i <= n,
    ensures
        r == ident_chars_end(s@, i as int),
        i <= r <= n,
{
    let mut j = i;
    while j < n && is_ident_char_exec(s.get_char(j))
        invariant
            n == s@.len(),
            i <= j <= n,
            ident_chars_end(s@, i as int) == ident_chars_end(s@, j as int),
        decreases n - j,
    {
        j += 1;
    }
    j
}

pub fn skip_till(s: &str, n: usize, i: usize, q: char) -> (r: usize)
    requires
        n == s@.len(),
        i <= n,
    ensures
        r == till_end(s@, i as int, q),
        i <= r <= n,
{
    let mut j = i;
    while j < n && s.get_char(j) != q
        invariant
            n == s@.len(),
            i <= j <= n,
            till_end(s@, i as int, q) == till_end(s@, j as int, q),
        decreases n - j,
    {
        j += 1;
    }
    j
}

fn quoted_at<'a>(s: &'a str, n: usize, i: usize, q: char) -> (r: Option<(&'a str, usize)>)
    requires
        n == s@.len(),
        i <= n,
    ensures
        match spec_quoted(s@, i as int, q) {
            Some((v, e)) => r matches Some((x, k)) && x@ == v && k == e && k <= n,
            None => r is None,
        },
{
    if char_at(s, n, i, q) {
        let t = skip_till(s, n, i + 1, q);
        if t < n {
            return Some((s.substring_char(i + 1, t), t + 1));
        }
    }
    None
}

pub fn string_at<'a>(s: &'a str, n: usize, i: usize) -> (r: Result<(&'a str, usize), ParseError>)
    requires
        n == s@.len(),
        i <= n,
    ensures
        match spec_string(s@, i as int) {
            Some((v, e)) => r matches Ok((x, k)) && x@ == v && k == e && k <= n,
            None => r is Err,
        },
{
    match quoted_at(s, n, i, '\'') {
        Some(p) => Ok(p),
        None => match quoted_at(s, n, i, '"') {
            Some(p) => Ok(p),
            None => Err(fail(i, Rule::String)),
        },
    }
}

fn digits_part_at(s: &str, n: usize, i: usize, c1: char, c2: char) -> (r: usize)
    requires
        n == s@.len(),
        i <= n,
    ensures
        r == digits_part_end(s@, i as int, c1, c2),
        i <= r <= n,
{
    if char_at(s, n, i, c1) || char_at(s, n, i, c2) {
        let d = skip_digits(s, n, i + 1);
        if d > i + 1 {
            return d;
        }
    }
    i
}

pub fn number_at<'a>(s: &'a str, n: usize, i: usize) -> (r: Result<(&'a str, usize), ParseError>)
    requires
        n == s@.len(),
        i <= n,
    ensures
        match spec_number(s@, i as int) {
            Some((v, e)) => r matches Ok((x, k)) && x@ == v && k == e && i < k <= n,
            None => r is Err,
        },
{
    let d = skip_digits(s, n, i);
    if d == i {
        return Err(fail(i, Rule::Number));
    }
    let f = digits_part_at(s, n, d, '.', '.');
    let e = digits_part_at(s, n, f, 'e', 'E');
    Ok((s.substring_char(i, e), e))
}

pub fn boolean_at<'a>(s: &'a str, n: usize, i: usize) -> (r: Result<(&'a str, usize), ParseError>)
    requires
        n == s@.len(),
        i <= n,
    ensures
        match spec_boolean(s@, i as int) {
            Some((v, e)) => r matches Ok((x, k)) && x@ == v && k == e && k <= n,
            None => r is Err,
        },
{
    if tag_at(s, n, i, "true") {
        let m = "true".unicode_len();
        Ok((s.substring_char(i, i + m), i + m))
    } else if tag_at(s, n, i, "false") {
        let m = "false".unicode_len();
        Ok((s.substring_char(i, i + m), i + m))
    } else {
        Err(fail(i, Rule::Boolean))
    }
}

pub fn identifier_at<'a>(s: &'a str, n: usize, i: usize) -> (r: Result<(&'a str, usize), ParseError>)
    requires
        n == s@.len(),
        i <= n,
    ensures
        match spec_identifier(s@, i as int) {
            Some((v, e)) => r matches Ok((x, k)) && x@ == v && k == e && k <= n,
            None => r is Err,
        },
{
    if i < n {
        let c = s.get_char(i);
        if c == '_' || is_alpha_char(c) {
            let e = skip_ident_chars(s, n, i + 1);
            return Ok((s.substring_char(i, e), e));
        }
    }
    Err(fail(i, Rule::Identifier))
}

pub fn literal_at<'a>(s: &'a str, n: usize, i: usize) -> (r: Result<(Literal<'a>, usize), ParseError>)
    requires
        n == s@.len(),
        i <= n,
    ensures
        match spec_literal(s@, i as int) {
            Some((v, e)) => r matches Ok((x, k)) && x@ == v && k == e && k <= n,
            None => r is Err,
        },
{
    match string_at(s, n, i) {
        Ok((value, e)) => Ok((Literal { kind: LiteralKind::String, value }, e)),
        Err(_) => match number_at(s, n, i) {
            Ok((value, e)) => Ok((Literal { kind: LiteralKind::Number, value }, e)),
            Err(_) => match boolean_at(s, n, i) {
                Ok((value, e)) => Ok((Literal { kind: LiteralKind::Boolean, value }, e)),
                Err(err) => Err(within(err, Rule::Literal)),
            },
        },
    }
}

pub fn kvp_at<'a>(s: &'a str, n: usize, i: usize) -> (r: Result<(Kvp<'a>, usize), ParseError>)
    requires
        n == s@.len(),
        i <= n,
    ensures
        match spec_kvp(s@, i as int) {
            Some((v, e)) => r matches Ok((x, k)) && x@ == v && k == e && k <= n,
            None => r is Err,
        },
{
    let (key, e) = match identifier_at(s, n, i) {
        Ok(p) => p,
        Err(err) => return Err(within(err, Rule::Kvp)),
    };
    let w = skip_ws(s, n, e);
    if !char_at(s, n, w, ':') {
        return Err(fail(w, Rule::Kvp));
    }
    let w2 = skip_ws(s, n, w + 1);
    match literal_at(s, n, w2) {
        Ok((value, f)) => {
            proof {
                assert(spec_identifier(s@, i as int) is Some);
            }
            Ok((Kvp { key, value }, f))
        },
        Err(err) => Err(within(err, Rule::Kvp)),
    }
}

fn padded_number_at<'a>(s: &'a str, n: usize, i: usize) -> (r: Result<(&'a str, usize), ParseError>)
    requires
        n == s@.len(),
        i <= n,
    ensures
        match spec_padded_number(s@, i as int) {
            Some((v, e)) => r matches Ok((x, k)) && x@ == v && k == e && k <= n,
            None => r is Err,
        },
{
    let w = skip_ws(s, n, i);
    let (x, e) = number_at(s, n, w)?;
    Ok((x, skip_ws(s, n, e)))
}

fn next_component_at<'a>(s: &'a str, n: usize, i: usize) -> (r: Result<(&'a str, usize), ParseError>)
    requires
        n == s@.len(),
        i <= n,
    ensures
        match spec_next_component(s@, i as int) {
            Some((v, e)) => r matches Ok((x, k)) && x@ == v && k == e && k <= n,
            None => r is Err,
        },
{
    if !char_at(s, n, i, ',') {
        return Err(fail(i, Rule::Vec3));
    }
    padded_number_at(s, n, i + 1)
}

pub fn vec3_at<'a>(s: &'a str, n: usize, i: usize) -> (r: Result<(Vec3<'a>, usize), ParseError>)
    requires
        n == s@.len(),
        i <= n,
    ensures
        match spec_vec3(s@, i as int) {
            Some((v, e)) => r matches Ok((x, k)) && x@ == v && k == e && k <= n,
            None => r is Err,
        },
{
    let (x, a) = match padded_number_at(s, n, i) {
        Ok(p) => p,
        Err(err) => return Err(within(err, Rule::Vec3)),
    };
    let (y, b) = match next_component_at(s, n, a) {
        Ok(p) => p,
        Err(err) => return Err(within(err, Rule::Vec3)),
    };
    let (z, c) = match next_component_at(s, n, b) {
        Ok(p) => p,
        Err(err) => return Err(within(err, Rule::Vec3)),
    };
    Ok((Vec3 { x, y, z }, c))
}

/// The text of `s` from character `e` on.
pub open spec fn rest_of(s: Seq<char>, e: int) -> Seq<char> {
    s.subrange(e, s.len() as int)
}

/// A string at the start of `input`: its contents and the input after it.
pub fn string(input: &str) -> (r: Result<(&str, &str), ParseError>)
    ensures
        match spec_string(input@, 0) {
            Some((v, e)) => r matches Ok((rest, x)) && x@ == v && rest@ == rest_of(input@, e),
            None => r is Err,
        },
{
    let n = input.unicode_len();
    let (x, e) = string_at(input, n, 0)?;
    Ok((input.substring_char(e, n), x))
}

/// A number at the start of `input`: its raw text and the input after it.
pub fn number(input: &str) -> (r: Result<(&str, &str), ParseError>)
    ensures
        match spec_number(input@, 0) {
            Some((v, e)) => r matches Ok((rest, x)) && x@ == v && rest@ == rest_of(input@, e),
            None => r is Err,
        },
{
    let n = input.unicode_len();
    let (x, e) = number_at(input, n, 0)?;
    Ok((input.substring_char(e, n), x))
}

/// A boolean at the start of `input`: its text and the input after it.
pub fn boolean(input: &str) -> (r: Result<(&str, &str), ParseError>)
    ensures
        match spec_boolean(input@, 0) {
            Some((v, e)) => r matches Ok((rest, x)) && x@ == v && rest@ == rest_of(input@, e),
            None => r is Err,
        },
{
    let n = input.unicode_len();
    let (x, e) = boolean_at(input, n, 0)?;
    Ok((input.substring_char(e, n), x))
}

/// A literal at the start of `input`, and the input after it.
pub fn literal(input: &str) -> (r: Result<(&str, Literal), ParseError>)
    ensures
        match spec_literal(input@, 0) {
            Some((v, e)) => r matches Ok((rest, x)) && x@ == v && rest@ == rest_of(input@, e),
            None => r is Err,
        },
{
    let n = input.unicode_len();
    let (x, e) = literal_at(input, n, 0)?;
    Ok((input.substring_char(e, n), x))
}

/// An identifier at the start of `input`, and the input after it.
pub fn identifier(input: &str) -> (r: Result<(&str, &str), ParseError>)
    ensures
        match spec_identifier(input@, 0) {
            Some((v, e)) => r matches Ok((rest, x)) && x@ == v && rest@ == rest_of(input@, e),
            None => r is Err,
        },
{
    let n = input.unicode_len();
    let (x, e) = identifier_at(input, n, 0)?;
    Ok((input.substring_char(e, n), x))
}

/// A key-value pair at the start of `input`, and the input after it.
pub fn kvp(input: &str) -> (r: Result<(&str, Kvp), ParseError>)
    ensures
        match spec_kvp(input@, 0) {
            Some((v, e)) => r matches Ok((rest, x)) && x@ == v && rest@ == rest_of(input@, e),
            None => r is Err,
        },
{
    let n = input.unicode_len();
    let (x, e) = kvp_at(input, n, 0)?;
    Ok((input.substring_char(e, n), x))
}

/// A numeric triple at the start of `input`, and the input after it.
pub fn vec3(input: &str) -> (r: Result<(&str, Vec3), ParseError>)
    ensures
        match spec_vec3(input@, 0) {
            Some((v, e)) => r matches Ok((rest, x)) && x@ == v && rest@ == rest_of(input@, e),
            None => r is Err,
        },
{
    let n = input.unicode_len();
    let (x, e) = vec3_at(input, n, 0)?;
    Ok((input.substring_char(e, n), x))
}

} // verus!
