//! The `Content-Type` matcher.
//!
//! A header value is parsed as a media type,
//! `type "/" subtype *( OWS ";" OWS parameter )`, and compared against an
//! expected media type. The primary type and the subtype are compared
//! ASCII-case-insensitively; parameters such as `; charset=utf-8` are checked
//! for well-formedness but ignored by the comparison. A value that does not
//! fit the grammar matches nothing. The grammar admits ASCII only, so a
//! header value that is not valid UTF-8 text never matches.

use vstd::prelude::*;

verus! {

/// True for the bytes that RFC 7230 admits in a `token`: digits, letters,
/// and the characters `! # $ % & ' * + - . ^ _ ` | ~`.
pub open spec fn is_tchar(b: u8) -> bool {
    ||| (0x30 <= b && b <= 0x39)  // 0-9
    ||| (0x41 <= b && b <= 0x5a)  // A-Z
    ||| (0x61 <= b && b <= 0x7a)  // a-z
    ||| b == 0x21  // !
    ||| b == 0x23  // #
    ||| b == 0x24  // $
    ||| b == 0x25  // %
    ||| b == 0x26  // &
    ||| b == 0x27  // '
    ||| b == 0x2a  // *
    ||| b == 0x2b  // +
    ||| b == 0x2d  // -
    ||| b == 0x2e  // .
    ||| b == 0x5e  // ^
    ||| b == 0x5f  // _
    ||| b == 0x60  // `
    ||| b == 0x7c  // |
    ||| b == 0x7e  // ~
}

fn tchar(b: u8) -> (r: bool)
    ensures
        r == is_tchar(b),
{
    (0x30 <= b && b <= 0x39) || (0x41 <= b && b <= 0x5a) || (0x61 <= b && b <= 0x7a) || b == 0x21
        || b == 0x23 || b == 0x24 || b == 0x25 || b == 0x26 || b == 0x27 || b == 0x2a || b == 0x2b
        || b == 0x2d || b == 0x2e || b == 0x5e || b == 0x5f || b == 0x60 || b == 0x7c || b == 0x7e
}

/// The ASCII lower-case image of a byte.
pub open spec fn to_lower(b: u8) -> u8 {
    if 0x41 <= b && b <= 0x5a {
        (b + 0x20) as u8
    } else {
        b
    }
}

/// A byte sequence folded to ASCII lower case.
pub open spec fn lower_seq(s: Seq<u8>) -> Seq<u8> {
    s.map_values(|b: u8| to_lower(b))
}

fn lower_byte(b: u8) -> (r: u8)
    ensures
        r == to_lower(b),
{
    if 0x41 <= b && b <= 0x5a {
        b + 0x20
    } else {
        b
    }
}

/// The first index at or after `i` that does not hold a token byte.
pub open spec fn token_end(s: Seq<u8>, i: int) -> int
    decreases s.len() - i,
{
    if 0 <= i && i < s.len() && is_tchar(s[i]) {
        token_end(s, i + 1)
    } else {
        i
    }
}

pub proof fn lemma_token_end_bounds(s: Seq<u8>, i: int)
    requires
        0 <= i <= s.len(),
    ensures
        i <= token_end(s, i) <= s.len(),
        forall|k: int| i <= k < token_end(s, i) ==> is_tchar(s[k]),
        token_end(s, i) < s.len() ==> !is_tchar(s[token_end(s, i)]),
    decreases s.len() - i,
{
    if i < s.len() && is_tchar(s[i]) {
        lemma_token_end_bounds(s, i + 1);
    }
}

fn token_end_x(s: &[u8], i: usize) -> (r: usize)
    requires
        i <= s@.len(),
    ensures
        r == token_end(s@, i as int),
        i <= r <= s@.len(),
{
    let mut cur: usize = i;
    loop
        invariant
            i <= cur <= s@.len(),
            token_end(s@, i as int) == token_end(s@, cur as int),
        decreases s@.len() - cur,
    {
        if cur < s.len() && tchar(s[cur]) {
            cur = cur + 1;
        } else {
            proof {
                lemma_token_end_bounds(s@, cur as int);
            }
            return cur;
        }
    }
}

/// True for optional whitespace: space and horizontal tab.
pub open spec fn is_ows(b: u8) -> bool {
    b == 0x20 || b == 0x09
}

fn ows(b: u8) -> (r: bool)
    ensures
        r == is_ows(b),
{
    b == 0x20 || b == 0x09
}

/// The first index at or after `i` that does not hold optional whitespace.
pub open spec fn skip_ows(s: Seq<u8>, i: int) -> int
    decreases s.len() - i,
{
    if 0 <= i && i < s.len() && is_ows(s[i]) {
        skip_ows(s, i + 1)
    } else {
        i
    }
}

pub proof fn lemma_skip_ows_bounds(s: Seq<u8>, i: int)
    requires
        0 <= i <= s.len(),
    ensures
        i <= skip_ows(s, i) <= s.len(),
        forall|k: int| i <= k < skip_ows(s, i) ==> is_ows(s[k]),
        skip_ows(s, i) < s.len() ==> !is_ows(s[skip_ows(s, i)]),
    decreases s.len() - i,
{
    if i < s.len() && is_ows(s[i]) {
        lemma_skip_ows_bounds(s, i + 1);
    }
}

fn skip_ows_x(s: &[u8], i: usize) -> (r: usize)
    requires
        i <= s@.len(),
    ensures
        r == skip_ows(s@, i as int),
        i <= r <= s@.len(),
{
    let mut cur: usize = i;
    loop
        invariant
            i <= cur <= s@.len(),
            skip_ows(s@, i as int) == skip_ows(s@, cur as int),
        decreases s@.len() - cur,
    {
        if cur < s.len() && ows(s[cur]) {
            cur = cur + 1;
        } else {
            return cur;
        }
    }
}

/// True for the bytes a quoted parameter value may hold outside an escape:
/// whitespace and the visible ASCII characters other than `"` and `\`.
pub open spec fn is_qdtext(b: u8) -> bool {
    ||| b == 0x09
    ||| b == 0x20
    ||| b == 0x21
    ||| (0x23 <= b && b <= 0x5b)
    ||| (0x5d <= b && b <= 0x7e)
}

fn qdtext(b: u8) -> (r: bool)
    ensures
        r == is_qdtext(b),
{
    b == 0x09 || b == 0x20 || b == 0x21 || (0x23 <= b && b <= 0x5b) || (0x5d <= b && b <= 0x7e)
}

/// True for the bytes an escape `\x` may carry: whitespace and visible ASCII.
pub open spec fn is_qchar(b: u8) -> bool {
    b == 0x09 || b == 0x20 || (0x21 <= b && b <= 0x7e)
}

fn qchar(b: u8) -> (r: bool)
    ensures
        r == is_qchar(b),
{
    b == 0x09 || b == 0x20 || (0x21 <= b && b <= 0x7e)
}

/// Scans a quoted string from `i`, the index just after the opening quote.
/// Returns the index just after the closing quote, or `None` when the bytes
/// from `i` on are not a well-formed quoted string.
pub open spec fn quoted_end(s: Seq<u8>, i: int) -> Option<int>
    decreases s.len() - i,
{
    if 0 <= i && i < s.len() {
        if s[i] == 0x22 {  // "
            Some(i + 1)
        } else if s[i] == 0x5c {  // backslash
            if i + 1 < s.len() && is_qchar(s[i + 1]) {
                quoted_end(s, i + 2)
            } else {
                None
            }
        } else if is_qdtext(s[i]) {
            quoted_end(s, i + 1)
        } else {
            None
        }
    } else {
        None
    }
}

pub proof fn lemma_quoted_end_bounds(s: Seq<u8>, i: int)
    requires
        0 <= i <= s.len(),
    ensures
        quoted_end(s, i) matches Some(v) ==> i < v <= s.len(),
    decreases s.len() - i,
{
    if i < s.len() {
        if s[i] == 0x5c {
            if i + 1 < s.len() && is_qchar(s[i + 1]) {
                lemma_quoted_end_bounds(s, i + 2);
            }
        } else if s[i] != 0x22 && is_qdtext(s[i]) {
            lemma_quoted_end_bounds(s, i + 1);
        }
    }
}

fn quoted_end_x(s: &[u8], i: usize) -> (r: Option<usize>)
    requires
        i <= s@.len(),
    ensures
        match r {
            Some(v) => quoted_end(s@, i as int) == Some(v as int) && i < v && v <= s@.len(),
            None => quoted_end(s@, i as int) is None,
        },
{
    let mut cur: usize = i;
    loop
        invariant
            i <= cur <= s@.len(),
            quoted_end(s@, i as int) == quoted_end(s@, cur as int),
        decreases s@.len() - cur,
    {
        if cur >= s.len() {
            return None;
        }
        let b = s[cur];
        if b == 0x22 {
            proof {
                lemma_quoted_end_bounds(s@, i as int);
            }
            return Some(cur + 1);
        } else if b == 0x5c {
            if cur + 1 < s.len() && qchar(s[cur + 1]) {
                cur = cur + 2;
            } else {
                return None;
            }
        } else if qdtext(b) {
            cur = cur + 1;
        } else {
            return None;
        }
    }
}

/// Scans one parameter value starting at `i`: either a quoted string or a
/// non-empty token. Returns the index just after the value.
pub open spec fn param_value_end(s: Seq<u8>, i: int) -> Option<int> {
    if 0 <= i && i < s.len() && s[i] == 0x22 {
        quoted_end(s, i + 1)
    } else {
        if i < token_end(s, i) {
            Some(token_end(s, i))
        } else {
            None
        }
    }
}

pub proof fn lemma_param_value_end_bounds(s: Seq<u8>, i: int)
    requires
        0 <= i <= s.len(),
    ensures
        param_value_end(s, i) matches Some(v) ==> i < v <= s.len(),
{
    if i < s.len() && s[i] == 0x22 {
        lemma_quoted_end_bounds(s, i + 1);
    } else {
        lemma_token_end_bounds(s, i);
    }
}

fn param_value_end_x(s: &[u8], i: usize) -> (r: Option<usize>)
    requires
        i <= s@.len(),
    ensures
        match r {
            Some(v) => param_value_end(s@, i as int) == Some(v as int) && i < v && v <= s@.len(),
            None => param_value_end(s@, i as int) is None,
        },
{
    if i < s.len() && s[i] == 0x22 {
        quoted_end_x(s, i + 1)
    } else {
        let e = token_end_x(s, i);
        if i < e {
            Some(e)
        } else {
            None
        }
    }
}

/// True when the bytes from `i` on are a well-formed parameter list:
/// optional whitespace, then either the end of the value or `;`, optional
/// whitespace, a `token=value` parameter, and so on.
pub open spec fn params_ok(s: Seq<u8>, i: int) -> bool
    decreases s.len() - i,
    when 0 <= i <= s.len()
    via params_ok_decreases
{
    let j = skip_ows(s, i);
    if j >= s.len() {
        true
    } else if s[j] == 0x3b {  // ;
        let k = skip_ows(s, j + 1);
        let e = token_end(s, k);
        if k < e && e < s.len() && s[e] == 0x3d {  // =
            match param_value_end(s, e + 1) {
                Some(v) => params_ok(s, v),
                None => false,
            }
        } else {
            false
        }
    } else {
        false
    }
}

#[via_fn]
proof fn params_ok_decreases(s: Seq<u8>, i: int) {
    lemma_skip_ows_bounds(s, i);
    let j = skip_ows(s, i);
    if j < s.len() && s[j] == 0x3b {
        lemma_skip_ows_bounds(s, j + 1);
        let k = skip_ows(s, j + 1);
        lemma_token_end_bounds(s, k);
        let e = token_end(s, k);
        if k < e && e < s.len() && s[e] == 0x3d {
            lemma_param_value_end_bounds(s, e + 1);
        }
    }
}

fn params_ok_x(s: &[u8], i: usize) -> (r: bool)
    requires
        i <= s@.len(),
    ensures
        r == params_ok(s@, i as int),
{
    let mut cur: usize = i;
    loop
        invariant
            i <= cur <= s@.len(),
            params_ok(s@, i as int) == params_ok(s@, cur as int),
        decreases s@.len() - cur,
    {
        let j = skip_ows_x(s, cur);
        if j >= s.len() {
            return true;
        }
        if s[j] != 0x3b {
            return false;
        }
        let k = skip_ows_x(s, j + 1);
        let e = token_end_x(s, k);
        if !(k < e && e < s.len() && s[e] == 0x3d) {
            return false;
        }
        match param_value_end_x(s, e + 1) {
            None => {
                return false;
            },
            Some(v) => {
                cur = v;
            },
        }
    }
}

/// The essence of a media type value: the primary type and the subtype,
/// folded to lower case, with any parameters checked and dropped. `None`
/// when the value does not fit the grammar.
pub open spec fn spec_parse_essence(s: Seq<u8>) -> Option<(Seq<u8>, Seq<u8>)> {
    let t_end = token_end(s, 0);
    if 0 < t_end && t_end < s.len() && s[t_end] == 0x2f {  // /
        let sub_end = token_end(s, t_end + 1);
        if t_end + 1 < sub_end && params_ok(s, sub_end) {
            Some((lower_seq(s.subrange(0, t_end)), lower_seq(s.subrange(t_end + 1, sub_end))))
        } else {
            None
        }
    } else {
        None
    }
}

/// True when `value` names the same media type as `expected`: both parse,
/// and their primary types and subtypes agree up to ASCII case. Parameters
/// on either side are ignored.
pub open spec fn spec_media_type_matches(value: Seq<u8>, expected: Seq<u8>) -> bool {
    match (spec_parse_essence(value), spec_parse_essence(expected)) {
        (Some(v), Some(e)) => v == e,
        _ => false,
    }
}

/// A parsed `Content-Type` value: primary type and subtype, lower-cased,
/// parameters already checked and dropped.
pub struct MediaType {
    pub primary: Vec<u8>,
    pub subtype: Vec<u8>,
}

fn lower_range(s: &[u8], a: usize, b: usize) -> (r: Vec<u8>)
    requires
        a <= b <= s@.len(),
    ensures
        r@ == lower_seq(s@.subrange(a as int, b as int)),
{
    let mut out: Vec<u8> = Vec::new();
    let mut i: usize = a;
    while i < b
        invariant
            a <= i <= b <= s@.len(),
            out@.len() == i - a,
            forall|k: int| 0 <= k < out@.len() ==> out@[k] == to_lower(s@[a + k]),
        decreases b - i,
    {
        out.push(lower_byte(s[i]));
        i = i + 1;
    }
    proof {
        assert(out@ =~= lower_seq(s@.subrange(a as int, b as int)));
    }
    out
}

/// Equality of two byte sequences.
pub fn bytes_eq(a: &[u8], b: &[u8]) -> (r: bool)
    ensures
        r == (a@ == b@),
{
    if a.len() != b.len() {
        return false;
    }
    let mut i: usize = 0;
    while i < a.len()
        invariant
            i <= a@.len() == b@.len(),
            forall|k: int| 0 <= k < i ==> a@[k] == b@[k],
        decreases a@.len() - i,
    {
        if a[i] != b[i] {
            return false;
        }
        i = i + 1;
    }
    proof {
        assert(a@ =~= b@);
    }
    true
}

/// Parses a `Content-Type` value. Returns its lower-cased primary type and
/// subtype when the value fits the media type grammar, and `None` otherwise.
pub fn parse_media_type(value: &[u8]) -> (r: Option<MediaType>)
    ensures
        match r {
            Some(mt) => spec_parse_essence(value@) == Some((mt.primary@, mt.subtype@)),
            None => spec_parse_essence(value@) is None,
        },
{
    let t_end = token_end_x(value, 0);
    if !(0 < t_end && t_end < value.len() && value[t_end] == 0x2f) {
        return None;
    }
    let sub_end = token_end_x(value, t_end + 1);
    if !(t_end + 1 < sub_end) {
        return None;
    }
    if !params_ok_x(value, sub_end) {
        return None;
    }
    Some(
        MediaType {
            primary: lower_range(value, 0, t_end),
            subtype: lower_range(value, t_end + 1, sub_end),
        },
    )
}

proof fn lemma_token_end_characterize(s: Seq<u8>, i: int, j: int)
    requires
        0 <= i <= j <= s.len(),
        forall|k: int| i <= k < j ==> is_tchar(s[k]),
        j == s.len() || !is_tchar(s[j]),
    ensures
        token_end(s, i) == j,
    decreases j - i,
{
    if i < j {
        lemma_token_end_characterize(s, i + 1, j);
    }
}

proof fn lemma_skip_ows_shift(p: Seq<u8>, s: Seq<u8>, i: int)
    requires
        0 <= i <= s.len(),
    ensures
        skip_ows(p + s, p.len() + i) == p.len() + skip_ows(s, i),
    decreases s.len() - i,
{
    if i < s.len() {
        assert((p + s)[p.len() + i] == s[i]);
        if is_ows(s[i]) {
            lemma_skip_ows_shift(p, s, i + 1);
        }
    }
}

proof fn lemma_token_end_shift(p: Seq<u8>, s: Seq<u8>, i: int)
    requires
        0 <= i <= s.len(),
    ensures
        token_end(p + s, p.len() + i) == p.len() + token_end(s, i),
    decreases s.len() - i,
{
    if i < s.len() {
        assert((p + s)[p.len() + i] == s[i]);
        if is_tchar(s[i]) {
            lemma_token_end_shift(p, s, i + 1);
        }
    }
}

proof fn lemma_quoted_end_shift(p: Seq<u8>, s: Seq<u8>, i: int)
    requires
        0 <= i <= s.len(),
    ensures
        quoted_end(p + s, p.len() + i) == match quoted_end(s, i) {
            Some(v) => Some(p.len() + v),
            None => None::<int>,
        },
    decreases s.len() - i,
{
    if i < s.len() {
        assert((p + s)[p.len() + i] == s[i]);
        if s[i] == 0x5c {
            if i + 1 < s.len() {
                assert((p + s)[p.len() + i + 1] == s[i + 1]);
                if is_qchar(s[i + 1]) {
                    lemma_quoted_end_shift(p, s, i + 2);
                }
            }
        } else if s[i] != 0x22 && is_qdtext(s[i]) {
            lemma_quoted_end_shift(p, s, i + 1);
        }
    }
}

proof fn lemma_param_value_end_shift(p: Seq<u8>, s: Seq<u8>, i: int)
    requires
        0 <= i <= s.len(),
    ensures
        param_value_end(p + s, p.len() + i) == match param_value_end(s, i) {
            Some(v) => Some(p.len() + v),
            None => None::<int>,
        },
{
    if i < s.len() {
        assert((p + s)[p.len() + i] == s[i]);
    }
    if 0 <= i && i < s.len() && s[i] == 0x22 {
        lemma_quoted_end_shift(p, s, i + 1);
    } else {
        lemma_token_end_shift(p, s, i);
    }
}

proof fn lemma_params_ok_shift(p: Seq<u8>, s: Seq<u8>, i: int)
    requires
        0 <= i <= s.len(),
    ensures
        params_ok(p + s, p.len() + i) == params_ok(s, i),
    decreases s.len() - i,
{
    lemma_skip_ows_shift(p, s, i);
    lemma_skip_ows_bounds(s, i);
    let j = skip_ows(s, i);
    if j < s.len() {
        assert((p + s)[p.len() + j] == s[j]);
        if s[j] == 0x3b {
            lemma_skip_ows_shift(p, s, j + 1);
            lemma_skip_ows_bounds(s, j + 1);
            let k = skip_ows(s, j + 1);
            lemma_token_end_shift(p, s, k);
            lemma_token_end_bounds(s, k);
            let e = token_end(s, k);
            if k < e && e < s.len() && s[e] == 0x3d {
                assert((p + s)[p.len() + e] == s[e]);
                lemma_param_value_end_shift(p, s, e + 1);
                lemma_param_value_end_bounds(s, e + 1);
                match param_value_end(s, e + 1) {
                    Some(v) => {
                        lemma_params_ok_shift(p, s, v);
                    },
                    None => {},
                }
            } else {
                if e < s.len() {
                    assert((p + s)[p.len() + e] == s[e]);
                }
            }
        }
    }
}

/// A bare media type: a type, a slash, and a subtype, with nothing after
/// them — the shape an expected content type is written in.
pub open spec fn is_bare_media_type(s: Seq<u8>) -> bool {
    let t_end = token_end(s, 0);
    &&& 0 < t_end
    &&& t_end < s.len()
    &&& s[t_end] == 0x2f
    &&& t_end + 1 < s.len()
    &&& token_end(s, t_end + 1) == s.len()
}

/// Decides whether `s` is a bare media type, the shape an expected
/// content type is written in.
pub fn is_bare_media_type_x(s: &[u8]) -> (r: bool)
    ensures
        r == is_bare_media_type(s@),
{
    let t_end = token_end_x(s, 0);
    if !(0 < t_end && t_end < s.len() && s[t_end] == 0x2f) {
        return false;
    }
    t_end + 1 < s.len() && token_end_x(s, t_end + 1) == s.len()
}

/// A bare media type parses, and its essence is itself, lower-cased.
pub proof fn lemma_bare_media_type_parses(e: Seq<u8>)
    requires
        is_bare_media_type(e),
    ensures
        spec_parse_essence(e) == Some(
            (
                lower_seq(e.subrange(0, token_end(e, 0))),
                lower_seq(e.subrange(token_end(e, 0) + 1, e.len() as int)),
            ),
        ),
{
    lemma_token_end_bounds(e, 0);
    assert(skip_ows(e, e.len() as int) == e.len() as int);
    assert(params_ok(e, e.len() as int));
}

/// Parameters are ignored by the matcher: a `Content-Type` value made of a
/// bare expected media type followed by any well-formed parameter list —
/// `; charset=utf-8`, say — has the same essence as the bare media type,
/// and so matches it.
pub proof fn lemma_parameters_ignored(essence: Seq<u8>, params: Seq<u8>)
    requires
        is_bare_media_type(essence),
        params_ok(params, 0),
    ensures
        spec_parse_essence(essence + params) == spec_parse_essence(essence),
        spec_media_type_matches(essence + params, essence),
{
    let s = essence + params;
    let n = essence.len() as int;
    let t = token_end(essence, 0);
    lemma_token_end_bounds(essence, 0);
    lemma_token_end_bounds(essence, t + 1);
    lemma_bare_media_type_parses(essence);
    // The byte right after the subtype, if any, opens a parameter list:
    // whitespace or a semicolon, never a token byte.
    if params.len() > 0 {
        lemma_skip_ows_bounds(params, 0);
        let j0 = skip_ows(params, 0);
        if !is_ows(params[0]) {
            assert(j0 == 0);
            assert(params[0] == 0x3b);
        }
        assert(!is_tchar(params[0]));
        assert(s[n] == params[0]);
    }
    // The type and subtype tokens of `s` are those of `essence`.
    assert(forall|k: int| 0 <= k < n ==> s[k] == essence[k]);
    lemma_token_end_characterize(s, 0, t);
    lemma_token_end_characterize(s, t + 1, n);
    // The appended bytes are a well-formed parameter list of `s`.
    lemma_params_ok_shift(essence, params, 0);
    assert(params_ok(s, n));
    // The essences coincide, byte for byte.
    assert(s.subrange(0, t) =~= essence.subrange(0, t));
    assert(s.subrange(t + 1, n) =~= essence.subrange(t + 1, n));
}

/// A header value that is itself a well-formed media type, but whose
/// primary type/subtype pair differs from the expected one, never matches.
pub proof fn lemma_different_media_type_never_matches(value: Seq<u8>, expected: Seq<u8>)
    requires
        spec_parse_essence(value) is Some,
        spec_parse_essence(value) != spec_parse_essence(expected),
    ensures
        !spec_media_type_matches(value, expected),
{
}

/// True when `value` names the same media type as `expected`, parameters
/// aside and ASCII case aside.
pub fn media_type_matches(value: &[u8], expected: &[u8]) -> (r: bool)
    ensures
        r == spec_media_type_matches(value@, expected@),
{
    let v = parse_media_type(value);
    let e = parse_media_type(expected);
    match (v, e) {
        (Some(vm), Some(em)) => {
            bytes_eq(vm.primary.as_slice(), em.primary.as_slice()) && bytes_eq(
                vm.subtype.as_slice(),
                em.subtype.as_slice(),
            )
        },
        _ => false,
    }
}

} // verus!
