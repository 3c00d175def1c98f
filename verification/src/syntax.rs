//! The JSON syntax layer: one pass over the document's characters into the
//! untyped tree of `Json` values.
//!
//! `spec_json_of` is the spec-level reading of the text — a recursive mirror
//! of the grammar over the character sequence — and the executable parser is
//! proved to return exactly that reading: `Ok(j)` if and only if the text
//! denotes the tree `j`.  Every failure here is `MalformedDocument`; schema
//! checks come later in the mapper.  Numbers are read exactly into decimals,
//! remembering whether the lexeme was float-form; a literal whose digits do
//! not fit the decimal representation (mantissa beyond `u64`, exponent beyond
//! five digits) is rejected rather than rounded.

use vstd::prelude::*;

use crate::errors::{ErrV, ParseError};
use crate::json::{
    Json, JsonV, fields_view, elems_view, lemma_elems_view_push, lemma_fields_view_push,
};
use crate::text::{char_from_u32, char_of, chars_of, string_of_chars};
use crate::wirenum::{Decimal, spec_normalize};

verus! {

/// The largest mantissa that another decimal digit cannot overflow.
pub open spec fn spec_mantissa_cap() -> u64 {
    1844674407370955160u64
}

pub open spec fn spec_is_ws(c: char) -> bool {
    c == ' ' || c == '\t' || c == '\n' || c == '\r'
}

/// The first position at or after `i` holding a non-whitespace character.
pub open spec fn spec_skip_ws(s: Seq<char>, i: int) -> int
    decreases s.len() - i,
{
    if 0 <= i < s.len() && spec_is_ws(s[i]) {
        spec_skip_ws(s, i + 1)
    } else {
        i
    }
}

pub open spec fn spec_digit_val(c: char) -> Option<u64> {
    if 48 <= c as u32 <= 57 {
        Some(((c as u32) - 48) as u64)
    } else {
        None
    }
}

pub open spec fn spec_hex_val(c: char) -> Option<u32> {
    if 48 <= c as u32 <= 57 {
        Some((c as u32 - 48) as u32)
    } else if 97 <= c as u32 <= 102 {
        Some((10 + (c as u32 - 97)) as u32)
    } else if 65 <= c as u32 <= 70 {
        Some((10 + (c as u32 - 65)) as u32)
    } else {
        None
    }
}

/// Four hexadecimal digits read at `i`.
pub open spec fn spec_hex4(s: Seq<char>, i: int) -> Option<u32> {
    if 0 <= i && i + 4 <= s.len() {
        match (spec_hex_val(s[i]), spec_hex_val(s[i + 1]), spec_hex_val(s[i + 2]), spec_hex_val(
            s[i + 3],
        )) {
            (Some(a), Some(b), Some(c), Some(d)) => Some(
                (((a * 16 + b) * 16 + c) * 16 + d) as u32,
            ),
            _ => None,
        }
    } else {
        None
    }
}

/// The character a single-character escape denotes.
pub open spec fn spec_escape_char(e: char) -> Option<char> {
    if e == '"' {
        Some('"')
    } else if e == '\\' {
        Some('\\')
    } else if e == '/' {
        Some('/')
    } else if e == 'b' {
        Some('\u{0008}')
    } else if e == 'f' {
        Some('\u{000C}')
    } else if e == 'n' {
        Some('\n')
    } else if e == 'r' {
        Some('\r')
    } else if e == 't' {
        Some('\t')
    } else {
        None
    }
}

/// The body of a string literal read from `i` (after the opening quote),
/// with `acc` the characters decoded so far: the decoded text and the
/// position after the closing quote.
pub open spec fn spec_string_body(s: Seq<char>, i: int, acc: Seq<char>) -> Option<(Seq<char>, int)>
    decreases s.len() - i,
{
    if !(0 <= i < s.len()) {
        None
    } else {
        let c = s[i];
        if c == '"' {
            Some((acc, i + 1))
        } else if c == '\\' {
            if i + 1 >= s.len() {
                None
            } else {
                let e = s[i + 1];
                if e == 'u' {
                    if s.len() - i < 6 {
                        None
                    } else {
                        match spec_hex4(s, i + 2) {
                            None => None,
                            Some(hi) => if 0xD800 <= hi && hi < 0xDC00 {
                                if s.len() - i < 12 || s[i + 6] != '\\' || s[i + 7] != 'u' {
                                    None
                                } else {
                                    match spec_hex4(s, i + 8) {
                                        None => None,
                                        Some(lo) => if !(0xDC00 <= lo && lo < 0xE000) {
                                            None
                                        } else {
                                            spec_string_body(
                                                s,
                                                i + 12,
                                                acc.push(
                                                    char_of(
                                                        (0x10000 + (hi - 0xD800) * 0x400 + (lo
                                                            - 0xDC00)) as u32,
                                                    ),
                                                ),
                                            )
                                        },
                                    }
                                }
                            } else if 0xDC00 <= hi && hi < 0xE000 {
                                None
                            } else {
                                spec_string_body(s, i + 6, acc.push(char_of(hi)))
                            },
                        }
                    }
                } else {
                    match spec_escape_char(e) {
                        None => None,
                        Some(ch) => spec_string_body(s, i + 2, acc.push(ch)),
                    }
                }
            }
        } else if (c as u32) < 0x20 {
            None
        } else {
            spec_string_body(s, i + 1, acc.push(c))
        }
    }
}

/// A string literal read at `i`, which must hold the opening quote.
pub open spec fn spec_string_at(s: Seq<char>, i: int) -> Option<(Seq<char>, int)> {
    if 0 <= i < s.len() && s[i] == '"' {
        spec_string_body(s, i + 1, Seq::empty())
    } else {
        None
    }
}

/// Integer digits accumulated into `m` from position `i` on.
pub open spec fn spec_scan_int(s: Seq<char>, i: int, m: u64) -> Option<(u64, int)>
    decreases s.len() - i,
{
    if 0 <= i < s.len() && spec_digit_val(s[i]) is Some {
        match spec_digit_val(s[i]) {
            Some(d) => if m > spec_mantissa_cap() {
                None
            } else {
                spec_scan_int(s, i + 1, (m * 10 + d) as u64)
            },
            None => None,
        }
    } else {
        Some((m, i))
    }
}

/// Fraction digits accumulated into `m`, counting the scale.
pub open spec fn spec_scan_frac(s: Seq<char>, i: int, m: u64, sc: u32) -> Option<(u64, u32, int)>
    decreases s.len() - i,
{
    if 0 <= i < s.len() && spec_digit_val(s[i]) is Some {
        match spec_digit_val(s[i]) {
            Some(d) => if m > spec_mantissa_cap() || sc == u32::MAX {
                None
            } else {
                spec_scan_frac(s, i + 1, (m * 10 + d) as u64, (sc + 1) as u32)
            },
            None => None,
        }
    } else {
        Some((m, sc, i))
    }
}

/// Exponent digits accumulated into `ev`, capped at five digits.
pub open spec fn spec_scan_exp(s: Seq<char>, i: int, ev: u64) -> Option<(u64, int)>
    decreases s.len() - i,
{
    if 0 <= i < s.len() && spec_digit_val(s[i]) is Some {
        match spec_digit_val(s[i]) {
            Some(d) => if ev > 99999 {
                None
            } else {
                spec_scan_exp(s, i + 1, (ev * 10 + d) as u64)
            },
            None => None,
        }
    } else {
        Some((ev, i))
    }
}

/// A positive exponent applied: the scale is consumed first, then the
/// mantissa is multiplied out, failing when it no longer fits.
pub open spec fn spec_pow_shift(m: u64, sc: u32, k: u64) -> Option<(u64, u32)>
    decreases k,
{
    if k == 0 {
        Some((m, sc))
    } else if sc > 0 {
        spec_pow_shift(m, (sc - 1) as u32, (k - 1) as u64)
    } else if m > spec_mantissa_cap() {
        None
    } else {
        spec_pow_shift((m * 10) as u64, 0, (k - 1) as u64)
    }
}

/// The tail of a number after its integer digits: optional fraction, then
/// optional exponent.  `negzero` marks the float-form lexeme `-0`.
pub open spec fn spec_number_frac(s: Seq<char>, i: int, neg: bool, m: u64, negzero: bool) -> Option<
    (Decimal, int),
> {
    if 0 <= i < s.len() && s[i] == '.' {
        if i + 1 < s.len() && spec_digit_val(s[i + 1]) is Some {
            match spec_scan_frac(s, i + 1, m, 0) {
                None => None,
                Some((m2, sc, i2)) => spec_number_exp(s, i2, neg, m2, sc, true, negzero),
            }
        } else {
            None
        }
    } else {
        spec_number_exp(s, i, neg, m, 0, false, negzero)
    }
}

pub open spec fn spec_number_exp(
    s: Seq<char>,
    i: int,
    neg: bool,
    m: u64,
    sc: u32,
    dotted: bool,
    negzero: bool,
) -> Option<(Decimal, int)> {
    if 0 <= i < s.len() && (s[i] == 'e' || s[i] == 'E') {
        let eneg = i + 1 < s.len() && s[i + 1] == '-';
        let i1 = if i + 1 < s.len() && (s[i + 1] == '+' || s[i + 1] == '-') {
            i + 2
        } else {
            i + 1
        };
        if !(i1 < s.len() && spec_digit_val(s[i1]) is Some) {
            None
        } else {
            match spec_scan_exp(s, i1, 0) {
                None => None,
                Some((ev, i2)) => if eneg {
                    if sc as int + ev as int > u32::MAX as int {
                        None
                    } else {
                        Some((spec_normalize(neg, m, (sc + ev) as u32, true), i2))
                    }
                } else {
                    match spec_pow_shift(m, sc, ev) {
                        None => None,
                        Some((m3, sc3)) => Some((spec_normalize(neg, m3, sc3, true), i2)),
                    }
                },
            }
        }
    } else {
        Some((spec_normalize(neg, m, sc, dotted || negzero), i))
    }
}

/// A number literal read at `i`: sign, integer digits without a leading
/// zero, optional fraction and exponent.
pub open spec fn spec_number_at(s: Seq<char>, pos: int) -> Option<(Decimal, int)> {
    let neg = 0 <= pos < s.len() && s[pos] == '-';
    let i1 = if neg {
        pos + 1
    } else {
        pos
    };
    if !(0 <= i1 < s.len()) {
        None
    } else {
        match spec_digit_val(s[i1]) {
            None => None,
            Some(first) => if first == 0 && i1 + 1 < s.len() && spec_digit_val(s[i1 + 1])
                is Some {
                None
            } else {
                match spec_scan_int(s, i1 + 1, first) {
                    None => None,
                    Some((m1, i2)) => spec_number_frac(s, i2, neg, m1, neg && m1 == 0),
                }
            },
        }
    }
}

/// One JSON value read at `pos`, whitespace allowed before it.
pub open spec fn spec_value_at(s: Seq<char>, pos: int) -> Option<(JsonV, int)>
    decreases s.len() - pos, 0int,
{
    let p = spec_skip_ws(s, pos);
    if !(0 <= p && pos <= p && p < s.len()) {
        None
    } else {
        let c = s[p];
        if c == '{' {
            let q0 = spec_skip_ws(s, p + 1);
            if !(pos < q0 <= s.len()) {
                None
            } else if q0 < s.len() && s[q0] == '}' {
                Some((JsonV::Obj(Seq::empty()), q0 + 1))
            } else {
                spec_obj_tail(s, q0, Seq::empty())
            }
        } else if c == '[' {
            let q0 = spec_skip_ws(s, p + 1);
            if !(pos < q0 <= s.len()) {
                None
            } else if q0 < s.len() && s[q0] == ']' {
                Some((JsonV::Arr(Seq::empty()), q0 + 1))
            } else {
                spec_arr_tail(s, q0, Seq::empty())
            }
        } else if c == '"' {
            match spec_string_at(s, p) {
                None => None,
                Some((t, q)) => Some((JsonV::Str(t), q)),
            }
        } else if c == 't' {
            if s.len() - p >= 4 && s[p + 1] == 'r' && s[p + 2] == 'u' && s[p + 3] == 'e' {
                Some((JsonV::Bool(true), p + 4))
            } else {
                None
            }
        } else if c == 'f' {
            if s.len() - p >= 5 && s[p + 1] == 'a' && s[p + 2] == 'l' && s[p + 3] == 's' && s[p
                + 4] == 'e' {
                Some((JsonV::Bool(false), p + 5))
            } else {
                None
            }
        } else if c == 'n' {
            if s.len() - p >= 4 && s[p + 1] == 'u' && s[p + 2] == 'l' && s[p + 3] == 'l' {
                Some((JsonV::Null, p + 4))
            } else {
                None
            }
        } else if c == '-' || spec_digit_val(c) is Some {
            match spec_number_at(s, p) {
                None => None,
                Some((d, q)) => Some((JsonV::Num(d), q)),
            }
        } else {
            None
        }
    }
}

/// The members of an object from position `q` (at a key), `items` already
/// read.
pub open spec fn spec_obj_tail(
    s: Seq<char>,
    q: int,
    items: Seq<(Seq<char>, JsonV)>,
) -> Option<(JsonV, int)>
    decreases s.len() - q, 1int,
{
    match spec_string_at(s, q) {
        None => None,
        Some((key, q1)) => {
            let q2 = spec_skip_ws(s, q1);
            if !(q2 < s.len() && s[q2] == ':') {
                None
            } else {
                let q3 = spec_skip_ws(s, q2 + 1);
                if !(q < q3 <= s.len()) {
                    None
                } else {
                    match spec_value_at(s, q3) {
                        None => None,
                        Some((v, q4)) => {
                            let q5 = spec_skip_ws(s, q4);
                            let items2 = items.push((key, v));
                            if q5 < s.len() && s[q5] == ',' {
                                let q6 = spec_skip_ws(s, q5 + 1);
                                if q < q6 <= s.len() {
                                    spec_obj_tail(s, q6, items2)
                                } else {
                                    None
                                }
                            } else if q5 < s.len() && s[q5] == '}' {
                                Some((JsonV::Obj(items2), q5 + 1))
                            } else {
                                None
                            }
                        },
                    }
                }
            }
        },
    }
}

/// The elements of an array from position `q` (at a value), `items` already
/// read.
pub open spec fn spec_arr_tail(s: Seq<char>, q: int, items: Seq<JsonV>) -> Option<(JsonV, int)>
    decreases s.len() - q, 1int,
{
    if !(0 <= q <= s.len()) {
        None
    } else {
        match spec_value_at(s, q) {
            None => None,
            Some((v, q1)) => {
                let q2 = spec_skip_ws(s, q1);
                let items2 = items.push(v);
                if q2 < s.len() && s[q2] == ',' {
                    let q3 = spec_skip_ws(s, q2 + 1);
                    if q < q3 <= s.len() {
                        spec_arr_tail(s, q3, items2)
                    } else {
                        None
                    }
                } else if q2 < s.len() && s[q2] == ']' {
                    Some((JsonV::Arr(items2), q2 + 1))
                } else {
                    None
                }
            },
        }
    }
}

/// The tree one whole JSON text denotes, if it denotes one: a single value
/// with nothing but whitespace around it.
pub open spec fn spec_json_of(text: Seq<char>) -> Option<JsonV> {
    match spec_value_at(text, 0) {
        None => None,
        Some((v, q)) => if spec_skip_ws(text, q) == text.len() {
            Some(v)
        } else {
            None
        },
    }
}

fn is_ws(c: char) -> (r: bool)
    ensures
        r == spec_is_ws(c),
{
    c == ' ' || c == '\t' || c == '\n' || c == '\r'
}

fn skip_ws(s: &Vec<char>, pos: usize) -> (r: usize)
    requires
        pos <= s@.len(),
    ensures
        pos <= r <= s@.len(),
        r as int == spec_skip_ws(s@, pos as int),
{
    let mut i = pos;
    while i < s.len() && is_ws(s[i])
        invariant
            pos <= i <= s@.len(),
            spec_skip_ws(s@, pos as int) == spec_skip_ws(s@, i as int),
        decreases s@.len() - i,
    {
        i += 1;
    }
    i
}

fn digit_val(c: char) -> (r: Option<u64>)
    ensures
        r == spec_digit_val(c),
        (match r {
            Some(v) => v <= 9,
            None => true,
        }),
{
    let u = c as u32;
    if 48 <= u && u <= 57 {
        Some((u - 48) as u64)
    } else {
        None
    }
}

fn hex_val(c: char) -> (r: Option<u32>)
    ensures
        r == spec_hex_val(c),
        (match r {
            Some(v) => v < 16,
            None => true,
        }),
{
    let u = c as u32;
    if 48 <= u && u <= 57 {
        Some(u - 48)
    } else if 97 <= u && u <= 102 {
        Some(10 + (u - 97))
    } else if 65 <= u && u <= 70 {
        Some(10 + (u - 65))
    } else {
        None
    }
}

fn escape_char(e: char) -> (r: Option<char>)
    ensures
        r == spec_escape_char(e),
{
    if e == '"' {
        Some('"')
    } else if e == '\\' {
        Some('\\')
    } else if e == '/' {
        Some('/')
    } else if e == 'b' {
        Some('\u{0008}')
    } else if e == 'f' {
        Some('\u{000C}')
    } else if e == 'n' {
        Some('\n')
    } else if e == 'r' {
        Some('\r')
    } else if e == 't' {
        Some('\t')
    } else {
        None
    }
}

/// Four hexadecimal digits read at `pos`.
fn hex4_at(s: &Vec<char>, pos: usize) -> (r: Result<u32, ParseError>)
    requires
        pos + 4 <= s@.len(),
    ensures
        (match r {
            Ok(v) => spec_hex4(s@, pos as int) == Some(v) && v <= 0xFFFF,
            Err(e) => spec_hex4(s@, pos as int) is None && e@ == ErrV::Malformed,
        }),
{
    let len = s.len();
    let a = match hex_val(s[pos]) {
        Some(x) => x,
        None => return Err(ParseError::MalformedDocument),
    };
    let b = match hex_val(s[pos + 1]) {
        Some(x) => x,
        None => return Err(ParseError::MalformedDocument),
    };
    let c = match hex_val(s[pos + 2]) {
        Some(x) => x,
        None => return Err(ParseError::MalformedDocument),
    };
    let d = match hex_val(s[pos + 3]) {
        Some(x) => x,
        None => return Err(ParseError::MalformedDocument),
    };
    Ok(((a * 16 + b) * 16 + c) * 16 + d)
}

/// A JSON string literal read at `pos` (which must hold the opening quote),
/// with all escape forms of the grammar, surrogate pairs included.
fn parse_string_at(s: &Vec<char>, pos: usize) -> (r: Result<(String, usize), ParseError>)
    requires
        pos <= s@.len(),
    ensures
        (match r {
            Ok((t, q)) => spec_string_at(s@, pos as int) == Some((t@, q as int)) && pos < q
                <= s@.len(),
            Err(e) => spec_string_at(s@, pos as int) is None && e@ == ErrV::Malformed,
        }),
{
    let len = s.len();
    if pos >= len || s[pos] != '"' {
        return Err(ParseError::MalformedDocument);
    }
    let mut out: Vec<char> = Vec::new();
    let mut i = pos + 1;
    while i < len
        invariant
            pos < i <= len,
            len == s@.len(),
            s@[pos as int] == '"',
            spec_string_at(s@, pos as int) == spec_string_body(s@, i as int, out@),
        decreases len - i,
    {
        let c = s[i];
        if c == '"' {
            let t = string_of_chars(&out);
            return Ok((t, i + 1));
        }
        if c == '\\' {
            if i + 1 >= len {
                return Err(ParseError::MalformedDocument);
            }
            let e = s[i + 1];
            if e == 'u' {
                if len - i < 6 {
                    return Err(ParseError::MalformedDocument);
                }
                let hi = match hex4_at(s, i + 2) {
                    Ok(v) => v,
                    Err(er) => return Err(er),
                };
                if 0xD800 <= hi && hi < 0xDC00 {
                    if len - i < 12 || s[i + 6] != '\\' || s[i + 7] != 'u' {
                        return Err(ParseError::MalformedDocument);
                    }
                    let lo = match hex4_at(s, i + 8) {
                        Ok(v) => v,
                        Err(er) => return Err(er),
                    };
                    if !(0xDC00 <= lo && lo < 0xE000) {
                        return Err(ParseError::MalformedDocument);
                    }
                    let code = 0x10000 + (hi - 0xD800) * 0x400 + (lo - 0xDC00);
                    match char_from_u32(code) {
                        Some(ch) => {
                            out.push(ch);
                        },
                        None => {
                            proof {
                                assert(false);
                            }
                            return Err(ParseError::MalformedDocument);
                        },
                    }
                    i += 12;
                } else if 0xDC00 <= hi && hi < 0xE000 {
                    return Err(ParseError::MalformedDocument);
                } else {
                    match char_from_u32(hi) {
                        Some(ch) => {
                            out.push(ch);
                        },
                        None => {
                            proof {
                                assert(false);
                            }
                            return Err(ParseError::MalformedDocument);
                        },
                    }
                    i += 6;
                }
            } else {
                match escape_char(e) {
                    Some(ch) => {
                        out.push(ch);
                        i += 2;
                    },
                    None => {
                        return Err(ParseError::MalformedDocument);
                    },
                }
            }
        } else {
            if (c as u32) < 0x20 {
                return Err(ParseError::MalformedDocument);
            }
            out.push(c);
            i += 1;
        }
    }
    Err(ParseError::MalformedDocument)
}

/// A JSON number literal read at `pos`, held exactly.
#[verifier::loop_isolation(false)]
#[verifier::rlimit(100)]
fn parse_number_at(s: &Vec<char>, pos: usize) -> (r: Result<(Decimal, usize), ParseError>)
    requires
        pos <= s@.len(),
    ensures
        (match r {
            Ok((d, q)) => spec_number_at(s@, pos as int) == Some((d, q as int)) && pos < q
                <= s@.len() && d.wf(),
            Err(e) => spec_number_at(s@, pos as int) is None && e@ == ErrV::Malformed,
        }),
{
    let len = s.len();
    let mut i = pos;
    let mut neg = false;
    if i < len && s[i] == '-' {
        neg = true;
        i += 1;
    }
    if i >= len {
        return Err(ParseError::MalformedDocument);
    }
    let first = match digit_val(s[i]) {
        Some(d) => d,
        None => return Err(ParseError::MalformedDocument),
    };
    if first == 0 && i + 1 < len && digit_val(s[i + 1]).is_some() {
        // the grammar forbids leading zeros
        return Err(ParseError::MalformedDocument);
    }
    let mut m: u64 = first;
    i += 1;
    let ghost int_i0: int = i as int;
    let ghost int_m0: u64 = m;
    while i < len && digit_val(s[i]).is_some()
        invariant
            pos < i <= len,
            len == s@.len(),
            spec_scan_int(s@, int_i0, int_m0) == spec_scan_int(s@, i as int, m),
        decreases len - i,
    {
        let d = match digit_val(s[i]) {
            Some(d) => d,
            None => 0,
        };
        if m > 1844674407370955160u64 {
            return Err(ParseError::MalformedDocument);
        }
        m = m * 10 + d;
        i += 1;
    }
    proof {
        assert(spec_scan_int(s@, int_i0, int_m0) == Some((m, i as int)));
    }
    let negzero = neg && m == 0;
    let ghost frac_pos: int = i as int;
    let mut dotted = false;
    let mut scale: u32 = 0;
    if i < len && s[i] == '.' {
        dotted = true;
        i += 1;
        if i >= len || !digit_val(s[i]).is_some() {
            return Err(ParseError::MalformedDocument);
        }
        let ghost fr_i0: int = i as int;
        let ghost fr_m0: u64 = m;
        while i < len && digit_val(s[i]).is_some()
            invariant
                pos < i <= len,
                len == s@.len(),
                spec_scan_frac(s@, fr_i0, fr_m0, 0) == spec_scan_frac(s@, i as int, m, scale),
            decreases len - i,
        {
            let d = match digit_val(s[i]) {
                Some(d) => d,
                None => 0,
            };
            if m > 1844674407370955160u64 || scale == u32::MAX {
                return Err(ParseError::MalformedDocument);
            }
            m = m * 10 + d;
            scale += 1;
            i += 1;
        }
        proof {
            assert(spec_scan_frac(s@, fr_i0, fr_m0, 0) == Some((m, scale, i as int)));
        }
    }
    let ghost exp_pos: int = i as int;
    let ghost m_before_exp: u64 = m;
    let ghost scale_before_exp: u32 = scale;
    if i < len && (s[i] == 'e' || s[i] == 'E') {
        i += 1;
        let mut eneg = false;
        if i < len && (s[i] == '+' || s[i] == '-') {
            eneg = s[i] == '-';
            i += 1;
        }
        if i >= len || !digit_val(s[i]).is_some() {
            return Err(ParseError::MalformedDocument);
        }
        let ghost ex_i0: int = i as int;
        let mut ev: u64 = 0;
        while i < len && digit_val(s[i]).is_some()
            invariant
                pos < i <= len,
                len == s@.len(),
                ev <= 1000000,
                spec_scan_exp(s@, ex_i0, 0) == spec_scan_exp(s@, i as int, ev),
            decreases len - i,
        {
            let d = match digit_val(s[i]) {
                Some(d) => d,
                None => 0,
            };
            if ev > 99999 {
                return Err(ParseError::MalformedDocument);
            }
            ev = ev * 10 + d;
            i += 1;
        }
        proof {
            assert(spec_scan_exp(s@, ex_i0, 0) == Some((ev, i as int)));
        }
        if eneg {
            let total = (scale as u64) + ev;
            if total > u32::MAX as u64 {
                return Err(ParseError::MalformedDocument);
            }
            scale = total as u32;
        } else {
            let ghost ev0: u64 = ev;
            let mut k = ev;
            while k > 0
                invariant
                    spec_pow_shift(m_before_exp, scale_before_exp, ev0) == spec_pow_shift(
                        m,
                        scale,
                        k,
                    ),
                decreases k,
            {
                if scale > 0 {
                    scale = scale - 1;
                    k = k - 1;
                } else {
                    if m > 1844674407370955160u64 {
                        return Err(ParseError::MalformedDocument);
                    }
                    m = m * 10;
                    k = k - 1;
                }
            }
        }
        Ok((Decimal::new(neg, m, scale, true), i))
    } else {
        Ok((Decimal::new(neg, m, scale, dotted || negzero), i))
    }
}

/// One JSON value read at `pos`, whitespace allowed before it.
fn parse_value(s: &Vec<char>, pos: usize) -> (r: Result<(Json, usize), ParseError>)
    requires
        pos <= s@.len(),
    ensures
        (match r {
            Ok((v, q)) => spec_value_at(s@, pos as int) == Some((v@, q as int)) && pos < q
                <= s@.len(),
            Err(e) => spec_value_at(s@, pos as int) is None && e@ == ErrV::Malformed,
        }),
    decreases s@.len() - pos,
{
    let len = s.len();
    let p = skip_ws(s, pos);
    if p >= len {
        return Err(ParseError::MalformedDocument);
    }
    let c = s[p];
    if c == '{' {
        let mut items: Vec<(String, Json)> = Vec::new();
        proof {
            assert(fields_view(items@) =~= Seq::<(Seq<char>, JsonV)>::empty());
        }
        let q0 = skip_ws(s, p + 1);
        if q0 < len && s[q0] == '}' {
            return Ok((Json::Obj(items), q0 + 1));
        }
        let mut q = q0;
        loop
            invariant
                pos < q <= len,
                len == s@.len(),
                spec_value_at(s@, pos as int) == spec_obj_tail(s@, q as int, fields_view(items@)),
            decreases len - q,
        {
            let (key, q1) = match parse_string_at(s, q) {
                Ok(x) => x,
                Err(e) => return Err(e),
            };
            let q2 = skip_ws(s, q1);
            if q2 >= len || s[q2] != ':' {
                return Err(ParseError::MalformedDocument);
            }
            let q3 = skip_ws(s, q2 + 1);
            let (val, q4) = match parse_value(s, q3) {
                Ok(x) => x,
                Err(e) => return Err(e),
            };
            proof {
                lemma_fields_view_push(items@, (key, val));
            }
            items.push((key, val));
            let q5 = skip_ws(s, q4);
            if q5 < len && s[q5] == ',' {
                q = skip_ws(s, q5 + 1);
            } else if q5 < len && s[q5] == '}' {
                return Ok((Json::Obj(items), q5 + 1));
            } else {
                return Err(ParseError::MalformedDocument);
            }
        }
    } else if c == '[' {
        let mut items: Vec<Json> = Vec::new();
        proof {
            assert(elems_view(items@) =~= Seq::<JsonV>::empty());
        }
        let q0 = skip_ws(s, p + 1);
        if q0 < len && s[q0] == ']' {
            return Ok((Json::Arr(items), q0 + 1));
        }
        let mut q = q0;
        loop
            invariant
                pos < q <= len,
                len == s@.len(),
                spec_value_at(s@, pos as int) == spec_arr_tail(s@, q as int, elems_view(items@)),
            decreases len - q,
        {
            let (val, q1) = match parse_value(s, q) {
                Ok(x) => x,
                Err(e) => return Err(e),
            };
            proof {
                lemma_elems_view_push(items@, val);
            }
            items.push(val);
            let q2 = skip_ws(s, q1);
            if q2 < len && s[q2] == ',' {
                q = skip_ws(s, q2 + 1);
            } else if q2 < len && s[q2] == ']' {
                return Ok((Json::Arr(items), q2 + 1));
            } else {
                return Err(ParseError::MalformedDocument);
            }
        }
    } else if c == '"' {
        match parse_string_at(s, p) {
            Ok((t, q)) => Ok((Json::Str(t), q)),
            Err(e) => Err(e),
        }
    } else if c == 't' {
        if len - p >= 4 && s[p + 1] == 'r' && s[p + 2] == 'u' && s[p + 3] == 'e' {
            Ok((Json::Bool(true), p + 4))
        } else {
            Err(ParseError::MalformedDocument)
        }
    } else if c == 'f' {
        if len - p >= 5 && s[p + 1] == 'a' && s[p + 2] == 'l' && s[p + 3] == 's' && s[p + 4]
            == 'e' {
            Ok((Json::Bool(false), p + 5))
        } else {
            Err(ParseError::MalformedDocument)
        }
    } else if c == 'n' {
        if len - p >= 4 && s[p + 1] == 'u' && s[p + 2] == 'l' && s[p + 3] == 'l' {
            Ok((Json::Null, p + 4))
        } else {
            Err(ParseError::MalformedDocument)
        }
    } else if c == '-' || digit_val(c).is_some() {
        match parse_number_at(s, p) {
            Ok((d, q)) => Ok((Json::Num(d), q)),
            Err(e) => Err(e),
        }
    } else {
        Err(ParseError::MalformedDocument)
    }
}

/// Parses one JSON text document into its untyped tree: exactly the tree
/// `spec_json_of` reads off the text, and `MalformedDocument` exactly when
/// the text denotes none.
pub fn parse_json(text: &str) -> (r: Result<Json, ParseError>)
    ensures
        (match r {
            Ok(j) => spec_json_of(text@) == Some(j@),
            Err(e) => spec_json_of(text@) is None && e@ == ErrV::Malformed,
        }),
{
    let cs = chars_of(text);
    let (v, q) = match parse_value(&cs, 0) {
        Ok(x) => x,
        Err(e) => return Err(e),
    };
    let q2 = skip_ws(&cs, q);
    if q2 < cs.len() {
        return Err(ParseError::MalformedDocument);
    }
    Ok(v)
}

} // verus!
