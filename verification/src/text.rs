//! Small verified helpers on strings and character sequences.

use vstd::prelude::*;

verus! {

/// Character-by-character equality test on string slices.
pub fn str_eq(a: &str, b: &str) -> (r: bool)
    ensures
        r == (a@ == b@),
{
    let alen = a.unicode_len();
    let blen = b.unicode_len();
    if alen != blen {
        return false;
    }
    let mut i: usize = 0;
    while i < alen
        invariant
            i <= alen,
            alen == a@.len(),
            blen == b@.len(),
            alen == blen,
            forall|j: int| 0 <= j < i ==> a@[j] == b@[j],
        decreases alen - i,
    {
        if a.get_char(i) != b.get_char(i) {
            return false;
        }
        i += 1;
    }
    proof {
        assert(a@ =~= b@);
    }
    true
}

/// The characters of a string slice, as a vector.
pub fn chars_of(s: &str) -> (r: Vec<char>)
    ensures
        r@ == s@,
{
    let n = s.unicode_len();
    let mut r: Vec<char> = Vec::new();
    let mut i: usize = 0;
    while i < n
        invariant
            i <= n,
            n == s@.len(),
            r@ == s@.take(i as int),
        decreases n - i,
    {
        r.push(s.get_char(i));
        proof {
            assert(s@.take(i as int).push(s@[i as int]) =~= s@.take(i + 1 as int));
        }
        i += 1;
    }
    proof {
        assert(s@.take(n as int) =~= s@);
    }
    r
}

/// Relies on `String::push`: appends exactly one character to the string.
#[verifier::external_body]
pub fn push_char(s: &mut String, c: char)
    ensures
        final(s)@ == old(s)@.push(c),
{
    s.push(c);
}

/// The character with code point `v`, for valid scalar values.  The wrapper
/// below pins it: it is total here only so specs can name the character.
pub uninterp spec fn char_of(v: u32) -> char;

/// Relies on `char::from_u32`: `Some` exactly for code points that are not
/// surrogates and do not exceed 0x10FFFF, holding that code point.
#[verifier::external_body]
pub fn char_from_u32(v: u32) -> (r: Option<char>)
    ensures
        (match r {
            Some(c) => c == char_of(v) && c as u32 == v,
            None => true,
        }),
        r is Some <==> (v < 0xD800 || (0xE000 <= v && v <= 0x10FFFF)),
{
    char::from_u32(v)
}

/// A `String` holding exactly the given characters.
pub fn string_of_chars(cs: &Vec<char>) -> (r: String)
    ensures
        r@ == cs@,
{
    let mut r = String::new();
    let mut i: usize = 0;
    while i < cs.len()
        invariant
            i <= cs.len(),
            r@ == cs@.take(i as int),
        decreases cs.len() - i,
    {
        push_char(&mut r, cs[i]);
        proof {
            assert(cs@.take(i as int).push(cs@[i as int]) =~= cs@.take(i + 1 as int));
        }
        i += 1;
    }
    proof {
        assert(cs@.take(cs.len() as int) =~= cs@);
    }
    r
}

/// Two character sequences differing in length or at one index differ.
pub proof fn lemma_str_neq(a: Seq<char>, b: Seq<char>, i: int)
    requires
        a.len() != b.len() || (0 <= i < a.len() && i < b.len() && a[i] != b[i]),
    ensures
        a != b,
{
    if a == b {
        assert(a.len() == b.len());
        assert(a[i] == b[i]);
    }
}

/// A field-path breadcrumb extended by one segment, `"menu"` then `"bm"`
/// giving `"menu.bm"`; an empty prefix stands for the document root.
pub open spec fn spec_joined(prefix: Seq<char>, key: Seq<char>) -> Seq<char> {
    if prefix.len() == 0 {
        key
    } else {
        prefix + "."@ + key
    }
}

/// The breadcrumb `prefix.key`, or `key` alone at the document root.
pub fn join_path(prefix: &str, key: &str) -> (r: String)
    ensures
        r@ == spec_joined(prefix@, key@),
{
    if prefix.unicode_len() == 0 {
        String::from_str(key)
    } else {
        String::from_str(prefix).concat(".").concat(key)
    }
}

} // verus!
