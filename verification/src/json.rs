//! The untyped JSON tree the wire document denotes, and verified lookups
//! into its objects.  Object fields keep wire order; the schema mapper reads
//! the first occurrence of a key and ignores unknown keys.

use vstd::prelude::*;

use crate::text::str_eq;
use crate::wirenum::Decimal;

verus! {

broadcast use vstd::std_specs::vec::group_vec_axioms, vstd::seq::group_seq_axioms;

/// One JSON value.  Numbers are held exactly as decimals.
#[derive(Debug, PartialEq)]
pub enum Json {
    Null,
    Bool(bool),
    Num(Decimal),
    Str(String),
    Arr(Vec<Json>),
    Obj(Vec<(String, Json)>),
}

/// Spec-level form of a JSON value, over mathematical sequences.
#[verifier::ext_equal]
pub ghost enum JsonV {
    Null,
    Bool(bool),
    Num(Decimal),
    Str(Seq<char>),
    Arr(Seq<JsonV>),
    Obj(Seq<(Seq<char>, JsonV)>),
}

pub open spec fn json_view(j: Json) -> JsonV
    decreases j, 1int,
{
    match j {
        Json::Null => JsonV::Null,
        Json::Bool(b) => JsonV::Bool(b),
        Json::Num(d) => JsonV::Num(d),
        Json::Str(s) => JsonV::Str(s@),
        Json::Arr(a) => JsonV::Arr(elems_view(a@)),
        Json::Obj(fields) => JsonV::Obj(fields_view(fields@)),
    }
}

/// The spec-level elements of an exec element list.
pub open spec fn elems_view(s: Seq<Json>) -> Seq<JsonV>
    decreases s, 0int,
{
    if s.len() == 0 {
        Seq::empty()
    } else {
        elems_view(s.drop_last()).push(json_view(s.last()))
    }
}

/// The spec-level fields of an exec field list.
pub open spec fn fields_view(s: Seq<(String, Json)>) -> Seq<(Seq<char>, JsonV)>
    decreases s, 0int,
{
    if s.len() == 0 {
        Seq::empty()
    } else {
        fields_view(s.drop_last()).push((s.last().0@, json_view(s.last().1)))
    }
}

pub proof fn lemma_elems_view(s: Seq<Json>)
    ensures
        elems_view(s).len() == s.len(),
        forall|i: int| 0 <= i < s.len() ==> elems_view(s)[i] == json_view(s[i]),
    decreases s.len(),
{
    if s.len() > 0 {
        lemma_elems_view(s.drop_last());
    }
}

pub proof fn lemma_elems_view_push(s: Seq<Json>, x: Json)
    ensures
        elems_view(s.push(x)) == elems_view(s).push(json_view(x)),
{
    assert(s.push(x).drop_last() =~= s);
    assert(s.push(x).last() == x);
}

pub proof fn lemma_fields_view_push(s: Seq<(String, Json)>, kv: (String, Json))
    ensures
        fields_view(s.push(kv)) == fields_view(s).push((kv.0@, json_view(kv.1))),
{
    assert(s.push(kv).drop_last() =~= s);
    assert(s.push(kv).last() == kv);
}

pub proof fn lemma_fields_view(s: Seq<(String, Json)>)
    ensures
        fields_view(s).len() == s.len(),
        forall|i: int|
            0 <= i < s.len() ==> fields_view(s)[i] == (s[i].0@, json_view(s[i].1)),
    decreases s.len(),
{
    if s.len() > 0 {
        lemma_fields_view(s.drop_last());
    }
}

impl View for Json {
    type V = JsonV;

    open spec fn view(&self) -> JsonV {
        json_view(*self)
    }
}

/// The value under the first occurrence of `key` among an object's fields.
pub open spec fn lookup(fields: Seq<(Seq<char>, JsonV)>, key: Seq<char>) -> Option<JsonV>
    decreases fields.len(),
{
    if fields.len() == 0 {
        None
    } else if fields[0].0 == key {
        Some(fields[0].1)
    } else {
        lookup(fields.subrange(1, fields.len() as int), key)
    }
}

/// First-match lookup of `key` among an object's fields.
pub fn obj_get<'a>(fields: &'a Vec<(String, Json)>, key: &str) -> (r: Option<&'a Json>)
    ensures
        (match r {
            Some(v) => lookup(fields_view(fields@), key@) == Some(v@),
            None => lookup(fields_view(fields@), key@) is None,
        }),
{
    let ghost full = fields_view(fields@);
    proof {
        lemma_fields_view(fields@);
        assert(full.subrange(0, full.len() as int) =~= full);
    }
    let mut i: usize = 0;
    while i < fields.len()
        invariant
            i <= fields.len(),
            full == fields_view(fields@),
            full.len() == fields@.len(),
            lookup(full, key@) == lookup(full.subrange(i as int, full.len() as int), key@),
        decreases fields.len() - i,
    {
        if str_eq(fields[i].0.as_str(), key) {
            proof {
                lemma_fields_view(fields@);
                assert(full.subrange(i as int, full.len() as int)[0] == full[i as int]);
            }
            return Some(&fields[i].1);
        }
        proof {
            lemma_fields_view(fields@);
            let rest = full.subrange(i as int, full.len() as int);
            assert(rest[0] == full[i as int]);
            assert(rest.subrange(1, rest.len() as int) =~= full.subrange(
                i + 1 as int,
                full.len() as int,
            ));
        }
        i += 1;
    }
    proof {
        assert(full.subrange(i as int, full.len() as int).len() == 0);
    }
    None
}

} // verus!
