//! The schema mapper: one pass from the untyped JSON tree into the typed
//! model, enforcing the feed's field names, numeric kinds and integer-encoded
//! booleans.
//!
//! Every executable mapping function is an exact mirror of a spec function
//! over the tree's view: the contract pins the success condition, the value
//! of every field, and the kind and breadcrumb path of the first failure.
//! Required fields are read under `spec_req_*`, optional ones under
//! `spec_opt_*`; a missing or `null` optional field is the distinct absent
//! state.  Unknown wire fields are ignored.

use vstd::prelude::*;

use crate::errors::{ErrV, ParseError, res_p, res_v};
use crate::model::{
    Bm, BmV, Bpm, Combo, Folders, FoldersV, Gameplay, GameplayV, Gosumemory, GosumemoryV, Grade,
    GradeV, Hits, HitsV, Hp, KeyOverlay, KeyOverlayButton, Leaderboard, LeaderboardV, MainMenu,
    Menu, MenuV, Metadata, MetadataV, Mods, ModsV, Ourplayer, OurplayerV, Path, PathV, Pp, Pp2,
    PpV, ResultsScreen, ResultsScreenV, Settings, SettingsV, Stats, Time,
};
use crate::json::{Json, JsonV, elems_view, fields_view, lemma_elems_view, lookup, obj_get};
use crate::syntax::spec_json_of;
use crate::text::{join_path, spec_joined, str_eq};
use crate::wirenum::Decimal;

verus! {

/// The value under `key` in object `v`: a missing key or a non-object is a
/// schema mismatch.
pub open spec fn get_field(v: JsonV, key: Seq<char>, path: Seq<char>) -> Result<JsonV, ErrV> {
    match v {
        JsonV::Obj(fields) => match lookup(fields, key) {
            Some(x) => Ok(x),
            None => Err(ErrV::Schema { path: spec_joined(path, key) }),
        },
        _ => Err(ErrV::Schema { path }),
    }
}

pub open spec fn spec_req_str(v: JsonV, key: Seq<char>, path: Seq<char>) -> Result<
    Seq<char>,
    ErrV,
> {
    match get_field(v, key, path) {
        Ok(JsonV::Str(s)) => Ok(s),
        Ok(_) => Err(ErrV::Schema { path: spec_joined(path, key) }),
        Err(e) => Err(e),
    }
}

pub open spec fn spec_req_bool(v: JsonV, key: Seq<char>, path: Seq<char>) -> Result<bool, ErrV> {
    match get_field(v, key, path) {
        Ok(JsonV::Bool(b)) => Ok(b),
        Ok(_) => Err(ErrV::Schema { path: spec_joined(path, key) }),
        Err(e) => Err(e),
    }
}

pub open spec fn spec_req_num(v: JsonV, key: Seq<char>, path: Seq<char>) -> Result<Decimal, ErrV> {
    match get_field(v, key, path) {
        Ok(JsonV::Num(d)) => Ok(d),
        Ok(_) => Err(ErrV::Schema { path: spec_joined(path, key) }),
        Err(e) => Err(e),
    }
}

pub open spec fn spec_req_i64(v: JsonV, key: Seq<char>, path: Seq<char>) -> Result<i64, ErrV> {
    match spec_req_num(v, key, path) {
        Ok(d) => match d.spec_as_i64() {
            Some(n) => Ok(n),
            None => Err(ErrV::Schema { path: spec_joined(path, key) }),
        },
        Err(e) => Err(e),
    }
}

pub open spec fn spec_req_i32(v: JsonV, key: Seq<char>, path: Seq<char>) -> Result<i32, ErrV> {
    match spec_req_num(v, key, path) {
        Ok(d) => match d.spec_as_i32() {
            Some(n) => Ok(n),
            None => Err(ErrV::Schema { path: spec_joined(path, key) }),
        },
        Err(e) => Err(e),
    }
}

pub open spec fn spec_req_i16(v: JsonV, key: Seq<char>, path: Seq<char>) -> Result<i16, ErrV> {
    match spec_req_num(v, key, path) {
        Ok(d) => match d.spec_as_i16() {
            Some(n) => Ok(n),
            None => Err(ErrV::Schema { path: spec_joined(path, key) }),
        },
        Err(e) => Err(e),
    }
}

pub open spec fn spec_req_u8(v: JsonV, key: Seq<char>, path: Seq<char>) -> Result<u8, ErrV> {
    match spec_req_num(v, key, path) {
        Ok(d) => match d.spec_as_u8() {
            Some(n) => Ok(n),
            None => Err(ErrV::Schema { path: spec_joined(path, key) }),
        },
        Err(e) => Err(e),
    }
}

/// A wire-integer boolean: the field must hold the JSON number 0 or 1; any
/// other present value is an invalid boolean encoding, not an approximation.
pub open spec fn spec_req_wire_bool(v: JsonV, key: Seq<char>, path: Seq<char>) -> Result<
    bool,
    ErrV,
> {
    match get_field(v, key, path) {
        Ok(JsonV::Num(d)) => match d.spec_as_wire_bool() {
            Some(b) => Ok(b),
            None => Err(ErrV::BadBool { path: spec_joined(path, key) }),
        },
        Ok(_) => Err(ErrV::BadBool { path: spec_joined(path, key) }),
        Err(e) => Err(e),
    }
}

/// An optional string field: missing or `null` is the absent state.
pub open spec fn spec_opt_str(v: JsonV, key: Seq<char>, path: Seq<char>) -> Result<
    Option<Seq<char>>,
    ErrV,
> {
    match v {
        JsonV::Obj(fields) => match lookup(fields, key) {
            None => Ok(None),
            Some(JsonV::Null) => Ok(None),
            Some(JsonV::Str(s)) => Ok(Some(s)),
            Some(_) => Err(ErrV::Schema { path: spec_joined(path, key) }),
        },
        _ => Err(ErrV::Schema { path }),
    }
}

/// Elements of a wire array coerced one by one; the first failure wins.
pub open spec fn coerce_elems<T>(s: Seq<JsonV>, f: spec_fn(JsonV) -> Result<T, ErrV>) -> Result<
    Seq<T>,
    ErrV,
>
    decreases s.len(),
{
    if s.len() == 0 {
        Ok(Seq::empty())
    } else {
        match coerce_elems(s.drop_last(), f) {
            Ok(r) => match f(s.last()) {
                Ok(t) => Ok(r.push(t)),
                Err(e) => Err(e),
            },
            Err(e) => Err(e),
        }
    }
}

pub proof fn lemma_coerce_snoc<T>(s: Seq<JsonV>, f: spec_fn(JsonV) -> Result<T, ErrV>, i: int)
    requires
        0 <= i < s.len(),
    ensures
        coerce_elems(s.take(i + 1), f) == (match coerce_elems(s.take(i), f) {
            Ok(r) => match f(s[i]) {
                Ok(t) => Ok::<Seq<T>, ErrV>(r.push(t)),
                Err(e) => Err(e),
            },
            Err(e) => Err(e),
        }),
{
    assert(s.take(i + 1).drop_last() =~= s.take(i));
    assert(s.take(i + 1).last() == s[i]);
}

/// If a prefix coerces and element `i` fails, the whole array fails the same
/// way.
pub proof fn lemma_coerce_err<T>(
    s: Seq<JsonV>,
    f: spec_fn(JsonV) -> Result<T, ErrV>,
    i: int,
    e: ErrV,
)
    requires
        0 <= i < s.len(),
        coerce_elems(s.take(i), f) is Ok,
        f(s[i]) == Err::<T, ErrV>(e),
    ensures
        coerce_elems(s, f) == Err::<Seq<T>, ErrV>(e),
    decreases s.len(),
{
    if s.len() == i + 1 {
        assert(s.drop_last() =~= s.take(i));
        assert(s.last() == s[i]);
    } else {
        assert(s.drop_last().take(i) =~= s.take(i));
        assert(s.drop_last()[i] == s[i]);
        lemma_coerce_err(s.drop_last(), f, i, e);
    }
}

/// The value under the first occurrence of `key`, or a schema mismatch.
pub fn get_req<'a>(v: &'a Json, key: &str, path: &str) -> (r: Result<&'a Json, ParseError>)
    ensures
        (match r {
            Ok(x) => get_field(v@, key@, path@) == Ok::<JsonV, ErrV>(x@),
            Err(e) => get_field(v@, key@, path@) == Err::<JsonV, ErrV>(e@),
        }),
{
    match v {
        Json::Obj(fields) => match obj_get(fields, key) {
            Some(x) => Ok(x),
            None => Err(ParseError::SchemaMismatch { path: join_path(path, key) }),
        },
        _ => Err(ParseError::SchemaMismatch { path: String::from_str(path) }),
    }
}

pub fn req_str(v: &Json, key: &str, path: &str) -> (r: Result<String, ParseError>)
    ensures
        res_v(r) == spec_req_str(v@, key@, path@),
{
    match get_req(v, key, path) {
        Ok(x) => match x {
            Json::Str(s) => Ok(s.clone()),
            _ => Err(ParseError::SchemaMismatch { path: join_path(path, key) }),
        },
        Err(e) => Err(e),
    }
}

pub fn req_bool(v: &Json, key: &str, path: &str) -> (r: Result<bool, ParseError>)
    ensures
        res_p(r) == spec_req_bool(v@, key@, path@),
{
    match get_req(v, key, path) {
        Ok(x) => match x {
            Json::Bool(b) => Ok(*b),
            _ => Err(ParseError::SchemaMismatch { path: join_path(path, key) }),
        },
        Err(e) => Err(e),
    }
}

pub fn req_num(v: &Json, key: &str, path: &str) -> (r: Result<Decimal, ParseError>)
    ensures
        res_p(r) == spec_req_num(v@, key@, path@),
{
    match get_req(v, key, path) {
        Ok(x) => match x {
            Json::Num(d) => Ok(*d),
            _ => Err(ParseError::SchemaMismatch { path: join_path(path, key) }),
        },
        Err(e) => Err(e),
    }
}

pub fn req_i64(v: &Json, key: &str, path: &str) -> (r: Result<i64, ParseError>)
    ensures
        res_p(r) == spec_req_i64(v@, key@, path@),
{
    match req_num(v, key, path) {
        Ok(d) => match d.to_i64() {
            Some(n) => Ok(n),
            None => Err(ParseError::SchemaMismatch { path: join_path(path, key) }),
        },
        Err(e) => Err(e),
    }
}

pub fn req_i32(v: &Json, key: &str, path: &str) -> (r: Result<i32, ParseError>)
    ensures
        res_p(r) == spec_req_i32(v@, key@, path@),
{
    match req_num(v, key, path) {
        Ok(d) => match d.to_i32() {
            Some(n) => Ok(n),
            None => Err(ParseError::SchemaMismatch { path: join_path(path, key) }),
        },
        Err(e) => Err(e),
    }
}

pub fn req_i16(v: &Json, key: &str, path: &str) -> (r: Result<i16, ParseError>)
    ensures
        res_p(r) == spec_req_i16(v@, key@, path@),
{
    match req_num(v, key, path) {
        Ok(d) => match d.to_i16() {
            Some(n) => Ok(n),
            None => Err(ParseError::SchemaMismatch { path: join_path(path, key) }),
        },
        Err(e) => Err(e),
    }
}

pub fn req_u8(v: &Json, key: &str, path: &str) -> (r: Result<u8, ParseError>)
    ensures
        res_p(r) == spec_req_u8(v@, key@, path@),
{
    match req_num(v, key, path) {
        Ok(d) => match d.to_u8() {
            Some(n) => Ok(n),
            None => Err(ParseError::SchemaMismatch { path: join_path(path, key) }),
        },
        Err(e) => Err(e),
    }
}

pub fn req_wire_bool(v: &Json, key: &str, path: &str) -> (r: Result<bool, ParseError>)
    ensures
        res_p(r) == spec_req_wire_bool(v@, key@, path@),
{
    match get_req(v, key, path) {
        Ok(x) => match x {
            Json::Num(d) => match d.to_wire_bool() {
                Some(b) => Ok(b),
                None => Err(ParseError::InvalidBooleanEncoding { path: join_path(path, key) }),
            },
            _ => Err(ParseError::InvalidBooleanEncoding { path: join_path(path, key) }),
        },
        Err(e) => Err(e),
    }
}

pub fn opt_str(v: &Json, key: &str, path: &str) -> (r: Result<Option<String>, ParseError>)
    ensures
        (match r {
            Ok(x) => spec_opt_str(v@, key@, path@) == Ok::<Option<Seq<char>>, ErrV>(
                match x {
                    Some(s) => Some(s@),
                    None => None,
                },
            ),
            Err(e) => spec_opt_str(v@, key@, path@) == Err::<Option<Seq<char>>, ErrV>(e@),
        }),
{
    match v {
        Json::Obj(fields) => match obj_get(fields, key) {
            None => Ok(None),
            Some(x) => match x {
                Json::Null => Ok(None),
                Json::Str(s) => Ok(Some(s.clone())),
                _ => Err(ParseError::SchemaMismatch { path: join_path(path, key) }),
            },
        },
        _ => Err(ParseError::SchemaMismatch { path: String::from_str(path) }),
    }
}

/// A wire array element that must be a number.
pub open spec fn spec_num_elem(e: JsonV, path: Seq<char>) -> Result<Decimal, ErrV> {
    match e {
        JsonV::Num(d) => Ok(d),
        _ => Err(ErrV::Schema { path }),
    }
}

/// A wire array element that must be an integral number fitting `i32`.
pub open spec fn spec_i32_elem(e: JsonV, path: Seq<char>) -> Result<i32, ErrV> {
    match e {
        JsonV::Num(d) => match d.spec_as_i32() {
            Some(n) => Ok(n),
            None => Err(ErrV::Schema { path }),
        },
        _ => Err(ErrV::Schema { path }),
    }
}

pub open spec fn num_elem_of(path: Seq<char>) -> spec_fn(JsonV) -> Result<Decimal, ErrV> {
    |e: JsonV| spec_num_elem(e, path)
}

pub open spec fn i32_elem_of(path: Seq<char>) -> spec_fn(JsonV) -> Result<i32, ErrV> {
    |e: JsonV| spec_i32_elem(e, path)
}

/// An optional array field coerced element by element: missing or `null` is
/// the absent state, distinct from present but empty.
pub open spec fn spec_opt_arr<T>(
    v: JsonV,
    key: Seq<char>,
    path: Seq<char>,
    f: spec_fn(JsonV) -> Result<T, ErrV>,
) -> Result<Option<Seq<T>>, ErrV> {
    match v {
        JsonV::Obj(fields) => match lookup(fields, key) {
            None => Ok(None),
            Some(JsonV::Null) => Ok(None),
            Some(JsonV::Arr(elems)) => match coerce_elems(elems, f) {
                Ok(s) => Ok(Some(s)),
                Err(e) => Err(e),
            },
            Some(_) => Err(ErrV::Schema { path: spec_joined(path, key) }),
        },
        _ => Err(ErrV::Schema { path }),
    }
}

#[verifier::loop_isolation(false)]
pub fn opt_num_arr(v: &Json, key: &str, path: &str) -> (r: Result<Option<Vec<Decimal>>, ParseError>)
    ensures
        (match r {
            Ok(x) => spec_opt_arr(v@, key@, path@, num_elem_of(spec_joined(path@, key@))) == Ok::<
                Option<Seq<Decimal>>,
                ErrV,
            >(
                match x {
                    Some(out) => Some(out@),
                    None => None,
                },
            ),
            Err(e) => spec_opt_arr(v@, key@, path@, num_elem_of(spec_joined(path@, key@))) == Err::<
                Option<Seq<Decimal>>,
                ErrV,
            >(e@),
        }),
{
    let ghost f = num_elem_of(spec_joined(path@, key@));
    match v {
        Json::Obj(fields) => match obj_get(fields, key) {
            None => Ok(None),
            Some(x) => match x {
                Json::Null => Ok(None),
                Json::Arr(elems) => {
                    let ghost ev = elems_view(elems@);
                    proof {
                        lemma_elems_view(elems@);
                    }
                    let p = join_path(path, key);
                    let mut out: Vec<Decimal> = Vec::new();
                    let mut i: usize = 0;
                    while i < elems.len()
                        invariant
                            i <= elems.len(),
                            ev == elems_view(elems@),
                            ev.len() == elems@.len(),
                            forall|k: int|
                                0 <= k < elems@.len() ==> ev[k] == crate::json::json_view(
                                    elems@[k],
                                ),
                            f == num_elem_of(spec_joined(path@, key@)),
                            p@ == spec_joined(path@, key@),
                            coerce_elems(ev.take(i as int), f) == Ok::<Seq<Decimal>, ErrV>(out@),
                        decreases elems.len() - i,
                    {
                        match &elems[i] {
                            Json::Num(d) => {
                                out.push(*d);
                                proof {
                                    lemma_coerce_snoc(ev, f, i as int);
                                }
                            },
                            _ => {
                                proof {
                                    lemma_coerce_err(ev, f, i as int, ErrV::Schema { path: p@ });
                                }
                                return Err(ParseError::SchemaMismatch { path: p });
                            },
                        }
                        i += 1;
                    }
                    proof {
                        assert(ev.take(elems@.len() as int) =~= ev);
                    }
                    Ok(Some(out))
                },
                _ => Err(ParseError::SchemaMismatch { path: join_path(path, key) }),
            },
        },
        _ => Err(ParseError::SchemaMismatch { path: String::from_str(path) }),
    }
}

#[verifier::loop_isolation(false)]
pub fn opt_i32_arr(v: &Json, key: &str, path: &str) -> (r: Result<Option<Vec<i32>>, ParseError>)
    ensures
        (match r {
            Ok(x) => spec_opt_arr(v@, key@, path@, i32_elem_of(spec_joined(path@, key@))) == Ok::<
                Option<Seq<i32>>,
                ErrV,
            >(
                match x {
                    Some(out) => Some(out@),
                    None => None,
                },
            ),
            Err(e) => spec_opt_arr(v@, key@, path@, i32_elem_of(spec_joined(path@, key@))) == Err::<
                Option<Seq<i32>>,
                ErrV,
            >(e@),
        }),
{
    let ghost f = i32_elem_of(spec_joined(path@, key@));
    match v {
        Json::Obj(fields) => match obj_get(fields, key) {
            None => Ok(None),
            Some(x) => match x {
                Json::Null => Ok(None),
                Json::Arr(elems) => {
                    let ghost ev = elems_view(elems@);
                    proof {
                        lemma_elems_view(elems@);
                    }
                    let p = join_path(path, key);
                    let mut out: Vec<i32> = Vec::new();
                    let mut i: usize = 0;
                    while i < elems.len()
                        invariant
                            i <= elems.len(),
                            ev == elems_view(elems@),
                            ev.len() == elems@.len(),
                            forall|k: int|
                                0 <= k < elems@.len() ==> ev[k] == crate::json::json_view(
                                    elems@[k],
                                ),
                            f == i32_elem_of(spec_joined(path@, key@)),
                            p@ == spec_joined(path@, key@),
                            coerce_elems(ev.take(i as int), f) == Ok::<Seq<i32>, ErrV>(out@),
                        decreases elems.len() - i,
                    {
                        let mut ok = false;
                        match &elems[i] {
                            Json::Num(d) => match d.to_i32() {
                                Some(n) => {
                                    out.push(n);
                                    ok = true;
                                    proof {
                                        lemma_coerce_snoc(ev, f, i as int);
                                    }
                                },
                                None => {},
                            },
                            _ => {},
                        }
                        if !ok {
                            proof {
                                lemma_coerce_err(ev, f, i as int, ErrV::Schema { path: p@ });
                            }
                            return Err(ParseError::SchemaMismatch { path: p });
                        }
                        i += 1;
                    }
                    proof {
                        assert(ev.take(elems@.len() as int) =~= ev);
                    }
                    Ok(Some(out))
                },
                _ => Err(ParseError::SchemaMismatch { path: join_path(path, key) }),
            },
        },
        _ => Err(ParseError::SchemaMismatch { path: String::from_str(path) }),
    }
}

pub open spec fn spec_folders_at(v: JsonV, key: Seq<char>, path: Seq<char>) -> Result<FoldersV, ErrV> {
    match get_field(v, key, path) {
        Ok(x) => spec_folders_from(x, spec_joined(path, key)),
        Err(e) => Err(e),
    }
}

pub open spec fn spec_folders_from(v: JsonV, path: Seq<char>) -> Result<FoldersV, ErrV> {
    match (
        spec_req_str(v, "game"@, path),
        spec_req_str(v, "skin"@, path),
        spec_req_str(v, "songs"@, path),
    ) {
        (Ok(game), Ok(skin), Ok(songs)) => Ok(FoldersV { game, skin, songs }),
        (Err(e), _, _) => Err(e),
        (_, Err(e), _) => Err(e),
        (_, _, Err(e)) => Err(e),
    }
}

impl Folders {
    /// Maps the wire object for this entity, rooted at breadcrumb `path`.
    pub fn from_json(v: &Json, path: &str) -> (r: Result<Folders, ParseError>)
        ensures
            res_v(r) == spec_folders_from(v@, path@),
    {
    let game = match req_str(v, "game", path) {
        Ok(x) => x,
        Err(e) => return Err(e),
    };
    let skin = match req_str(v, "skin", path) {
        Ok(x) => x,
        Err(e) => return Err(e),
    };
    let songs = match req_str(v, "songs", path) {
        Ok(x) => x,
        Err(e) => return Err(e),
    };
        Ok(Folders { game, skin, songs })
    }
}

pub open spec fn spec_settings_at(v: JsonV, key: Seq<char>, path: Seq<char>) -> Result<SettingsV, ErrV> {
    match get_field(v, key, path) {
        Ok(x) => spec_settings_from(x, spec_joined(path, key)),
        Err(e) => Err(e),
    }
}

pub open spec fn spec_settings_from(v: JsonV, path: Seq<char>) -> Result<SettingsV, ErrV> {
    match (
        spec_req_bool(v, "showInterface"@, path),
        spec_folders_at(v, "folders"@, path),
    ) {
        (Ok(show_interface), Ok(folders)) => Ok(SettingsV { show_interface, folders }),
        (Err(e), _) => Err(e),
        (_, Err(e)) => Err(e),
    }
}

impl Settings {
    /// Maps the wire object for this entity, rooted at breadcrumb `path`.
    pub fn from_json(v: &Json, path: &str) -> (r: Result<Settings, ParseError>)
        ensures
            res_v(r) == spec_settings_from(v@, path@),
    {
    let show_interface = match req_bool(v, "showInterface", path) {
        Ok(x) => x,
        Err(e) => return Err(e),
    };
    let folders = match get_req(v, "folders", path) {
        Ok(x) => match Folders::from_json(x, join_path(path, "folders").as_str()) {
            Ok(y) => y,
            Err(e) => return Err(e),
        },
        Err(e) => return Err(e),
    };
        Ok(Settings { show_interface, folders })
    }
}

pub open spec fn spec_main_menu_at(v: JsonV, key: Seq<char>, path: Seq<char>) -> Result<MainMenu, ErrV> {
    match get_field(v, key, path) {
        Ok(x) => spec_main_menu_from(x, spec_joined(path, key)),
        Err(e) => Err(e),
    }
}

pub open spec fn spec_main_menu_from(v: JsonV, path: Seq<char>) -> Result<MainMenu, ErrV> {
    match spec_req_num(v, "bassDensity"@, path) {
        Ok(bass_density) => Ok(MainMenu { bass_density }),
        Err(e) => Err(e),
    }
}

impl MainMenu {
    /// Maps the wire object for this entity, rooted at breadcrumb `path`.
    pub fn from_json(v: &Json, path: &str) -> (r: Result<MainMenu, ParseError>)
        ensures
            res_p(r) == spec_main_menu_from(v@, path@),
    {
    let bass_density = match req_num(v, "bassDensity", path) {
        Ok(x) => x,
        Err(e) => return Err(e),
    };
        Ok(MainMenu { bass_density })
    }
}

pub open spec fn spec_time_at(v: JsonV, key: Seq<char>, path: Seq<char>) -> Result<Time, ErrV> {
    match get_field(v, key, path) {
        Ok(x) => spec_time_from(x, spec_joined(path, key)),
        Err(e) => Err(e),
    }
}

pub open spec fn spec_time_from(v: JsonV, path: Seq<char>) -> Result<Time, ErrV> {
    match (
        spec_req_i32(v, "firstObj"@, path),
        spec_req_i32(v, "current"@, path),
        spec_req_i32(v, "full"@, path),
        spec_req_i32(v, "mp3"@, path),
    ) {
        (Ok(first_obj), Ok(current), Ok(full), Ok(mp3)) => Ok(Time { first_obj, current, full, mp3 }),
        (Err(e), _, _, _) => Err(e),
        (_, Err(e), _, _) => Err(e),
        (_, _, Err(e), _) => Err(e),
        (_, _, _, Err(e)) => Err(e),
    }
}

impl Time {
    /// Maps the wire object for this entity, rooted at breadcrumb `path`.
    pub fn from_json(v: &Json, path: &str) -> (r: Result<Time, ParseError>)
        ensures
            res_p(r) == spec_time_from(v@, path@),
    {
    let first_obj = match req_i32(v, "firstObj", path) {
        Ok(x) => x,
        Err(e) => return Err(e),
    };
    let current = match req_i32(v, "current", path) {
        Ok(x) => x,
        Err(e) => return Err(e),
    };
    let full = match req_i32(v, "full", path) {
        Ok(x) => x,
        Err(e) => return Err(e),
    };
    let mp3 = match req_i32(v, "mp3", path) {
        Ok(x) => x,
        Err(e) => return Err(e),
    };
        Ok(Time { first_obj, current, full, mp3 })
    }
}

pub open spec fn spec_metadata_at(v: JsonV, key: Seq<char>, path: Seq<char>) -> Result<MetadataV, ErrV> {
    match get_field(v, key, path) {
        Ok(x) => spec_metadata_from(x, spec_joined(path, key)),
        Err(e) => Err(e),
    }
}

pub open spec fn spec_metadata_from(v: JsonV, path: Seq<char>) -> Result<MetadataV, ErrV> {
    match (
        spec_req_str(v, "artist"@, path),
        spec_req_str(v, "artistOriginal"@, path),
        spec_req_str(v, "title"@, path),
        spec_req_str(v, "titleOriginal"@, path),
        spec_req_str(v, "mapper"@, path),
        spec_req_str(v, "difficulty"@, path),
    ) {
        (Ok(artist), Ok(artist_original), Ok(title), Ok(title_original), Ok(mapper), Ok(difficulty)) => Ok(MetadataV { artist, artist_original, title, title_original, mapper, difficulty }),
        (Err(e), _, _, _, _, _) => Err(e),
        (_, Err(e), _, _, _, _) => Err(e),
        (_, _, Err(e), _, _, _) => Err(e),
        (_, _, _, Err(e), _, _) => Err(e),
        (_, _, _, _, Err(e), _) => Err(e),
        (_, _, _, _, _, Err(e)) => Err(e),
    }
}

impl Metadata {
    /// Maps the wire object for this entity, rooted at breadcrumb `path`.
    pub fn from_json(v: &Json, path: &str) -> (r: Result<Metadata, ParseError>)
        ensures
            res_v(r) == spec_metadata_from(v@, path@),
    {
    let artist = match req_str(v, "artist", path) {
        Ok(x) => x,
        Err(e) => return Err(e),
    };
    let artist_original = match req_str(v, "artistOriginal", path) {
        Ok(x) => x,
        Err(e) => return Err(e),
    };
    let title = match req_str(v, "title", path) {
        Ok(x) => x,
        Err(e) => return Err(e),
    };
    let title_original = match req_str(v, "titleOriginal", path) {
        Ok(x) => x,
        Err(e) => return Err(e),
    };
    let mapper = match req_str(v, "mapper", path) {
        Ok(x) => x,
        Err(e) => return Err(e),
    };
    let difficulty = match req_str(v, "difficulty", path) {
        Ok(x) => x,
        Err(e) => return Err(e),
    };
        Ok(Metadata { artist, artist_original, title, title_original, mapper, difficulty })
    }
}

pub open spec fn spec_bpm_at(v: JsonV, key: Seq<char>, path: Seq<char>) -> Result<Bpm, ErrV> {
    match get_field(v, key, path) {
        Ok(x) => spec_bpm_from(x, spec_joined(path, key)),
        Err(e) => Err(e),
    }
}

pub open spec fn spec_bpm_from(v: JsonV, path: Seq<char>) -> Result<Bpm, ErrV> {
    match (
        spec_req_i64(v, "min"@, path),
        spec_req_i64(v, "max"@, path),
    ) {
        (Ok(min), Ok(max)) => Ok(Bpm { min, max }),
        (Err(e), _) => Err(e),
        (_, Err(e)) => Err(e),
    }
}

impl Bpm {
    /// Maps the wire object for this entity, rooted at breadcrumb `path`.
    pub fn from_json(v: &Json, path: &str) -> (r: Result<Bpm, ParseError>)
        ensures
            res_p(r) == spec_bpm_from(v@, path@),
    {
    let min = match req_i64(v, "min", path) {
        Ok(x) => x,
        Err(e) => return Err(e),
    };
    let max = match req_i64(v, "max", path) {
        Ok(x) => x,
        Err(e) => return Err(e),
    };
        Ok(Bpm { min, max })
    }
}

pub open spec fn spec_stats_at(v: JsonV, key: Seq<char>, path: Seq<char>) -> Result<Stats, ErrV> {
    match get_field(v, key, path) {
        Ok(x) => spec_stats_from(x, spec_joined(path, key)),
        Err(e) => Err(e),
    }
}

pub open spec fn spec_stats_from(v: JsonV, path: Seq<char>) -> Result<Stats, ErrV> {
    match (
        spec_req_num(v, "AR"@, path),
        spec_req_num(v, "CS"@, path),
        spec_req_num(v, "OD"@, path),
        spec_req_num(v, "HP"@, path),
        spec_req_num(v, "SR"@, path),
        spec_bpm_at(v, "BPM"@, path),
        spec_req_i32(v, "maxCombo"@, path),
        spec_req_num(v, "fullSR"@, path),
        spec_req_num(v, "memoryAR"@, path),
        spec_req_num(v, "memoryCS"@, path),
        spec_req_num(v, "memoryOD"@, path),
        spec_req_num(v, "memoryHP"@, path),
    ) {
        (Ok(ar), Ok(cs), Ok(od), Ok(hp), Ok(sr), Ok(bpm), Ok(max_combo), Ok(full_sr), Ok(memory_ar), Ok(memory_cs), Ok(memory_od), Ok(memory_hp)) => Ok(Stats { ar, cs, od, hp, sr, bpm, max_combo, full_sr, memory_ar, memory_cs, memory_od, memory_hp }),
        (Err(e), _, _, _, _, _, _, _, _, _, _, _) => Err(e),
        (_, Err(e), _, _, _, _, _, _, _, _, _, _) => Err(e),
        (_, _, Err(e), _, _, _, _, _, _, _, _, _) => Err(e),
        (_, _, _, Err(e), _, _, _, _, _, _, _, _) => Err(e),
        (_, _, _, _, Err(e), _, _, _, _, _, _, _) => Err(e),
        (_, _, _, _, _, Err(e), _, _, _, _, _, _) => Err(e),
        (_, _, _, _, _, _, Err(e), _, _, _, _, _) => Err(e),
        (_, _, _, _, _, _, _, Err(e), _, _, _, _) => Err(e),
        (_, _, _, _, _, _, _, _, Err(e), _, _, _) => Err(e),
        (_, _, _, _, _, _, _, _, _, Err(e), _, _) => Err(e),
        (_, _, _, _, _, _, _, _, _, _, Err(e), _) => Err(e),
        (_, _, _, _, _, _, _, _, _, _, _, Err(e)) => Err(e),
    }
}

impl Stats {
    /// Maps the wire object for this entity, rooted at breadcrumb `path`.
    pub fn from_json(v: &Json, path: &str) -> (r: Result<Stats, ParseError>)
        ensures
            res_p(r) == spec_stats_from(v@, path@),
    {
    let ar = match req_num(v, "AR", path) {
        Ok(x) => x,
        Err(e) => return Err(e),
    };
    let cs = match req_num(v, "CS", path) {
        Ok(x) => x,
        Err(e) => return Err(e),
    };
    let od = match req_num(v, "OD", path) {
        Ok(x) => x,
        Err(e) => return Err(e),
    };
    let hp = match req_num(v, "HP", path) {
        Ok(x) => x,
        Err(e) => return Err(e),
    };
    let sr = match req_num(v, "SR", path) {
        Ok(x) => x,
        Err(e) => return Err(e),
    };
    let bpm = match get_req(v, "BPM", path) {
        Ok(x) => match Bpm::from_json(x, join_path(path, "BPM").as_str()) {
            Ok(y) => y,
            Err(e) => return Err(e),
        },
        Err(e) => return Err(e),
    };
    let max_combo = match req_i32(v, "maxCombo", path) {
        Ok(x) => x,
        Err(e) => return Err(e),
    };
    let full_sr = match req_num(v, "fullSR", path) {
        Ok(x) => x,
        Err(e) => return Err(e),
    };
    let memory_ar = match req_num(v, "memoryAR", path) {
        Ok(x) => x,
        Err(e) => return Err(e),
    };
    let memory_cs = match req_num(v, "memoryCS", path) {
        Ok(x) => x,
        Err(e) => return Err(e),
    };
    let memory_od = match req_num(v, "memoryOD", path) {
        Ok(x) => x,
        Err(e) => return Err(e),
    };
    let memory_hp = match req_num(v, "memoryHP", path) {
        Ok(x) => x,
        Err(e) => return Err(e),
    };
        Ok(Stats { ar, cs, od, hp, sr, bpm, max_combo, full_sr, memory_ar, memory_cs, memory_od, memory_hp })
    }
}

pub open spec fn spec_path_at(v: JsonV, key: Seq<char>, path: Seq<char>) -> Result<PathV, ErrV> {
    match get_field(v, key, path) {
        Ok(x) => spec_path_from(x, spec_joined(path, key)),
        Err(e) => Err(e),
    }
}

pub open spec fn spec_path_from(v: JsonV, path: Seq<char>) -> Result<PathV, ErrV> {
    match (
        spec_req_str(v, "full"@, path),
        spec_req_str(v, "folder"@, path),
        spec_req_str(v, "file"@, path),
        spec_req_str(v, "bg"@, path),
        spec_req_str(v, "audio"@, path),
    ) {
        (Ok(full), Ok(folder), Ok(file), Ok(bg), Ok(audio)) => Ok(PathV { full, folder, file, bg, audio }),
        (Err(e), _, _, _, _) => Err(e),
        (_, Err(e), _, _, _) => Err(e),
        (_, _, Err(e), _, _) => Err(e),
        (_, _, _, Err(e), _) => Err(e),
        (_, _, _, _, Err(e)) => Err(e),
    }
}

impl Path {
    /// Maps the wire object for this entity, rooted at breadcrumb `path`.
    pub fn from_json(v: &Json, path: &str) -> (r: Result<Path, ParseError>)
        ensures
            res_v(r) == spec_path_from(v@, path@),
    {
    let full = match req_str(v, "full", path) {
        Ok(x) => x,
        Err(e) => return Err(e),
    };
    let folder = match req_str(v, "folder", path) {
        Ok(x) => x,
        Err(e) => return Err(e),
    };
    let file = match req_str(v, "file", path) {
        Ok(x) => x,
        Err(e) => return Err(e),
    };
    let bg = match req_str(v, "bg", path) {
        Ok(x) => x,
        Err(e) => return Err(e),
    };
    let audio = match req_str(v, "audio", path) {
        Ok(x) => x,
        Err(e) => return Err(e),
    };
        Ok(Path { full, folder, file, bg, audio })
    }
}

pub open spec fn spec_mods_at(v: JsonV, key: Seq<char>, path: Seq<char>) -> Result<ModsV, ErrV> {
    match get_field(v, key, path) {
        Ok(x) => spec_mods_from(x, spec_joined(path, key)),
        Err(e) => Err(e),
    }
}

pub open spec fn spec_mods_from(v: JsonV, path: Seq<char>) -> Result<ModsV, ErrV> {
    match (
        spec_req_i32(v, "num"@, path),
        spec_req_str(v, "str"@, path),
    ) {
        (Ok(num), Ok(str)) => Ok(ModsV { num, str }),
        (Err(e), _) => Err(e),
        (_, Err(e)) => Err(e),
    }
}

impl Mods {
    /// Maps the wire object for this entity, rooted at breadcrumb `path`.
    pub fn from_json(v: &Json, path: &str) -> (r: Result<Mods, ParseError>)
        ensures
            res_v(r) == spec_mods_from(v@, path@),
    {
    let num = match req_i32(v, "num", path) {
        Ok(x) => x,
        Err(e) => return Err(e),
    };
    let str = match req_str(v, "str", path) {
        Ok(x) => x,
        Err(e) => return Err(e),
    };
        Ok(Mods { num, str })
    }
}

pub open spec fn spec_pp_at(v: JsonV, key: Seq<char>, path: Seq<char>) -> Result<PpV, ErrV> {
    match get_field(v, key, path) {
        Ok(x) => spec_pp_from(x, spec_joined(path, key)),
        Err(e) => Err(e),
    }
}

pub open spec fn spec_pp_from(v: JsonV, path: Seq<char>) -> Result<PpV, ErrV> {
    match (
        spec_req_i32(v, "100"@, path),
        spec_req_i32(v, "99"@, path),
        spec_req_i32(v, "98"@, path),
        spec_req_i32(v, "97"@, path),
        spec_req_i32(v, "96"@, path),
        spec_req_i32(v, "95"@, path),
        spec_opt_arr(v, "strains"@, path, num_elem_of(spec_joined(path, "strains"@))),
    ) {
        (Ok(n100), Ok(n99), Ok(n98), Ok(n97), Ok(n96), Ok(n95), Ok(strains)) => Ok(PpV { n100, n99, n98, n97, n96, n95, strains }),
        (Err(e), _, _, _, _, _, _) => Err(e),
        (_, Err(e), _, _, _, _, _) => Err(e),
        (_, _, Err(e), _, _, _, _) => Err(e),
        (_, _, _, Err(e), _, _, _) => Err(e),
        (_, _, _, _, Err(e), _, _) => Err(e),
        (_, _, _, _, _, Err(e), _) => Err(e),
        (_, _, _, _, _, _, Err(e)) => Err(e),
    }
}

impl Pp {
    /// Maps the wire object for this entity, rooted at breadcrumb `path`.
    pub fn from_json(v: &Json, path: &str) -> (r: Result<Pp, ParseError>)
        ensures
            res_v(r) == spec_pp_from(v@, path@),
    {
    let n100 = match req_i32(v, "100", path) {
        Ok(x) => x,
        Err(e) => return Err(e),
    };
    let n99 = match req_i32(v, "99", path) {
        Ok(x) => x,
        Err(e) => return Err(e),
    };
    let n98 = match req_i32(v, "98", path) {
        Ok(x) => x,
        Err(e) => return Err(e),
    };
    let n97 = match req_i32(v, "97", path) {
        Ok(x) => x,
        Err(e) => return Err(e),
    };
    let n96 = match req_i32(v, "96", path) {
        Ok(x) => x,
        Err(e) => return Err(e),
    };
    let n95 = match req_i32(v, "95", path) {
        Ok(x) => x,
        Err(e) => return Err(e),
    };
    let strains = match opt_num_arr(v, "strains", path) {
        Ok(x) => x,
        Err(e) => return Err(e),
    };
        Ok(Pp { n100, n99, n98, n97, n96, n95, strains })
    }
}

pub open spec fn spec_bm_at(v: JsonV, key: Seq<char>, path: Seq<char>) -> Result<BmV, ErrV> {
    match get_field(v, key, path) {
        Ok(x) => spec_bm_from(x, spec_joined(path, key)),
        Err(e) => Err(e),
    }
}

pub open spec fn spec_bm_from(v: JsonV, path: Seq<char>) -> Result<BmV, ErrV> {
    match (
        spec_time_at(v, "time"@, path),
        spec_req_i32(v, "id"@, path),
        spec_req_i32(v, "set"@, path),
        spec_req_str(v, "md5"@, path),
        spec_req_u8(v, "rankedStatus"@, path),
        spec_metadata_at(v, "metadata"@, path),
        spec_stats_at(v, "stats"@, path),
        spec_path_at(v, "path"@, path),
    ) {
        (Ok(time), Ok(id), Ok(set), Ok(md5), Ok(ranked_status), Ok(metadata), Ok(stats), Ok(path)) => Ok(BmV { time, id, set, md5, ranked_status, metadata, stats, path }),
        (Err(e), _, _, _, _, _, _, _) => Err(e),
        (_, Err(e), _, _, _, _, _, _) => Err(e),
        (_, _, Err(e), _, _, _, _, _) => Err(e),
        (_, _, _, Err(e), _, _, _, _) => Err(e),
        (_, _, _, _, Err(e), _, _, _) => Err(e),
        (_, _, _, _, _, Err(e), _, _) => Err(e),
        (_, _, _, _, _, _, Err(e), _) => Err(e),
        (_, _, _, _, _, _, _, Err(e)) => Err(e),
    }
}

impl Bm {
    /// Maps the wire object for this entity, rooted at breadcrumb `path`.
    pub fn from_json(v: &Json, path: &str) -> (r: Result<Bm, ParseError>)
        ensures
            res_v(r) == spec_bm_from(v@, path@),
    {
    let time = match get_req(v, "time", path) {
        Ok(x) => match Time::from_json(x, join_path(path, "time").as_str()) {
            Ok(y) => y,
            Err(e) => return Err(e),
        },
        Err(e) => return Err(e),
    };
    let id = match req_i32(v, "id", path) {
        Ok(x) => x,
        Err(e) => return Err(e),
    };
    let set = match req_i32(v, "set", path) {
        Ok(x) => x,
        Err(e) => return Err(e),
    };
    let md5 = match req_str(v, "md5", path) {
        Ok(x) => x,
        Err(e) => return Err(e),
    };
    let ranked_status = match req_u8(v, "rankedStatus", path) {
        Ok(x) => x,
        Err(e) => return Err(e),
    };
    let metadata = match get_req(v, "metadata", path) {
        Ok(x) => match Metadata::from_json(x, join_path(path, "metadata").as_str()) {
            Ok(y) => y,
            Err(e) => return Err(e),
        },
        Err(e) => return Err(e),
    };
    let stats = match get_req(v, "stats", path) {
        Ok(x) => match Stats::from_json(x, join_path(path, "stats").as_str()) {
            Ok(y) => y,
            Err(e) => return Err(e),
        },
        Err(e) => return Err(e),
    };
    let path = match get_req(v, "path", path) {
        Ok(x) => match Path::from_json(x, join_path(path, "path").as_str()) {
            Ok(y) => y,
            Err(e) => return Err(e),
        },
        Err(e) => return Err(e),
    };
        Ok(Bm { time, id, set, md5, ranked_status, metadata, stats, path })
    }
}

pub open spec fn spec_menu_at(v: JsonV, key: Seq<char>, path: Seq<char>) -> Result<MenuV, ErrV> {
    match get_field(v, key, path) {
        Ok(x) => spec_menu_from(x, spec_joined(path, key)),
        Err(e) => Err(e),
    }
}

pub open spec fn spec_menu_from(v: JsonV, path: Seq<char>) -> Result<MenuV, ErrV> {
    match (
        spec_main_menu_at(v, "mainMenu"@, path),
        spec_req_u8(v, "state"@, path),
        spec_req_u8(v, "gameMode"@, path),
        spec_req_wire_bool(v, "isChatEnabled"@, path),
        spec_bm_at(v, "bm"@, path),
        spec_mods_at(v, "mods"@, path),
        spec_pp_at(v, "pp"@, path),
    ) {
        (Ok(main_menu), Ok(state), Ok(game_mode), Ok(is_chat_enabled), Ok(bm), Ok(mods), Ok(pp)) => Ok(MenuV { main_menu, state, game_mode, is_chat_enabled, bm, mods, pp }),
        (Err(e), _, _, _, _, _, _) => Err(e),
        (_, Err(e), _, _, _, _, _) => Err(e),
        (_, _, Err(e), _, _, _, _) => Err(e),
        (_, _, _, Err(e), _, _, _) => Err(e),
        (_, _, _, _, Err(e), _, _) => Err(e),
        (_, _, _, _, _, Err(e), _) => Err(e),
        (_, _, _, _, _, _, Err(e)) => Err(e),
    }
}

impl Menu {
    /// Maps the wire object for this entity, rooted at breadcrumb `path`.
    pub fn from_json(v: &Json, path: &str) -> (r: Result<Menu, ParseError>)
        ensures
            res_v(r) == spec_menu_from(v@, path@),
    {
    let main_menu = match get_req(v, "mainMenu", path) {
        Ok(x) => match MainMenu::from_json(x, join_path(path, "mainMenu").as_str()) {
            Ok(y) => y,
            Err(e) => return Err(e),
        },
        Err(e) => return Err(e),
    };
    let state = match req_u8(v, "state", path) {
        Ok(x) => x,
        Err(e) => return Err(e),
    };
    let game_mode = match req_u8(v, "gameMode", path) {
        Ok(x) => x,
        Err(e) => return Err(e),
    };
    let is_chat_enabled = match req_wire_bool(v, "isChatEnabled", path) {
        Ok(x) => x,
        Err(e) => return Err(e),
    };
    let bm = match get_req(v, "bm", path) {
        Ok(x) => match Bm::from_json(x, join_path(path, "bm").as_str()) {
            Ok(y) => y,
            Err(e) => return Err(e),
        },
        Err(e) => return Err(e),
    };
    let mods = match get_req(v, "mods", path) {
        Ok(x) => match Mods::from_json(x, join_path(path, "mods").as_str()) {
            Ok(y) => y,
            Err(e) => return Err(e),
        },
        Err(e) => return Err(e),
    };
    let pp = match get_req(v, "pp", path) {
        Ok(x) => match Pp::from_json(x, join_path(path, "pp").as_str()) {
            Ok(y) => y,
            Err(e) => return Err(e),
        },
        Err(e) => return Err(e),
    };
        Ok(Menu { main_menu, state, game_mode, is_chat_enabled, bm, mods, pp })
    }
}

pub open spec fn spec_combo_at(v: JsonV, key: Seq<char>, path: Seq<char>) -> Result<Combo, ErrV> {
    match get_field(v, key, path) {
        Ok(x) => spec_combo_from(x, spec_joined(path, key)),
        Err(e) => Err(e),
    }
}

pub open spec fn spec_combo_from(v: JsonV, path: Seq<char>) -> Result<Combo, ErrV> {
    match (
        spec_req_i16(v, "current"@, path),
        spec_req_i16(v, "max"@, path),
    ) {
        (Ok(current), Ok(max)) => Ok(Combo { current, max }),
        (Err(e), _) => Err(e),
        (_, Err(e)) => Err(e),
    }
}

impl Combo {
    /// Maps the wire object for this entity, rooted at breadcrumb `path`.
    pub fn from_json(v: &Json, path: &str) -> (r: Result<Combo, ParseError>)
        ensures
            res_p(r) == spec_combo_from(v@, path@),
    {
    let current = match req_i16(v, "current", path) {
        Ok(x) => x,
        Err(e) => return Err(e),
    };
    let max = match req_i16(v, "max", path) {
        Ok(x) => x,
        Err(e) => return Err(e),
    };
        Ok(Combo { current, max })
    }
}

pub open spec fn spec_hp_at(v: JsonV, key: Seq<char>, path: Seq<char>) -> Result<Hp, ErrV> {
    match get_field(v, key, path) {
        Ok(x) => spec_hp_from(x, spec_joined(path, key)),
        Err(e) => Err(e),
    }
}

pub open spec fn spec_hp_from(v: JsonV, path: Seq<char>) -> Result<Hp, ErrV> {
    match (
        spec_req_num(v, "normal"@, path),
        spec_req_num(v, "smooth"@, path),
    ) {
        (Ok(normal), Ok(smooth)) => Ok(Hp { normal, smooth }),
        (Err(e), _) => Err(e),
        (_, Err(e)) => Err(e),
    }
}

impl Hp {
    /// Maps the wire object for this entity, rooted at breadcrumb `path`.
    pub fn from_json(v: &Json, path: &str) -> (r: Result<Hp, ParseError>)
        ensures
            res_p(r) == spec_hp_from(v@, path@),
    {
    let normal = match req_num(v, "normal", path) {
        Ok(x) => x,
        Err(e) => return Err(e),
    };
    let smooth = match req_num(v, "smooth", path) {
        Ok(x) => x,
        Err(e) => return Err(e),
    };
        Ok(Hp { normal, smooth })
    }
}

pub open spec fn spec_grade_at(v: JsonV, key: Seq<char>, path: Seq<char>) -> Result<GradeV, ErrV> {
    match get_field(v, key, path) {
        Ok(x) => spec_grade_from(x, spec_joined(path, key)),
        Err(e) => Err(e),
    }
}

pub open spec fn spec_grade_from(v: JsonV, path: Seq<char>) -> Result<GradeV, ErrV> {
    match (
        spec_req_str(v, "current"@, path),
        spec_req_str(v, "maxThisPlay"@, path),
    ) {
        (Ok(current), Ok(max_this_play)) => Ok(GradeV { current, max_this_play }),
        (Err(e), _) => Err(e),
        (_, Err(e)) => Err(e),
    }
}

impl Grade {
    /// Maps the wire object for this entity, rooted at breadcrumb `path`.
    pub fn from_json(v: &Json, path: &str) -> (r: Result<Grade, ParseError>)
        ensures
            res_v(r) == spec_grade_from(v@, path@),
    {
    let current = match req_str(v, "current", path) {
        Ok(x) => x,
        Err(e) => return Err(e),
    };
    let max_this_play = match req_str(v, "maxThisPlay", path) {
        Ok(x) => x,
        Err(e) => return Err(e),
    };
        Ok(Grade { current, max_this_play })
    }
}

pub open spec fn spec_hits_at(v: JsonV, key: Seq<char>, path: Seq<char>) -> Result<HitsV, ErrV> {
    match get_field(v, key, path) {
        Ok(x) => spec_hits_from(x, spec_joined(path, key)),
        Err(e) => Err(e),
    }
}

pub open spec fn spec_hits_from(v: JsonV, path: Seq<char>) -> Result<HitsV, ErrV> {
    match (
        spec_req_i16(v, "300"@, path),
        spec_req_i16(v, "geki"@, path),
        spec_req_i16(v, "100"@, path),
        spec_req_i16(v, "katu"@, path),
        spec_req_i16(v, "50"@, path),
        spec_req_i16(v, "0"@, path),
        spec_req_i16(v, "sliderBreaks"@, path),
        spec_grade_at(v, "grade"@, path),
        spec_req_num(v, "unstableRate"@, path),
        spec_opt_arr(v, "hitErrorArray"@, path, i32_elem_of(spec_joined(path, "hitErrorArray"@))),
    ) {
        (Ok(n300), Ok(geki), Ok(n100), Ok(katu), Ok(n50), Ok(n0), Ok(slider_breaks), Ok(grade), Ok(unstable_rate), Ok(hit_error_array)) => Ok(HitsV { n300, geki, n100, katu, n50, n0, slider_breaks, grade, unstable_rate, hit_error_array }),
        (Err(e), _, _, _, _, _, _, _, _, _) => Err(e),
        (_, Err(e), _, _, _, _, _, _, _, _) => Err(e),
        (_, _, Err(e), _, _, _, _, _, _, _) => Err(e),
        (_, _, _, Err(e), _, _, _, _, _, _) => Err(e),
        (_, _, _, _, Err(e), _, _, _, _, _) => Err(e),
        (_, _, _, _, _, Err(e), _, _, _, _) => Err(e),
        (_, _, _, _, _, _, Err(e), _, _, _) => Err(e),
        (_, _, _, _, _, _, _, Err(e), _, _) => Err(e),
        (_, _, _, _, _, _, _, _, Err(e), _) => Err(e),
        (_, _, _, _, _, _, _, _, _, Err(e)) => Err(e),
    }
}

impl Hits {
    /// Maps the wire object for this entity, rooted at breadcrumb `path`.
    pub fn from_json(v: &Json, path: &str) -> (r: Result<Hits, ParseError>)
        ensures
            res_v(r) == spec_hits_from(v@, path@),
    {
    let n300 = match req_i16(v, "300", path) {
        Ok(x) => x,
        Err(e) => return Err(e),
    };
    let geki = match req_i16(v, "geki", path) {
        Ok(x) => x,
        Err(e) => return Err(e),
    };
    let n100 = match req_i16(v, "100", path) {
        Ok(x) => x,
        Err(e) => return Err(e),
    };
    let katu = match req_i16(v, "katu", path) {
        Ok(x) => x,
        Err(e) => return Err(e),
    };
    let n50 = match req_i16(v, "50", path) {
        Ok(x) => x,
        Err(e) => return Err(e),
    };
    let n0 = match req_i16(v, "0", path) {
        Ok(x) => x,
        Err(e) => return Err(e),
    };
    let slider_breaks = match req_i16(v, "sliderBreaks", path) {
        Ok(x) => x,
        Err(e) => return Err(e),
    };
    let grade = match get_req(v, "grade", path) {
        Ok(x) => match Grade::from_json(x, join_path(path, "grade").as_str()) {
            Ok(y) => y,
            Err(e) => return Err(e),
        },
        Err(e) => return Err(e),
    };
    let unstable_rate = match req_num(v, "unstableRate", path) {
        Ok(x) => x,
        Err(e) => return Err(e),
    };
    let hit_error_array = match opt_i32_arr(v, "hitErrorArray", path) {
        Ok(x) => x,
        Err(e) => return Err(e),
    };
        Ok(Hits { n300, geki, n100, katu, n50, n0, slider_breaks, grade, unstable_rate, hit_error_array })
    }
}

pub open spec fn spec_pp2_at(v: JsonV, key: Seq<char>, path: Seq<char>) -> Result<Pp2, ErrV> {
    match get_field(v, key, path) {
        Ok(x) => spec_pp2_from(x, spec_joined(path, key)),
        Err(e) => Err(e),
    }
}

pub open spec fn spec_pp2_from(v: JsonV, path: Seq<char>) -> Result<Pp2, ErrV> {
    match (
        spec_req_i32(v, "current"@, path),
        spec_req_i32(v, "fc"@, path),
        spec_req_i32(v, "maxThisPlay"@, path),
    ) {
        (Ok(current), Ok(fc), Ok(max_this_play)) => Ok(Pp2 { current, fc, max_this_play }),
        (Err(e), _, _) => Err(e),
        (_, Err(e), _) => Err(e),
        (_, _, Err(e)) => Err(e),
    }
}

impl Pp2 {
    /// Maps the wire object for this entity, rooted at breadcrumb `path`.
    pub fn from_json(v: &Json, path: &str) -> (r: Result<Pp2, ParseError>)
        ensures
            res_p(r) == spec_pp2_from(v@, path@),
    {
    let current = match req_i32(v, "current", path) {
        Ok(x) => x,
        Err(e) => return Err(e),
    };
    let fc = match req_i32(v, "fc", path) {
        Ok(x) => x,
        Err(e) => return Err(e),
    };
    let max_this_play = match req_i32(v, "maxThisPlay", path) {
        Ok(x) => x,
        Err(e) => return Err(e),
    };
        Ok(Pp2 { current, fc, max_this_play })
    }
}

pub open spec fn spec_key_overlay_button_at(v: JsonV, key: Seq<char>, path: Seq<char>) -> Result<KeyOverlayButton, ErrV> {
    match get_field(v, key, path) {
        Ok(x) => spec_key_overlay_button_from(x, spec_joined(path, key)),
        Err(e) => Err(e),
    }
}

pub open spec fn spec_key_overlay_button_from(v: JsonV, path: Seq<char>) -> Result<KeyOverlayButton, ErrV> {
    match (
        spec_req_bool(v, "isPressed"@, path),
        spec_req_i32(v, "count"@, path),
    ) {
        (Ok(is_pressed), Ok(count)) => Ok(KeyOverlayButton { is_pressed, count }),
        (Err(e), _) => Err(e),
        (_, Err(e)) => Err(e),
    }
}

impl KeyOverlayButton {
    /// Maps the wire object for this entity, rooted at breadcrumb `path`.
    pub fn from_json(v: &Json, path: &str) -> (r: Result<KeyOverlayButton, ParseError>)
        ensures
            res_p(r) == spec_key_overlay_button_from(v@, path@),
    {
    let is_pressed = match req_bool(v, "isPressed", path) {
        Ok(x) => x,
        Err(e) => return Err(e),
    };
    let count = match req_i32(v, "count", path) {
        Ok(x) => x,
        Err(e) => return Err(e),
    };
        Ok(KeyOverlayButton { is_pressed, count })
    }
}

pub open spec fn spec_key_overlay_at(v: JsonV, key: Seq<char>, path: Seq<char>) -> Result<KeyOverlay, ErrV> {
    match get_field(v, key, path) {
        Ok(x) => spec_key_overlay_from(x, spec_joined(path, key)),
        Err(e) => Err(e),
    }
}

pub open spec fn spec_key_overlay_from(v: JsonV, path: Seq<char>) -> Result<KeyOverlay, ErrV> {
    match (
        spec_key_overlay_button_at(v, "k1"@, path),
        spec_key_overlay_button_at(v, "k2"@, path),
        spec_key_overlay_button_at(v, "m1"@, path),
        spec_key_overlay_button_at(v, "m2"@, path),
    ) {
        (Ok(k1), Ok(k2), Ok(m1), Ok(m2)) => Ok(KeyOverlay { k1, k2, m1, m2 }),
        (Err(e), _, _, _) => Err(e),
        (_, Err(e), _, _) => Err(e),
        (_, _, Err(e), _) => Err(e),
        (_, _, _, Err(e)) => Err(e),
    }
}

impl KeyOverlay {
    /// Maps the wire object for this entity, rooted at breadcrumb `path`.
    pub fn from_json(v: &Json, path: &str) -> (r: Result<KeyOverlay, ParseError>)
        ensures
            res_p(r) == spec_key_overlay_from(v@, path@),
    {
    let k1 = match get_req(v, "k1", path) {
        Ok(x) => match KeyOverlayButton::from_json(x, join_path(path, "k1").as_str()) {
            Ok(y) => y,
            Err(e) => return Err(e),
        },
        Err(e) => return Err(e),
    };
    let k2 = match get_req(v, "k2", path) {
        Ok(x) => match KeyOverlayButton::from_json(x, join_path(path, "k2").as_str()) {
            Ok(y) => y,
            Err(e) => return Err(e),
        },
        Err(e) => return Err(e),
    };
    let m1 = match get_req(v, "m1", path) {
        Ok(x) => match KeyOverlayButton::from_json(x, join_path(path, "m1").as_str()) {
            Ok(y) => y,
            Err(e) => return Err(e),
        },
        Err(e) => return Err(e),
    };
    let m2 = match get_req(v, "m2", path) {
        Ok(x) => match KeyOverlayButton::from_json(x, join_path(path, "m2").as_str()) {
            Ok(y) => y,
            Err(e) => return Err(e),
        },
        Err(e) => return Err(e),
    };
        Ok(KeyOverlay { k1, k2, m1, m2 })
    }
}

pub open spec fn spec_ourplayer_at(v: JsonV, key: Seq<char>, path: Seq<char>) -> Result<OurplayerV, ErrV> {
    match get_field(v, key, path) {
        Ok(x) => spec_ourplayer_from(x, spec_joined(path, key)),
        Err(e) => Err(e),
    }
}

pub open spec fn spec_ourplayer_from(v: JsonV, path: Seq<char>) -> Result<OurplayerV, ErrV> {
    match (
        spec_req_str(v, "name"@, path),
        spec_req_i32(v, "score"@, path),
        spec_req_i16(v, "combo"@, path),
        spec_req_i16(v, "maxCombo"@, path),
        spec_req_str(v, "mods"@, path),
        spec_req_i16(v, "h300"@, path),
        spec_req_i16(v, "h100"@, path),
        spec_req_i16(v, "h50"@, path),
        spec_req_i16(v, "h0"@, path),
        spec_req_i32(v, "team"@, path),
        spec_req_i32(v, "position"@, path),
        spec_req_wire_bool(v, "isPassing"@, path),
    ) {
        (Ok(name), Ok(score), Ok(combo), Ok(max_combo), Ok(mods), Ok(h300), Ok(h100), Ok(h50), Ok(h0), Ok(team), Ok(position), Ok(is_passing)) => Ok(OurplayerV { name, score, combo, max_combo, mods, h300, h100, h50, h0, team, position, is_passing }),
        (Err(e), _, _, _, _, _, _, _, _, _, _, _) => Err(e),
        (_, Err(e), _, _, _, _, _, _, _, _, _, _) => Err(e),
        (_, _, Err(e), _, _, _, _, _, _, _, _, _) => Err(e),
        (_, _, _, Err(e), _, _, _, _, _, _, _, _) => Err(e),
        (_, _, _, _, Err(e), _, _, _, _, _, _, _) => Err(e),
        (_, _, _, _, _, Err(e), _, _, _, _, _, _) => Err(e),
        (_, _, _, _, _, _, Err(e), _, _, _, _, _) => Err(e),
        (_, _, _, _, _, _, _, Err(e), _, _, _, _) => Err(e),
        (_, _, _, _, _, _, _, _, Err(e), _, _, _) => Err(e),
        (_, _, _, _, _, _, _, _, _, Err(e), _, _) => Err(e),
        (_, _, _, _, _, _, _, _, _, _, Err(e), _) => Err(e),
        (_, _, _, _, _, _, _, _, _, _, _, Err(e)) => Err(e),
    }
}

impl Ourplayer {
    /// Maps the wire object for this entity, rooted at breadcrumb `path`.
    pub fn from_json(v: &Json, path: &str) -> (r: Result<Ourplayer, ParseError>)
        ensures
            res_v(r) == spec_ourplayer_from(v@, path@),
    {
    let name = match req_str(v, "name", path) {
        Ok(x) => x,
        Err(e) => return Err(e),
    };
    let score = match req_i32(v, "score", path) {
        Ok(x) => x,
        Err(e) => return Err(e),
    };
    let combo = match req_i16(v, "combo", path) {
        Ok(x) => x,
        Err(e) => return Err(e),
    };
    let max_combo = match req_i16(v, "maxCombo", path) {
        Ok(x) => x,
        Err(e) => return Err(e),
    };
    let mods = match req_str(v, "mods", path) {
        Ok(x) => x,
        Err(e) => return Err(e),
    };
    let h300 = match req_i16(v, "h300", path) {
        Ok(x) => x,
        Err(e) => return Err(e),
    };
    let h100 = match req_i16(v, "h100", path) {
        Ok(x) => x,
        Err(e) => return Err(e),
    };
    let h50 = match req_i16(v, "h50", path) {
        Ok(x) => x,
        Err(e) => return Err(e),
    };
    let h0 = match req_i16(v, "h0", path) {
        Ok(x) => x,
        Err(e) => return Err(e),
    };
    let team = match req_i32(v, "team", path) {
        Ok(x) => x,
        Err(e) => return Err(e),
    };
    let position = match req_i32(v, "position", path) {
        Ok(x) => x,
        Err(e) => return Err(e),
    };
    let is_passing = match req_wire_bool(v, "isPassing", path) {
        Ok(x) => x,
        Err(e) => return Err(e),
    };
        Ok(Ourplayer { name, score, combo, max_combo, mods, h300, h100, h50, h0, team, position, is_passing })
    }
}


/// A leaderboard slot mapped as a full player record.
pub open spec fn player_elem_of(path: Seq<char>) -> spec_fn(JsonV) -> Result<OurplayerV, ErrV> {
    |e: JsonV| spec_ourplayer_from(e, path)
}

#[verifier::loop_isolation(false)]
pub fn opt_player_arr(v: &Json, key: &str, path: &str) -> (r: Result<
    Option<Vec<Ourplayer>>,
    ParseError,
>)
    ensures
        (match r {
            Ok(x) => spec_opt_arr(v@, key@, path@, player_elem_of(spec_joined(path@, key@)))
                == Ok::<Option<Seq<OurplayerV>>, ErrV>(
                match x {
                    Some(out) => Some(Seq::new(out@.len(), |i: int| out@[i]@)),
                    None => None,
                },
            ),
            Err(e) => spec_opt_arr(v@, key@, path@, player_elem_of(spec_joined(path@, key@)))
                == Err::<Option<Seq<OurplayerV>>, ErrV>(e@),
        }),
{
    let ghost f = player_elem_of(spec_joined(path@, key@));
    match v {
        Json::Obj(fields) => match obj_get(fields, key) {
            None => Ok(None),
            Some(x) => match x {
                Json::Null => Ok(None),
                Json::Arr(elems) => {
                    let ghost ev = elems_view(elems@);
                    proof {
                        lemma_elems_view(elems@);
                    }
                    let p = join_path(path, key);
                    let mut out: Vec<Ourplayer> = Vec::new();
                    let mut i: usize = 0;
                    proof {
                        assert(Seq::new(out@.len(), |k: int| out@[k]@)
                            =~= Seq::<OurplayerV>::empty());
                        assert(ev.take(0) =~= Seq::<JsonV>::empty());
                    }
                    while i < elems.len()
                        invariant
                            i <= elems.len(),
                            out@.len() == i,
                            coerce_elems(ev.take(i as int), f) == Ok::<Seq<OurplayerV>, ErrV>(
                                Seq::new(out@.len(), |k: int| out@[k]@),
                            ),
                        decreases elems.len() - i,
                    {
                        match Ourplayer::from_json(&elems[i], p.as_str()) {
                            Ok(pl) => {
                                proof {
                                    lemma_coerce_snoc(ev, f, i as int);
                                }
                                let ghost old_seq = Seq::new(out@.len(), |k: int| out@[k]@);
                                out.push(pl);
                                proof {
                                    assert(Seq::new(out@.len(), |k: int| out@[k]@) =~= old_seq.push(
                                        pl@,
                                    ));
                                }
                            },
                            Err(e) => {
                                proof {
                                    lemma_coerce_err(ev, f, i as int, e@);
                                }
                                return Err(e);
                            },
                        }
                        i += 1;
                    }
                    proof {
                        assert(ev.take(elems@.len() as int) =~= ev);
                    }
                    Ok(Some(out))
                },
                _ => Err(ParseError::SchemaMismatch { path: join_path(path, key) }),
            },
        },
        _ => Err(ParseError::SchemaMismatch { path: String::from_str(path) }),
    }
}

pub open spec fn spec_leaderboard_at(v: JsonV, key: Seq<char>, path: Seq<char>) -> Result<LeaderboardV, ErrV> {
    match get_field(v, key, path) {
        Ok(x) => spec_leaderboard_from(x, spec_joined(path, key)),
        Err(e) => Err(e),
    }
}

pub open spec fn spec_leaderboard_from(v: JsonV, path: Seq<char>) -> Result<LeaderboardV, ErrV> {
    match (
        spec_req_bool(v, "hasLeaderboard"@, path),
        spec_req_bool(v, "isVisible"@, path),
        spec_ourplayer_at(v, "ourplayer"@, path),
        spec_opt_arr(v, "slots"@, path, player_elem_of(spec_joined(path, "slots"@))),
    ) {
        (Ok(has_leaderboard), Ok(is_visible), Ok(ourplayer), Ok(slots)) => Ok(LeaderboardV { has_leaderboard, is_visible, ourplayer, slots }),
        (Err(e), _, _, _) => Err(e),
        (_, Err(e), _, _) => Err(e),
        (_, _, Err(e), _) => Err(e),
        (_, _, _, Err(e)) => Err(e),
    }
}

impl Leaderboard {
    /// Maps the wire object for this entity, rooted at breadcrumb `path`.
    pub fn from_json(v: &Json, path: &str) -> (r: Result<Leaderboard, ParseError>)
        ensures
            res_v(r) == spec_leaderboard_from(v@, path@),
    {
    let has_leaderboard = match req_bool(v, "hasLeaderboard", path) {
        Ok(x) => x,
        Err(e) => return Err(e),
    };
    let is_visible = match req_bool(v, "isVisible", path) {
        Ok(x) => x,
        Err(e) => return Err(e),
    };
    let ourplayer = match get_req(v, "ourplayer", path) {
        Ok(x) => match Ourplayer::from_json(x, join_path(path, "ourplayer").as_str()) {
            Ok(y) => y,
            Err(e) => return Err(e),
        },
        Err(e) => return Err(e),
    };
    let slots = match opt_player_arr(v, "slots", path) {
        Ok(x) => x,
        Err(e) => return Err(e),
    };
        Ok(Leaderboard { has_leaderboard, is_visible, ourplayer, slots })
    }
}

pub open spec fn spec_gameplay_at(v: JsonV, key: Seq<char>, path: Seq<char>) -> Result<GameplayV, ErrV> {
    match get_field(v, key, path) {
        Ok(x) => spec_gameplay_from(x, spec_joined(path, key)),
        Err(e) => Err(e),
    }
}

pub open spec fn spec_gameplay_from(v: JsonV, path: Seq<char>) -> Result<GameplayV, ErrV> {
    match (
        spec_req_u8(v, "gameMode"@, path),
        spec_opt_str(v, "name"@, path),
        spec_req_i32(v, "score"@, path),
        spec_req_num(v, "accuracy"@, path),
        spec_combo_at(v, "combo"@, path),
        spec_hp_at(v, "hp"@, path),
        spec_hits_at(v, "hits"@, path),
        spec_pp2_at(v, "pp"@, path),
        spec_key_overlay_at(v, "keyOverlay"@, path),
        spec_leaderboard_at(v, "leaderboard"@, path),
    ) {
        (Ok(game_mode), Ok(name), Ok(score), Ok(accuracy), Ok(combo), Ok(hp), Ok(hits), Ok(pp), Ok(key_overlay), Ok(leaderboard)) => Ok(GameplayV { game_mode, name, score, accuracy, combo, hp, hits, pp, key_overlay, leaderboard }),
        (Err(e), _, _, _, _, _, _, _, _, _) => Err(e),
        (_, Err(e), _, _, _, _, _, _, _, _) => Err(e),
        (_, _, Err(e), _, _, _, _, _, _, _) => Err(e),
        (_, _, _, Err(e), _, _, _, _, _, _) => Err(e),
        (_, _, _, _, Err(e), _, _, _, _, _) => Err(e),
        (_, _, _, _, _, Err(e), _, _, _, _) => Err(e),
        (_, _, _, _, _, _, Err(e), _, _, _) => Err(e),
        (_, _, _, _, _, _, _, Err(e), _, _) => Err(e),
        (_, _, _, _, _, _, _, _, Err(e), _) => Err(e),
        (_, _, _, _, _, _, _, _, _, Err(e)) => Err(e),
    }
}

impl Gameplay {
    /// Maps the wire object for this entity, rooted at breadcrumb `path`.
    pub fn from_json(v: &Json, path: &str) -> (r: Result<Gameplay, ParseError>)
        ensures
            res_v(r) == spec_gameplay_from(v@, path@),
    {
    let game_mode = match req_u8(v, "gameMode", path) {
        Ok(x) => x,
        Err(e) => return Err(e),
    };
    let name = match opt_str(v, "name", path) {
        Ok(x) => x,
        Err(e) => return Err(e),
    };
    let score = match req_i32(v, "score", path) {
        Ok(x) => x,
        Err(e) => return Err(e),
    };
    let accuracy = match req_num(v, "accuracy", path) {
        Ok(x) => x,
        Err(e) => return Err(e),
    };
    let combo = match get_req(v, "combo", path) {
        Ok(x) => match Combo::from_json(x, join_path(path, "combo").as_str()) {
            Ok(y) => y,
            Err(e) => return Err(e),
        },
        Err(e) => return Err(e),
    };
    let hp = match get_req(v, "hp", path) {
        Ok(x) => match Hp::from_json(x, join_path(path, "hp").as_str()) {
            Ok(y) => y,
            Err(e) => return Err(e),
        },
        Err(e) => return Err(e),
    };
    let hits = match get_req(v, "hits", path) {
        Ok(x) => match Hits::from_json(x, join_path(path, "hits").as_str()) {
            Ok(y) => y,
            Err(e) => return Err(e),
        },
        Err(e) => return Err(e),
    };
    let pp = match get_req(v, "pp", path) {
        Ok(x) => match Pp2::from_json(x, join_path(path, "pp").as_str()) {
            Ok(y) => y,
            Err(e) => return Err(e),
        },
        Err(e) => return Err(e),
    };
    let key_overlay = match get_req(v, "keyOverlay", path) {
        Ok(x) => match KeyOverlay::from_json(x, join_path(path, "keyOverlay").as_str()) {
            Ok(y) => y,
            Err(e) => return Err(e),
        },
        Err(e) => return Err(e),
    };
    let leaderboard = match get_req(v, "leaderboard", path) {
        Ok(x) => match Leaderboard::from_json(x, join_path(path, "leaderboard").as_str()) {
            Ok(y) => y,
            Err(e) => return Err(e),
        },
        Err(e) => return Err(e),
    };
        Ok(Gameplay { game_mode, name, score, accuracy, combo, hp, hits, pp, key_overlay, leaderboard })
    }
}

pub open spec fn spec_results_screen_at(v: JsonV, key: Seq<char>, path: Seq<char>) -> Result<ResultsScreenV, ErrV> {
    match get_field(v, key, path) {
        Ok(x) => spec_results_screen_from(x, spec_joined(path, key)),
        Err(e) => Err(e),
    }
}

pub open spec fn spec_results_screen_from(v: JsonV, path: Seq<char>) -> Result<ResultsScreenV, ErrV> {
    match (
        spec_req_str(v, "name"@, path),
        spec_req_i32(v, "score"@, path),
        spec_req_i16(v, "maxCombo"@, path),
        spec_mods_at(v, "mods"@, path),
        spec_req_i16(v, "300"@, path),
        spec_req_i16(v, "geki"@, path),
        spec_req_i16(v, "100"@, path),
        spec_req_i16(v, "katu"@, path),
        spec_req_i16(v, "50"@, path),
        spec_req_i16(v, "0"@, path),
    ) {
        (Ok(name), Ok(score), Ok(max_combo), Ok(mods), Ok(n300), Ok(geki), Ok(n100), Ok(katu), Ok(n50), Ok(n0)) => Ok(ResultsScreenV { name, score, max_combo, mods, n300, geki, n100, katu, n50, n0 }),
        (Err(e), _, _, _, _, _, _, _, _, _) => Err(e),
        (_, Err(e), _, _, _, _, _, _, _, _) => Err(e),
        (_, _, Err(e), _, _, _, _, _, _, _) => Err(e),
        (_, _, _, Err(e), _, _, _, _, _, _) => Err(e),
        (_, _, _, _, Err(e), _, _, _, _, _) => Err(e),
        (_, _, _, _, _, Err(e), _, _, _, _) => Err(e),
        (_, _, _, _, _, _, Err(e), _, _, _) => Err(e),
        (_, _, _, _, _, _, _, Err(e), _, _) => Err(e),
        (_, _, _, _, _, _, _, _, Err(e), _) => Err(e),
        (_, _, _, _, _, _, _, _, _, Err(e)) => Err(e),
    }
}

impl ResultsScreen {
    /// Maps the wire object for this entity, rooted at breadcrumb `path`.
    pub fn from_json(v: &Json, path: &str) -> (r: Result<ResultsScreen, ParseError>)
        ensures
            res_v(r) == spec_results_screen_from(v@, path@),
    {
    let name = match req_str(v, "name", path) {
        Ok(x) => x,
        Err(e) => return Err(e),
    };
    let score = match req_i32(v, "score", path) {
        Ok(x) => x,
        Err(e) => return Err(e),
    };
    let max_combo = match req_i16(v, "maxCombo", path) {
        Ok(x) => x,
        Err(e) => return Err(e),
    };
    let mods = match get_req(v, "mods", path) {
        Ok(x) => match Mods::from_json(x, join_path(path, "mods").as_str()) {
            Ok(y) => y,
            Err(e) => return Err(e),
        },
        Err(e) => return Err(e),
    };
    let n300 = match req_i16(v, "300", path) {
        Ok(x) => x,
        Err(e) => return Err(e),
    };
    let geki = match req_i16(v, "geki", path) {
        Ok(x) => x,
        Err(e) => return Err(e),
    };
    let n100 = match req_i16(v, "100", path) {
        Ok(x) => x,
        Err(e) => return Err(e),
    };
    let katu = match req_i16(v, "katu", path) {
        Ok(x) => x,
        Err(e) => return Err(e),
    };
    let n50 = match req_i16(v, "50", path) {
        Ok(x) => x,
        Err(e) => return Err(e),
    };
    let n0 = match req_i16(v, "0", path) {
        Ok(x) => x,
        Err(e) => return Err(e),
    };
        Ok(ResultsScreen { name, score, max_combo, mods, n300, geki, n100, katu, n50, n0 })
    }
}

pub open spec fn spec_gosumemory_at(v: JsonV, key: Seq<char>, path: Seq<char>) -> Result<GosumemoryV, ErrV> {
    match get_field(v, key, path) {
        Ok(x) => spec_gosumemory_from(x, spec_joined(path, key)),
        Err(e) => Err(e),
    }
}

pub open spec fn spec_gosumemory_from(v: JsonV, path: Seq<char>) -> Result<GosumemoryV, ErrV> {
    match (
        spec_settings_at(v, "settings"@, path),
        spec_menu_at(v, "menu"@, path),
        spec_gameplay_at(v, "gameplay"@, path),
        spec_results_screen_at(v, "resultsScreen"@, path),
    ) {
        (Ok(settings), Ok(menu), Ok(gameplay), Ok(results_screen)) => Ok(GosumemoryV { settings, menu, gameplay, results_screen }),
        (Err(e), _, _, _) => Err(e),
        (_, Err(e), _, _) => Err(e),
        (_, _, Err(e), _) => Err(e),
        (_, _, _, Err(e)) => Err(e),
    }
}

impl Gosumemory {
    /// Maps the wire object for this entity, rooted at breadcrumb `path`.
    pub fn from_json(v: &Json, path: &str) -> (r: Result<Gosumemory, ParseError>)
        ensures
            res_v(r) == spec_gosumemory_from(v@, path@),
    {
    let settings = match get_req(v, "settings", path) {
        Ok(x) => match Settings::from_json(x, join_path(path, "settings").as_str()) {
            Ok(y) => y,
            Err(e) => return Err(e),
        },
        Err(e) => return Err(e),
    };
    let menu = match get_req(v, "menu", path) {
        Ok(x) => match Menu::from_json(x, join_path(path, "menu").as_str()) {
            Ok(y) => y,
            Err(e) => return Err(e),
        },
        Err(e) => return Err(e),
    };
    let gameplay = match get_req(v, "gameplay", path) {
        Ok(x) => match Gameplay::from_json(x, join_path(path, "gameplay").as_str()) {
            Ok(y) => y,
            Err(e) => return Err(e),
        },
        Err(e) => return Err(e),
    };
    let results_screen = match get_req(v, "resultsScreen", path) {
        Ok(x) => match ResultsScreen::from_json(x, join_path(path, "resultsScreen").as_str()) {
            Ok(y) => y,
            Err(e) => return Err(e),
        },
        Err(e) => return Err(e),
    };
        Ok(Gosumemory { settings, menu, gameplay, results_screen })
    }
}


/// A present wire-boolean field holding any value other than the wire
/// numbers 0 and 1 fails as an invalid boolean encoding, never as a silent
/// truthiness coercion.
pub proof fn lemma_wire_bool_rejects(v: JsonV, key: Seq<char>, path: Seq<char>, x: JsonV)
    requires
        get_field(v, key, path) == Ok::<JsonV, ErrV>(x),
        x != JsonV::Num(Decimal { neg: false, mantissa: 0, scale: 0, frac: false }),
        x != JsonV::Num(Decimal { neg: false, mantissa: 1, scale: 0, frac: false }),
    ensures
        spec_req_wire_bool(v, key, path) == Err::<bool, ErrV>(
            ErrV::BadBool { path: spec_joined(path, key) },
        ),
{
}

/// An optional array field absent from the wire (or `null`) maps to the
/// absent state.
pub proof fn lemma_opt_arr_absent<T>(
    fields: Seq<(Seq<char>, JsonV)>,
    key: Seq<char>,
    path: Seq<char>,
    f: spec_fn(JsonV) -> Result<T, ErrV>,
)
    requires
        lookup(fields, key) is None || lookup(fields, key) == Some(JsonV::Null),
    ensures
        spec_opt_arr(JsonV::Obj(fields), key, path, f) == Ok::<Option<Seq<T>>, ErrV>(None),
{
}

/// An optional array field present but empty maps to the empty sequence, a
/// state distinct from absence.
pub proof fn lemma_opt_arr_empty<T>(
    fields: Seq<(Seq<char>, JsonV)>,
    key: Seq<char>,
    path: Seq<char>,
    f: spec_fn(JsonV) -> Result<T, ErrV>,
)
    requires
        lookup(fields, key) == Some(JsonV::Arr(Seq::<JsonV>::empty())),
    ensures
        spec_opt_arr(JsonV::Obj(fields), key, path, f) == Ok::<Option<Seq<T>>, ErrV>(
            Some(Seq::<T>::empty()),
        ),
{
}

/// Parses one feed document: JSON syntax first, then the schema mapping
/// rooted at the document object.
///
/// The result is pinned against the text itself: `MalformedDocument` exactly
/// when the text denotes no JSON tree, and otherwise exactly the schema
/// mapping of the tree the text denotes — every field value, the first
/// failure's kind and its breadcrumb path included.
pub fn parse(text: &str) -> (r: Result<Gosumemory, ParseError>)
    ensures
        res_v(r) == (match spec_json_of(text@) {
            None => Err::<GosumemoryV, ErrV>(ErrV::Malformed),
            Some(jv) => spec_gosumemory_from(jv, Seq::<char>::empty()),
        }),
{
    let j = match crate::syntax::parse_json(text) {
        Ok(j) => j,
        Err(e) => return Err(e),
    };
    proof {
        reveal_strlit("");
        assert(""@ =~= Seq::<char>::empty());
    }
    Gosumemory::from_json(&j, "")
}

} // verus!
