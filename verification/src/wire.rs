//! The wire encoder: from the typed model back to the wire form, and the
//! round-trip law.
//!
//! `wire_of_*` are the spec-level encoders into the JSON tree; each
//! `lemma_*_roundtrip` proves that mapping an encoded tree back recovers the
//! value exactly, for every value of the type.  The executable `to_json`
//! methods build that same tree.

use vstd::prelude::*;

use crate::errors::ErrV;
use crate::json::{Json, JsonV, elems_view, fields_view, lemma_elems_view, lemma_fields_view, lookup};
use crate::mapper::{
    coerce_elems, spec_combo_at, spec_hits_at, spec_hp_at, spec_key_overlay_at,
    spec_leaderboard_at, spec_opt_str, spec_pp2_at, spec_req_i32, spec_req_num, spec_req_u8, i32_elem_of, num_elem_of, player_elem_of, spec_bm_from, spec_bpm_from, spec_gameplay_at, spec_menu_at, spec_results_screen_at, spec_settings_at,
    spec_combo_from, spec_folders_from, spec_gameplay_from, spec_gosumemory_from, spec_grade_from,
    spec_hits_from, spec_hp_from, spec_key_overlay_button_from, spec_key_overlay_from,
    spec_leaderboard_from, spec_main_menu_from, spec_menu_from, spec_metadata_from, spec_mods_from,
    spec_ourplayer_from, spec_path_from, spec_pp2_from, spec_pp_from, spec_results_screen_from,
    spec_settings_from, spec_stats_from, spec_time_from,
};
use crate::model::{
    Bm, BmV, Bpm, Combo, Folders, FoldersV, Gameplay, GameplayV, Gosumemory, GosumemoryV, Grade,
    GradeV, Hits, HitsV, Hp, KeyOverlay, KeyOverlayButton, Leaderboard, LeaderboardV, MainMenu,
    Menu, MenuV, Metadata, MetadataV, Mods, ModsV, Ourplayer, OurplayerV, Path, PathV, Pp, Pp2,
    PpV, ResultsScreen, ResultsScreenV, Settings, SettingsV, Stats, Time,
};
use crate::text::{lemma_str_neq, spec_joined};
use crate::wirenum::{Decimal, dec_of_bool, dec_of_i64, spec_dec_of_bool, spec_dec_of_i64};

verus! {

/// A sequence of wire numbers coerces back to itself.
pub proof fn lemma_rt_num_arr(ds: Seq<Decimal>, p: Seq<char>)
    ensures
        coerce_elems(ds.map_values(|d: Decimal| JsonV::Num(d)), num_elem_of(p)) == Ok::<
            Seq<Decimal>,
            ErrV,
        >(ds),
    decreases ds.len(),
{
    let mapped = ds.map_values(|d: Decimal| JsonV::Num(d));
    if ds.len() == 0 {
        assert(ds =~= Seq::<Decimal>::empty());
    } else {
        lemma_rt_num_arr(ds.drop_last(), p);
        assert(mapped.drop_last() =~= ds.drop_last().map_values(|d: Decimal| JsonV::Num(d)));
        assert(mapped.last() == JsonV::Num(ds.last()));
        assert(ds.drop_last().push(ds.last()) =~= ds);
    }
}

/// A sequence of integral wire numbers coerces back to itself.
pub proof fn lemma_rt_i32_arr(vs: Seq<i32>, p: Seq<char>)
    ensures
        coerce_elems(
            vs.map_values(|x: i32| JsonV::Num(spec_dec_of_i64(x as i64))),
            i32_elem_of(p),
        ) == Ok::<Seq<i32>, ErrV>(vs),
    decreases vs.len(),
{
    let mapped = vs.map_values(|x: i32| JsonV::Num(spec_dec_of_i64(x as i64)));
    if vs.len() == 0 {
        assert(vs =~= Seq::<i32>::empty());
    } else {
        lemma_rt_i32_arr(vs.drop_last(), p);
        assert(mapped.drop_last() =~= vs.drop_last().map_values(
            |x: i32| JsonV::Num(spec_dec_of_i64(x as i64)),
        ));
        assert(mapped.last() == JsonV::Num(spec_dec_of_i64(vs.last() as i64)));
        assert(vs.drop_last().push(vs.last()) =~= vs);
    }
}

/// A sequence of encoded player records maps back to itself.
pub proof fn lemma_rt_player_arr(ps: Seq<OurplayerV>, p: Seq<char>)
    ensures
        coerce_elems(ps.map_values(|q: OurplayerV| wire_of_ourplayer(q)), player_elem_of(p))
            == Ok::<Seq<OurplayerV>, ErrV>(ps),
    decreases ps.len(),
{
    let mapped = ps.map_values(|q: OurplayerV| wire_of_ourplayer(q));
    if ps.len() == 0 {
        assert(ps =~= Seq::<OurplayerV>::empty());
    } else {
        lemma_rt_player_arr(ps.drop_last(), p);
        assert(mapped.drop_last() =~= ps.drop_last().map_values(
            |q: OurplayerV| wire_of_ourplayer(q),
        ));
        assert(mapped.last() == wire_of_ourplayer(ps.last()));
        lemma_ourplayer_roundtrip(ps.last(), p);
        assert(ps.drop_last().push(ps.last()) =~= ps);
    }
}

/// Wire numbers built one per element.
fn nums_to_json(ds: &Vec<Decimal>) -> (r: Vec<Json>)
    ensures
        elems_view(r@) == ds@.map_values(|d: Decimal| JsonV::Num(d)),
{
    let mut r: Vec<Json> = Vec::new();
    let mut i: usize = 0;
    while i < ds.len()
        invariant
            i <= ds.len(),
            r@.len() == i,
            forall|k: int| 0 <= k < i ==> r@[k] == Json::Num(ds@[k]),
        decreases ds.len() - i,
    {
        r.push(Json::Num(ds[i]));
        i += 1;
    }
    proof {
        lemma_elems_view(r@);
        assert(elems_view(r@) =~= ds@.map_values(|d: Decimal| JsonV::Num(d)));
    }
    r
}

fn i32s_to_json(vs: &Vec<i32>) -> (r: Vec<Json>)
    ensures
        elems_view(r@) == vs@.map_values(|x: i32| JsonV::Num(spec_dec_of_i64(x as i64))),
{
    let mut r: Vec<Json> = Vec::new();
    let mut i: usize = 0;
    while i < vs.len()
        invariant
            i <= vs.len(),
            r@.len() == i,
            forall|k: int| 0 <= k < i ==> r@[k] == Json::Num(spec_dec_of_i64(vs@[k] as i64)),
        decreases vs.len() - i,
    {
        r.push(Json::Num(dec_of_i64(vs[i] as i64)));
        i += 1;
    }
    proof {
        lemma_elems_view(r@);
        assert(elems_view(r@) =~= vs@.map_values(|x: i32| JsonV::Num(spec_dec_of_i64(x as i64))));
    }
    r
}

fn players_to_json(ps: &Vec<Ourplayer>) -> (r: Vec<Json>)
    ensures
        elems_view(r@) == Seq::new(ps@.len(), |i: int| wire_of_ourplayer(ps@[i]@)),
{
    let mut r: Vec<Json> = Vec::new();
    let mut i: usize = 0;
    while i < ps.len()
        invariant
            i <= ps.len(),
            r@.len() == i,
            forall|k: int| 0 <= k < i ==> r@[k]@ == wire_of_ourplayer(ps@[k]@),
        decreases ps.len() - i,
    {
        r.push(ps[i].to_json());
        i += 1;
    }
    proof {
        lemma_elems_view(r@);
        assert(elems_view(r@) =~= Seq::new(ps@.len(), |i: int| wire_of_ourplayer(ps@[i]@)));
    }
    r
}

/// The wire tree a `Folders` value denotes, under the schema's field names.
pub open spec fn wire_fields_of_folders(m: FoldersV) -> Seq<(Seq<char>, JsonV)> {
    seq![
        ("game"@, JsonV::Str(m.game)),
        ("skin"@, JsonV::Str(m.skin)),
        ("songs"@, JsonV::Str(m.songs)),
    ]
}

pub open spec fn wire_of_folders(m: FoldersV) -> JsonV {
    JsonV::Obj(wire_fields_of_folders(m))
}

/// Round trip: mapping the encoded wire tree back recovers the value.
#[verifier::rlimit(100)]
pub proof fn lemma_folders_roundtrip(m: FoldersV, path: Seq<char>)
    ensures
        spec_folders_from(wire_of_folders(m), path) == Ok::<FoldersV, ErrV>(m),
{
    reveal_with_fuel(lookup, 20);
    reveal_strlit("game");
    reveal_strlit("skin");
    reveal_strlit("songs");
    lemma_str_neq("game"@, "skin"@, 0);
    lemma_str_neq("game"@, "songs"@, 0);
    lemma_str_neq("skin"@, "songs"@, 0);

}

impl Folders {
    /// The wire tree this value denotes.
    pub fn to_json(&self) -> (r: Json)
        ensures
            r@ == wire_of_folders(self@),
    {
        let mut fields: Vec<(String, Json)> = Vec::new();
        fields.push((String::from_str("game"), Json::Str(self.game.clone())));
        fields.push((String::from_str("skin"), Json::Str(self.skin.clone())));
        fields.push((String::from_str("songs"), Json::Str(self.songs.clone())));
        let r = Json::Obj(fields);
        proof {
            lemma_fields_view(fields@);
            assert(fields_view(fields@) =~~= wire_fields_of_folders(self@));
        }
        r
    }
}

/// The wire tree a `Settings` value denotes, under the schema's field names.
pub open spec fn wire_fields_of_settings(m: SettingsV) -> Seq<(Seq<char>, JsonV)> {
    seq![
        ("showInterface"@, JsonV::Bool(m.show_interface)),
        ("folders"@, wire_of_folders(m.folders)),
    ]
}

pub open spec fn wire_of_settings(m: SettingsV) -> JsonV {
    JsonV::Obj(wire_fields_of_settings(m))
}

/// Round trip: mapping the encoded wire tree back recovers the value.
#[verifier::rlimit(100)]
pub proof fn lemma_settings_roundtrip(m: SettingsV, path: Seq<char>)
    ensures
        spec_settings_from(wire_of_settings(m), path) == Ok::<SettingsV, ErrV>(m),
{
    reveal_with_fuel(lookup, 20);
    reveal_strlit("showInterface");
    reveal_strlit("folders");
    lemma_str_neq("showInterface"@, "folders"@, 0);
    lemma_folders_roundtrip(m.folders, spec_joined(path, "folders"@));
}

impl Settings {
    /// The wire tree this value denotes.
    pub fn to_json(&self) -> (r: Json)
        ensures
            r@ == wire_of_settings(self@),
    {
        let mut fields: Vec<(String, Json)> = Vec::new();
        fields.push((String::from_str("showInterface"), Json::Bool(self.show_interface)));
        fields.push((String::from_str("folders"), self.folders.to_json()));
        let r = Json::Obj(fields);
        proof {
            lemma_fields_view(fields@);
            assert(fields_view(fields@) =~~= wire_fields_of_settings(self@));
        }
        r
    }
}

/// The wire tree a `MainMenu` value denotes, under the schema's field names.
pub open spec fn wire_fields_of_main_menu(m: MainMenu) -> Seq<(Seq<char>, JsonV)> {
    seq![
        ("bassDensity"@, JsonV::Num(m.bass_density)),
    ]
}

pub open spec fn wire_of_main_menu(m: MainMenu) -> JsonV {
    JsonV::Obj(wire_fields_of_main_menu(m))
}

/// Round trip: mapping the encoded wire tree back recovers the value.
#[verifier::rlimit(100)]
pub proof fn lemma_main_menu_roundtrip(m: MainMenu, path: Seq<char>)
    ensures
        spec_main_menu_from(wire_of_main_menu(m), path) == Ok::<MainMenu, ErrV>(m),
{
    reveal_with_fuel(lookup, 20);
    reveal_strlit("bassDensity");


}

impl MainMenu {
    /// The wire tree this value denotes.
    pub fn to_json(&self) -> (r: Json)
        ensures
            r@ == wire_of_main_menu((*self)),
    {
        let mut fields: Vec<(String, Json)> = Vec::new();
        fields.push((String::from_str("bassDensity"), Json::Num(self.bass_density)));
        let r = Json::Obj(fields);
        proof {
            lemma_fields_view(fields@);
            assert(fields_view(fields@) =~~= wire_fields_of_main_menu((*self)));
        }
        r
    }
}

/// The wire tree a `Time` value denotes, under the schema's field names.
pub open spec fn wire_fields_of_time(m: Time) -> Seq<(Seq<char>, JsonV)> {
    seq![
        ("firstObj"@, JsonV::Num(spec_dec_of_i64(m.first_obj as i64))),
        ("current"@, JsonV::Num(spec_dec_of_i64(m.current as i64))),
        ("full"@, JsonV::Num(spec_dec_of_i64(m.full as i64))),
        ("mp3"@, JsonV::Num(spec_dec_of_i64(m.mp3 as i64))),
    ]
}

pub open spec fn wire_of_time(m: Time) -> JsonV {
    JsonV::Obj(wire_fields_of_time(m))
}

/// Round trip: mapping the encoded wire tree back recovers the value.
#[verifier::rlimit(100)]
pub proof fn lemma_time_roundtrip(m: Time, path: Seq<char>)
    ensures
        spec_time_from(wire_of_time(m), path) == Ok::<Time, ErrV>(m),
{
    reveal_with_fuel(lookup, 20);
    reveal_strlit("firstObj");
    reveal_strlit("current");
    reveal_strlit("full");
    reveal_strlit("mp3");
    lemma_str_neq("firstObj"@, "current"@, 0);
    lemma_str_neq("firstObj"@, "full"@, 0);
    lemma_str_neq("firstObj"@, "mp3"@, 0);
    lemma_str_neq("current"@, "full"@, 0);
    lemma_str_neq("current"@, "mp3"@, 0);
    lemma_str_neq("full"@, "mp3"@, 0);

}

impl Time {
    /// The wire tree this value denotes.
    pub fn to_json(&self) -> (r: Json)
        ensures
            r@ == wire_of_time((*self)),
    {
        let mut fields: Vec<(String, Json)> = Vec::new();
        fields.push((String::from_str("firstObj"), Json::Num(dec_of_i64(self.first_obj as i64))));
        fields.push((String::from_str("current"), Json::Num(dec_of_i64(self.current as i64))));
        fields.push((String::from_str("full"), Json::Num(dec_of_i64(self.full as i64))));
        fields.push((String::from_str("mp3"), Json::Num(dec_of_i64(self.mp3 as i64))));
        let r = Json::Obj(fields);
        proof {
            lemma_fields_view(fields@);
            assert(fields_view(fields@) =~~= wire_fields_of_time((*self)));
        }
        r
    }
}

/// The wire tree a `Metadata` value denotes, under the schema's field names.
pub open spec fn wire_fields_of_metadata(m: MetadataV) -> Seq<(Seq<char>, JsonV)> {
    seq![
        ("artist"@, JsonV::Str(m.artist)),
        ("artistOriginal"@, JsonV::Str(m.artist_original)),
        ("title"@, JsonV::Str(m.title)),
        ("titleOriginal"@, JsonV::Str(m.title_original)),
        ("mapper"@, JsonV::Str(m.mapper)),
        ("difficulty"@, JsonV::Str(m.difficulty)),
    ]
}

pub open spec fn wire_of_metadata(m: MetadataV) -> JsonV {
    JsonV::Obj(wire_fields_of_metadata(m))
}

/// Round trip: mapping the encoded wire tree back recovers the value.
#[verifier::rlimit(100)]
pub proof fn lemma_metadata_roundtrip(m: MetadataV, path: Seq<char>)
    ensures
        spec_metadata_from(wire_of_metadata(m), path) == Ok::<MetadataV, ErrV>(m),
{
    reveal_with_fuel(lookup, 20);
    reveal_strlit("artist");
    reveal_strlit("artistOriginal");
    reveal_strlit("title");
    reveal_strlit("titleOriginal");
    reveal_strlit("mapper");
    reveal_strlit("difficulty");
    lemma_str_neq("artist"@, "artistOriginal"@, 0);
    lemma_str_neq("artist"@, "title"@, 0);
    lemma_str_neq("artist"@, "titleOriginal"@, 0);
    lemma_str_neq("artist"@, "mapper"@, 0);
    lemma_str_neq("artist"@, "difficulty"@, 0);
    lemma_str_neq("artistOriginal"@, "title"@, 0);
    lemma_str_neq("artistOriginal"@, "titleOriginal"@, 0);
    lemma_str_neq("artistOriginal"@, "mapper"@, 0);
    lemma_str_neq("artistOriginal"@, "difficulty"@, 0);
    lemma_str_neq("title"@, "titleOriginal"@, 0);
    lemma_str_neq("title"@, "mapper"@, 0);
    lemma_str_neq("title"@, "difficulty"@, 0);
    lemma_str_neq("titleOriginal"@, "mapper"@, 0);
    lemma_str_neq("titleOriginal"@, "difficulty"@, 0);
    lemma_str_neq("mapper"@, "difficulty"@, 0);

}

impl Metadata {
    /// The wire tree this value denotes.
    pub fn to_json(&self) -> (r: Json)
        ensures
            r@ == wire_of_metadata(self@),
    {
        let mut fields: Vec<(String, Json)> = Vec::new();
        fields.push((String::from_str("artist"), Json::Str(self.artist.clone())));
        fields.push((String::from_str("artistOriginal"), Json::Str(self.artist_original.clone())));
        fields.push((String::from_str("title"), Json::Str(self.title.clone())));
        fields.push((String::from_str("titleOriginal"), Json::Str(self.title_original.clone())));
        fields.push((String::from_str("mapper"), Json::Str(self.mapper.clone())));
        fields.push((String::from_str("difficulty"), Json::Str(self.difficulty.clone())));
        let r = Json::Obj(fields);
        proof {
            lemma_fields_view(fields@);
            assert(fields_view(fields@) =~~= wire_fields_of_metadata(self@));
        }
        r
    }
}

/// The wire tree a `Bpm` value denotes, under the schema's field names.
pub open spec fn wire_fields_of_bpm(m: Bpm) -> Seq<(Seq<char>, JsonV)> {
    seq![
        ("min"@, JsonV::Num(spec_dec_of_i64(m.min))),
        ("max"@, JsonV::Num(spec_dec_of_i64(m.max))),
    ]
}

pub open spec fn wire_of_bpm(m: Bpm) -> JsonV {
    JsonV::Obj(wire_fields_of_bpm(m))
}

/// Round trip: mapping the encoded wire tree back recovers the value.
#[verifier::rlimit(100)]
pub proof fn lemma_bpm_roundtrip(m: Bpm, path: Seq<char>)
    ensures
        spec_bpm_from(wire_of_bpm(m), path) == Ok::<Bpm, ErrV>(m),
{
    reveal_with_fuel(lookup, 20);
    reveal_strlit("min");
    reveal_strlit("max");
    lemma_str_neq("min"@, "max"@, 1);

}

impl Bpm {
    /// The wire tree this value denotes.
    pub fn to_json(&self) -> (r: Json)
        ensures
            r@ == wire_of_bpm((*self)),
    {
        let mut fields: Vec<(String, Json)> = Vec::new();
        fields.push((String::from_str("min"), Json::Num(dec_of_i64(self.min))));
        fields.push((String::from_str("max"), Json::Num(dec_of_i64(self.max))));
        let r = Json::Obj(fields);
        proof {
            lemma_fields_view(fields@);
            assert(fields_view(fields@) =~~= wire_fields_of_bpm((*self)));
        }
        r
    }
}

/// The wire tree a `Stats` value denotes, under the schema's field names.
pub open spec fn wire_fields_of_stats(m: Stats) -> Seq<(Seq<char>, JsonV)> {
    seq![
        ("AR"@, JsonV::Num(m.ar)),
        ("CS"@, JsonV::Num(m.cs)),
        ("OD"@, JsonV::Num(m.od)),
        ("HP"@, JsonV::Num(m.hp)),
        ("SR"@, JsonV::Num(m.sr)),
        ("BPM"@, wire_of_bpm(m.bpm)),
        ("maxCombo"@, JsonV::Num(spec_dec_of_i64(m.max_combo as i64))),
        ("fullSR"@, JsonV::Num(m.full_sr)),
        ("memoryAR"@, JsonV::Num(m.memory_ar)),
        ("memoryCS"@, JsonV::Num(m.memory_cs)),
        ("memoryOD"@, JsonV::Num(m.memory_od)),
        ("memoryHP"@, JsonV::Num(m.memory_hp)),
    ]
}

pub open spec fn wire_of_stats(m: Stats) -> JsonV {
    JsonV::Obj(wire_fields_of_stats(m))
}

/// Round trip: mapping the encoded wire tree back recovers the value.
#[verifier::rlimit(100)]
pub proof fn lemma_stats_roundtrip(m: Stats, path: Seq<char>)
    ensures
        spec_stats_from(wire_of_stats(m), path) == Ok::<Stats, ErrV>(m),
{
    reveal_with_fuel(lookup, 20);
    reveal_strlit("AR");
    reveal_strlit("CS");
    reveal_strlit("OD");
    reveal_strlit("HP");
    reveal_strlit("SR");
    reveal_strlit("BPM");
    reveal_strlit("maxCombo");
    reveal_strlit("fullSR");
    reveal_strlit("memoryAR");
    reveal_strlit("memoryCS");
    reveal_strlit("memoryOD");
    reveal_strlit("memoryHP");
    lemma_str_neq("AR"@, "CS"@, 0);
    lemma_str_neq("AR"@, "OD"@, 0);
    lemma_str_neq("AR"@, "HP"@, 0);
    lemma_str_neq("AR"@, "SR"@, 0);
    lemma_str_neq("AR"@, "BPM"@, 0);
    lemma_str_neq("AR"@, "maxCombo"@, 0);
    lemma_str_neq("AR"@, "fullSR"@, 0);
    lemma_str_neq("AR"@, "memoryAR"@, 0);
    lemma_str_neq("AR"@, "memoryCS"@, 0);
    lemma_str_neq("AR"@, "memoryOD"@, 0);
    lemma_str_neq("AR"@, "memoryHP"@, 0);
    lemma_str_neq("CS"@, "OD"@, 0);
    lemma_str_neq("CS"@, "HP"@, 0);
    lemma_str_neq("CS"@, "SR"@, 0);
    lemma_str_neq("CS"@, "BPM"@, 0);
    lemma_str_neq("CS"@, "maxCombo"@, 0);
    lemma_str_neq("CS"@, "fullSR"@, 0);
    lemma_str_neq("CS"@, "memoryAR"@, 0);
    lemma_str_neq("CS"@, "memoryCS"@, 0);
    lemma_str_neq("CS"@, "memoryOD"@, 0);
    lemma_str_neq("CS"@, "memoryHP"@, 0);
    lemma_str_neq("OD"@, "HP"@, 0);
    lemma_str_neq("OD"@, "SR"@, 0);
    lemma_str_neq("OD"@, "BPM"@, 0);
    lemma_str_neq("OD"@, "maxCombo"@, 0);
    lemma_str_neq("OD"@, "fullSR"@, 0);
    lemma_str_neq("OD"@, "memoryAR"@, 0);
    lemma_str_neq("OD"@, "memoryCS"@, 0);
    lemma_str_neq("OD"@, "memoryOD"@, 0);
    lemma_str_neq("OD"@, "memoryHP"@, 0);
    lemma_str_neq("HP"@, "SR"@, 0);
    lemma_str_neq("HP"@, "BPM"@, 0);
    lemma_str_neq("HP"@, "maxCombo"@, 0);
    lemma_str_neq("HP"@, "fullSR"@, 0);
    lemma_str_neq("HP"@, "memoryAR"@, 0);
    lemma_str_neq("HP"@, "memoryCS"@, 0);
    lemma_str_neq("HP"@, "memoryOD"@, 0);
    lemma_str_neq("HP"@, "memoryHP"@, 0);
    lemma_str_neq("SR"@, "BPM"@, 0);
    lemma_str_neq("SR"@, "maxCombo"@, 0);
    lemma_str_neq("SR"@, "fullSR"@, 0);
    lemma_str_neq("SR"@, "memoryAR"@, 0);
    lemma_str_neq("SR"@, "memoryCS"@, 0);
    lemma_str_neq("SR"@, "memoryOD"@, 0);
    lemma_str_neq("SR"@, "memoryHP"@, 0);
    lemma_str_neq("BPM"@, "maxCombo"@, 0);
    lemma_str_neq("BPM"@, "fullSR"@, 0);
    lemma_str_neq("BPM"@, "memoryAR"@, 0);
    lemma_str_neq("BPM"@, "memoryCS"@, 0);
    lemma_str_neq("BPM"@, "memoryOD"@, 0);
    lemma_str_neq("BPM"@, "memoryHP"@, 0);
    lemma_str_neq("maxCombo"@, "fullSR"@, 0);
    lemma_str_neq("maxCombo"@, "memoryAR"@, 1);
    lemma_str_neq("maxCombo"@, "memoryCS"@, 1);
    lemma_str_neq("maxCombo"@, "memoryOD"@, 1);
    lemma_str_neq("maxCombo"@, "memoryHP"@, 1);
    lemma_str_neq("fullSR"@, "memoryAR"@, 0);
    lemma_str_neq("fullSR"@, "memoryCS"@, 0);
    lemma_str_neq("fullSR"@, "memoryOD"@, 0);
    lemma_str_neq("fullSR"@, "memoryHP"@, 0);
    lemma_str_neq("memoryAR"@, "memoryCS"@, 6);
    lemma_str_neq("memoryAR"@, "memoryOD"@, 6);
    lemma_str_neq("memoryAR"@, "memoryHP"@, 6);
    lemma_str_neq("memoryCS"@, "memoryOD"@, 6);
    lemma_str_neq("memoryCS"@, "memoryHP"@, 6);
    lemma_str_neq("memoryOD"@, "memoryHP"@, 6);
    lemma_bpm_roundtrip(m.bpm, spec_joined(path, "BPM"@));
}

impl Stats {
    /// The wire tree this value denotes.
    pub fn to_json(&self) -> (r: Json)
        ensures
            r@ == wire_of_stats((*self)),
    {
        let mut fields: Vec<(String, Json)> = Vec::new();
        fields.push((String::from_str("AR"), Json::Num(self.ar)));
        fields.push((String::from_str("CS"), Json::Num(self.cs)));
        fields.push((String::from_str("OD"), Json::Num(self.od)));
        fields.push((String::from_str("HP"), Json::Num(self.hp)));
        fields.push((String::from_str("SR"), Json::Num(self.sr)));
        fields.push((String::from_str("BPM"), self.bpm.to_json()));
        fields.push((String::from_str("maxCombo"), Json::Num(dec_of_i64(self.max_combo as i64))));
        fields.push((String::from_str("fullSR"), Json::Num(self.full_sr)));
        fields.push((String::from_str("memoryAR"), Json::Num(self.memory_ar)));
        fields.push((String::from_str("memoryCS"), Json::Num(self.memory_cs)));
        fields.push((String::from_str("memoryOD"), Json::Num(self.memory_od)));
        fields.push((String::from_str("memoryHP"), Json::Num(self.memory_hp)));
        let r = Json::Obj(fields);
        proof {
            lemma_fields_view(fields@);
            assert(fields_view(fields@) =~~= wire_fields_of_stats((*self)));
        }
        r
    }
}

/// The wire tree a `Path` value denotes, under the schema's field names.
pub open spec fn wire_fields_of_path(m: PathV) -> Seq<(Seq<char>, JsonV)> {
    seq![
        ("full"@, JsonV::Str(m.full)),
        ("folder"@, JsonV::Str(m.folder)),
        ("file"@, JsonV::Str(m.file)),
        ("bg"@, JsonV::Str(m.bg)),
        ("audio"@, JsonV::Str(m.audio)),
    ]
}

pub open spec fn wire_of_path(m: PathV) -> JsonV {
    JsonV::Obj(wire_fields_of_path(m))
}

/// Round trip: mapping the encoded wire tree back recovers the value.
#[verifier::rlimit(100)]
pub proof fn lemma_path_roundtrip(m: PathV, path: Seq<char>)
    ensures
        spec_path_from(wire_of_path(m), path) == Ok::<PathV, ErrV>(m),
{
    reveal_with_fuel(lookup, 20);
    reveal_strlit("full");
    reveal_strlit("folder");
    reveal_strlit("file");
    reveal_strlit("bg");
    reveal_strlit("audio");
    lemma_str_neq("full"@, "folder"@, 0);
    lemma_str_neq("full"@, "file"@, 1);
    lemma_str_neq("full"@, "bg"@, 0);
    lemma_str_neq("full"@, "audio"@, 0);
    lemma_str_neq("folder"@, "file"@, 0);
    lemma_str_neq("folder"@, "bg"@, 0);
    lemma_str_neq("folder"@, "audio"@, 0);
    lemma_str_neq("file"@, "bg"@, 0);
    lemma_str_neq("file"@, "audio"@, 0);
    lemma_str_neq("bg"@, "audio"@, 0);

}

impl Path {
    /// The wire tree this value denotes.
    pub fn to_json(&self) -> (r: Json)
        ensures
            r@ == wire_of_path(self@),
    {
        let mut fields: Vec<(String, Json)> = Vec::new();
        fields.push((String::from_str("full"), Json::Str(self.full.clone())));
        fields.push((String::from_str("folder"), Json::Str(self.folder.clone())));
        fields.push((String::from_str("file"), Json::Str(self.file.clone())));
        fields.push((String::from_str("bg"), Json::Str(self.bg.clone())));
        fields.push((String::from_str("audio"), Json::Str(self.audio.clone())));
        let r = Json::Obj(fields);
        proof {
            lemma_fields_view(fields@);
            assert(fields_view(fields@) =~~= wire_fields_of_path(self@));
        }
        r
    }
}

/// The wire tree a `Mods` value denotes, under the schema's field names.
pub open spec fn wire_fields_of_mods(m: ModsV) -> Seq<(Seq<char>, JsonV)> {
    seq![
        ("num"@, JsonV::Num(spec_dec_of_i64(m.num as i64))),
        ("str"@, JsonV::Str(m.str)),
    ]
}

pub open spec fn wire_of_mods(m: ModsV) -> JsonV {
    JsonV::Obj(wire_fields_of_mods(m))
}

/// Round trip: mapping the encoded wire tree back recovers the value.
#[verifier::rlimit(100)]
pub proof fn lemma_mods_roundtrip(m: ModsV, path: Seq<char>)
    ensures
        spec_mods_from(wire_of_mods(m), path) == Ok::<ModsV, ErrV>(m),
{
    reveal_with_fuel(lookup, 20);
    reveal_strlit("num");
    reveal_strlit("str");
    lemma_str_neq("num"@, "str"@, 0);

}

impl Mods {
    /// The wire tree this value denotes.
    pub fn to_json(&self) -> (r: Json)
        ensures
            r@ == wire_of_mods(self@),
    {
        let mut fields: Vec<(String, Json)> = Vec::new();
        fields.push((String::from_str("num"), Json::Num(dec_of_i64(self.num as i64))));
        fields.push((String::from_str("str"), Json::Str(self.str.clone())));
        let r = Json::Obj(fields);
        proof {
            lemma_fields_view(fields@);
            assert(fields_view(fields@) =~~= wire_fields_of_mods(self@));
        }
        r
    }
}

/// The wire tree a `Pp` value denotes, under the schema's field names.
pub open spec fn wire_fields_of_pp(m: PpV) -> Seq<(Seq<char>, JsonV)> {
    seq![
        ("100"@, JsonV::Num(spec_dec_of_i64(m.n100 as i64))),
        ("99"@, JsonV::Num(spec_dec_of_i64(m.n99 as i64))),
        ("98"@, JsonV::Num(spec_dec_of_i64(m.n98 as i64))),
        ("97"@, JsonV::Num(spec_dec_of_i64(m.n97 as i64))),
        ("96"@, JsonV::Num(spec_dec_of_i64(m.n96 as i64))),
        ("95"@, JsonV::Num(spec_dec_of_i64(m.n95 as i64))),
        ("strains"@, (match m.strains { Some(ds) => JsonV::Arr(ds.map_values(|d: Decimal| JsonV::Num(d))), None => JsonV::Null })),
    ]
}

pub open spec fn wire_of_pp(m: PpV) -> JsonV {
    JsonV::Obj(wire_fields_of_pp(m))
}

/// Round trip: mapping the encoded wire tree back recovers the value.
#[verifier::rlimit(100)]
pub proof fn lemma_pp_roundtrip(m: PpV, path: Seq<char>)
    ensures
        spec_pp_from(wire_of_pp(m), path) == Ok::<PpV, ErrV>(m),
{
    reveal_with_fuel(lookup, 20);
    reveal_strlit("100");
    reveal_strlit("99");
    reveal_strlit("98");
    reveal_strlit("97");
    reveal_strlit("96");
    reveal_strlit("95");
    reveal_strlit("strains");
    lemma_str_neq("100"@, "99"@, 0);
    lemma_str_neq("100"@, "98"@, 0);
    lemma_str_neq("100"@, "97"@, 0);
    lemma_str_neq("100"@, "96"@, 0);
    lemma_str_neq("100"@, "95"@, 0);
    lemma_str_neq("100"@, "strains"@, 0);
    lemma_str_neq("99"@, "98"@, 1);
    lemma_str_neq("99"@, "97"@, 1);
    lemma_str_neq("99"@, "96"@, 1);
    lemma_str_neq("99"@, "95"@, 1);
    lemma_str_neq("99"@, "strains"@, 0);
    lemma_str_neq("98"@, "97"@, 1);
    lemma_str_neq("98"@, "96"@, 1);
    lemma_str_neq("98"@, "95"@, 1);
    lemma_str_neq("98"@, "strains"@, 0);
    lemma_str_neq("97"@, "96"@, 1);
    lemma_str_neq("97"@, "95"@, 1);
    lemma_str_neq("97"@, "strains"@, 0);
    lemma_str_neq("96"@, "95"@, 1);
    lemma_str_neq("96"@, "strains"@, 0);
    lemma_str_neq("95"@, "strains"@, 0);
    match m.strains {
        Some(ds) => lemma_rt_num_arr(ds, spec_joined(path, "strains"@)),
        None => {},
    }
}

impl Pp {
    /// The wire tree this value denotes.
    pub fn to_json(&self) -> (r: Json)
        ensures
            r@ == wire_of_pp(self@),
    {
        let mut fields: Vec<(String, Json)> = Vec::new();
        fields.push((String::from_str("100"), Json::Num(dec_of_i64(self.n100 as i64))));
        fields.push((String::from_str("99"), Json::Num(dec_of_i64(self.n99 as i64))));
        fields.push((String::from_str("98"), Json::Num(dec_of_i64(self.n98 as i64))));
        fields.push((String::from_str("97"), Json::Num(dec_of_i64(self.n97 as i64))));
        fields.push((String::from_str("96"), Json::Num(dec_of_i64(self.n96 as i64))));
        fields.push((String::from_str("95"), Json::Num(dec_of_i64(self.n95 as i64))));
        fields.push((String::from_str("strains"), (match &self.strains { Some(ds) => Json::Arr(nums_to_json(ds)), None => Json::Null })));
        let r = Json::Obj(fields);
        proof {
            lemma_fields_view(fields@);
            assert(fields_view(fields@) =~~= wire_fields_of_pp(self@));
        }
        r
    }
}

/// The wire tree a `Bm` value denotes, under the schema's field names.
pub open spec fn wire_fields_of_bm(m: BmV) -> Seq<(Seq<char>, JsonV)> {
    seq![
        ("time"@, wire_of_time(m.time)),
        ("id"@, JsonV::Num(spec_dec_of_i64(m.id as i64))),
        ("set"@, JsonV::Num(spec_dec_of_i64(m.set as i64))),
        ("md5"@, JsonV::Str(m.md5)),
        ("rankedStatus"@, JsonV::Num(spec_dec_of_i64(m.ranked_status as i64))),
        ("metadata"@, wire_of_metadata(m.metadata)),
        ("stats"@, wire_of_stats(m.stats)),
        ("path"@, wire_of_path(m.path)),
    ]
}

pub open spec fn wire_of_bm(m: BmV) -> JsonV {
    JsonV::Obj(wire_fields_of_bm(m))
}

/// Round trip: mapping the encoded wire tree back recovers the value.
#[verifier::rlimit(100)]
pub proof fn lemma_bm_roundtrip(m: BmV, path: Seq<char>)
    ensures
        spec_bm_from(wire_of_bm(m), path) == Ok::<BmV, ErrV>(m),
{
    reveal_with_fuel(lookup, 20);
    reveal_strlit("time");
    reveal_strlit("id");
    reveal_strlit("set");
    reveal_strlit("md5");
    reveal_strlit("rankedStatus");
    reveal_strlit("metadata");
    reveal_strlit("stats");
    reveal_strlit("path");
    lemma_str_neq("time"@, "id"@, 0);
    lemma_str_neq("time"@, "set"@, 0);
    lemma_str_neq("time"@, "md5"@, 0);
    lemma_str_neq("time"@, "rankedStatus"@, 0);
    lemma_str_neq("time"@, "metadata"@, 0);
    lemma_str_neq("time"@, "stats"@, 0);
    lemma_str_neq("time"@, "path"@, 0);
    lemma_str_neq("id"@, "set"@, 0);
    lemma_str_neq("id"@, "md5"@, 0);
    lemma_str_neq("id"@, "rankedStatus"@, 0);
    lemma_str_neq("id"@, "metadata"@, 0);
    lemma_str_neq("id"@, "stats"@, 0);
    lemma_str_neq("id"@, "path"@, 0);
    lemma_str_neq("set"@, "md5"@, 0);
    lemma_str_neq("set"@, "rankedStatus"@, 0);
    lemma_str_neq("set"@, "metadata"@, 0);
    lemma_str_neq("set"@, "stats"@, 0);
    lemma_str_neq("set"@, "path"@, 0);
    lemma_str_neq("md5"@, "rankedStatus"@, 0);
    lemma_str_neq("md5"@, "metadata"@, 0);
    lemma_str_neq("md5"@, "stats"@, 0);
    lemma_str_neq("md5"@, "path"@, 0);
    lemma_str_neq("rankedStatus"@, "metadata"@, 0);
    lemma_str_neq("rankedStatus"@, "stats"@, 0);
    lemma_str_neq("rankedStatus"@, "path"@, 0);
    lemma_str_neq("metadata"@, "stats"@, 0);
    lemma_str_neq("metadata"@, "path"@, 0);
    lemma_str_neq("stats"@, "path"@, 0);
    lemma_time_roundtrip(m.time, spec_joined(path, "time"@));
    lemma_metadata_roundtrip(m.metadata, spec_joined(path, "metadata"@));
    lemma_stats_roundtrip(m.stats, spec_joined(path, "stats"@));
    lemma_path_roundtrip(m.path, spec_joined(path, "path"@));
}

impl Bm {
    /// The wire tree this value denotes.
    pub fn to_json(&self) -> (r: Json)
        ensures
            r@ == wire_of_bm(self@),
    {
        let mut fields: Vec<(String, Json)> = Vec::new();
        fields.push((String::from_str("time"), self.time.to_json()));
        fields.push((String::from_str("id"), Json::Num(dec_of_i64(self.id as i64))));
        fields.push((String::from_str("set"), Json::Num(dec_of_i64(self.set as i64))));
        fields.push((String::from_str("md5"), Json::Str(self.md5.clone())));
        fields.push((String::from_str("rankedStatus"), Json::Num(dec_of_i64(self.ranked_status as i64))));
        fields.push((String::from_str("metadata"), self.metadata.to_json()));
        fields.push((String::from_str("stats"), self.stats.to_json()));
        fields.push((String::from_str("path"), self.path.to_json()));
        let r = Json::Obj(fields);
        proof {
            lemma_fields_view(fields@);
            assert(fields_view(fields@) =~~= wire_fields_of_bm(self@));
        }
        r
    }
}

/// The wire tree a `Menu` value denotes, under the schema's field names.
pub open spec fn wire_fields_of_menu(m: MenuV) -> Seq<(Seq<char>, JsonV)> {
    seq![
        ("mainMenu"@, wire_of_main_menu(m.main_menu)),
        ("state"@, JsonV::Num(spec_dec_of_i64(m.state as i64))),
        ("gameMode"@, JsonV::Num(spec_dec_of_i64(m.game_mode as i64))),
        ("isChatEnabled"@, JsonV::Num(spec_dec_of_bool(m.is_chat_enabled))),
        ("bm"@, wire_of_bm(m.bm)),
        ("mods"@, wire_of_mods(m.mods)),
        ("pp"@, wire_of_pp(m.pp)),
    ]
}

pub open spec fn wire_of_menu(m: MenuV) -> JsonV {
    JsonV::Obj(wire_fields_of_menu(m))
}

/// Round trip: mapping the encoded wire tree back recovers the value.
#[verifier::rlimit(100)]
pub proof fn lemma_menu_roundtrip(m: MenuV, path: Seq<char>)
    ensures
        spec_menu_from(wire_of_menu(m), path) == Ok::<MenuV, ErrV>(m),
{
    reveal_with_fuel(lookup, 20);
    reveal_strlit("mainMenu");
    reveal_strlit("state");
    reveal_strlit("gameMode");
    reveal_strlit("isChatEnabled");
    reveal_strlit("bm");
    reveal_strlit("mods");
    reveal_strlit("pp");
    lemma_str_neq("mainMenu"@, "state"@, 0);
    lemma_str_neq("mainMenu"@, "gameMode"@, 0);
    lemma_str_neq("mainMenu"@, "isChatEnabled"@, 0);
    lemma_str_neq("mainMenu"@, "bm"@, 0);
    lemma_str_neq("mainMenu"@, "mods"@, 0);
    lemma_str_neq("mainMenu"@, "pp"@, 0);
    lemma_str_neq("state"@, "gameMode"@, 0);
    lemma_str_neq("state"@, "isChatEnabled"@, 0);
    lemma_str_neq("state"@, "bm"@, 0);
    lemma_str_neq("state"@, "mods"@, 0);
    lemma_str_neq("state"@, "pp"@, 0);
    lemma_str_neq("gameMode"@, "isChatEnabled"@, 0);
    lemma_str_neq("gameMode"@, "bm"@, 0);
    lemma_str_neq("gameMode"@, "mods"@, 0);
    lemma_str_neq("gameMode"@, "pp"@, 0);
    lemma_str_neq("isChatEnabled"@, "bm"@, 0);
    lemma_str_neq("isChatEnabled"@, "mods"@, 0);
    lemma_str_neq("isChatEnabled"@, "pp"@, 0);
    lemma_str_neq("bm"@, "mods"@, 0);
    lemma_str_neq("bm"@, "pp"@, 0);
    lemma_str_neq("mods"@, "pp"@, 0);
    lemma_main_menu_roundtrip(m.main_menu, spec_joined(path, "mainMenu"@));
    lemma_bm_roundtrip(m.bm, spec_joined(path, "bm"@));
    lemma_mods_roundtrip(m.mods, spec_joined(path, "mods"@));
    lemma_pp_roundtrip(m.pp, spec_joined(path, "pp"@));
}

impl Menu {
    /// The wire tree this value denotes.
    pub fn to_json(&self) -> (r: Json)
        ensures
            r@ == wire_of_menu(self@),
    {
        let mut fields: Vec<(String, Json)> = Vec::new();
        fields.push((String::from_str("mainMenu"), self.main_menu.to_json()));
        fields.push((String::from_str("state"), Json::Num(dec_of_i64(self.state as i64))));
        fields.push((String::from_str("gameMode"), Json::Num(dec_of_i64(self.game_mode as i64))));
        fields.push((String::from_str("isChatEnabled"), Json::Num(dec_of_bool(self.is_chat_enabled))));
        fields.push((String::from_str("bm"), self.bm.to_json()));
        fields.push((String::from_str("mods"), self.mods.to_json()));
        fields.push((String::from_str("pp"), self.pp.to_json()));
        let r = Json::Obj(fields);
        proof {
            lemma_fields_view(fields@);
            assert(fields_view(fields@) =~~= wire_fields_of_menu(self@));
        }
        r
    }
}

/// The wire tree a `Combo` value denotes, under the schema's field names.
pub open spec fn wire_fields_of_combo(m: Combo) -> Seq<(Seq<char>, JsonV)> {
    seq![
        ("current"@, JsonV::Num(spec_dec_of_i64(m.current as i64))),
        ("max"@, JsonV::Num(spec_dec_of_i64(m.max as i64))),
    ]
}

pub open spec fn wire_of_combo(m: Combo) -> JsonV {
    JsonV::Obj(wire_fields_of_combo(m))
}

/// Round trip: mapping the encoded wire tree back recovers the value.
#[verifier::rlimit(100)]
pub proof fn lemma_combo_roundtrip(m: Combo, path: Seq<char>)
    ensures
        spec_combo_from(wire_of_combo(m), path) == Ok::<Combo, ErrV>(m),
{
    reveal_with_fuel(lookup, 20);
    reveal_strlit("current");
    reveal_strlit("max");
    lemma_str_neq("current"@, "max"@, 0);

}

impl Combo {
    /// The wire tree this value denotes.
    pub fn to_json(&self) -> (r: Json)
        ensures
            r@ == wire_of_combo((*self)),
    {
        let mut fields: Vec<(String, Json)> = Vec::new();
        fields.push((String::from_str("current"), Json::Num(dec_of_i64(self.current as i64))));
        fields.push((String::from_str("max"), Json::Num(dec_of_i64(self.max as i64))));
        let r = Json::Obj(fields);
        proof {
            lemma_fields_view(fields@);
            assert(fields_view(fields@) =~~= wire_fields_of_combo((*self)));
        }
        r
    }
}

/// The wire tree a `Hp` value denotes, under the schema's field names.
pub open spec fn wire_fields_of_hp(m: Hp) -> Seq<(Seq<char>, JsonV)> {
    seq![
        ("normal"@, JsonV::Num(m.normal)),
        ("smooth"@, JsonV::Num(m.smooth)),
    ]
}

pub open spec fn wire_of_hp(m: Hp) -> JsonV {
    JsonV::Obj(wire_fields_of_hp(m))
}

/// Round trip: mapping the encoded wire tree back recovers the value.
#[verifier::rlimit(100)]
pub proof fn lemma_hp_roundtrip(m: Hp, path: Seq<char>)
    ensures
        spec_hp_from(wire_of_hp(m), path) == Ok::<Hp, ErrV>(m),
{
    reveal_with_fuel(lookup, 20);
    reveal_strlit("normal");
    reveal_strlit("smooth");
    lemma_str_neq("normal"@, "smooth"@, 0);

}

impl Hp {
    /// The wire tree this value denotes.
    pub fn to_json(&self) -> (r: Json)
        ensures
            r@ == wire_of_hp((*self)),
    {
        let mut fields: Vec<(String, Json)> = Vec::new();
        fields.push((String::from_str("normal"), Json::Num(self.normal)));
        fields.push((String::from_str("smooth"), Json::Num(self.smooth)));
        let r = Json::Obj(fields);
        proof {
            lemma_fields_view(fields@);
            assert(fields_view(fields@) =~~= wire_fields_of_hp((*self)));
        }
        r
    }
}

/// The wire tree a `Grade` value denotes, under the schema's field names.
pub open spec fn wire_fields_of_grade(m: GradeV) -> Seq<(Seq<char>, JsonV)> {
    seq![
        ("current"@, JsonV::Str(m.current)),
        ("maxThisPlay"@, JsonV::Str(m.max_this_play)),
    ]
}

pub open spec fn wire_of_grade(m: GradeV) -> JsonV {
    JsonV::Obj(wire_fields_of_grade(m))
}

/// Round trip: mapping the encoded wire tree back recovers the value.
#[verifier::rlimit(100)]
pub proof fn lemma_grade_roundtrip(m: GradeV, path: Seq<char>)
    ensures
        spec_grade_from(wire_of_grade(m), path) == Ok::<GradeV, ErrV>(m),
{
    reveal_with_fuel(lookup, 20);
    reveal_strlit("current");
    reveal_strlit("maxThisPlay");
    lemma_str_neq("current"@, "maxThisPlay"@, 0);

}

impl Grade {
    /// The wire tree this value denotes.
    pub fn to_json(&self) -> (r: Json)
        ensures
            r@ == wire_of_grade(self@),
    {
        let mut fields: Vec<(String, Json)> = Vec::new();
        fields.push((String::from_str("current"), Json::Str(self.current.clone())));
        fields.push((String::from_str("maxThisPlay"), Json::Str(self.max_this_play.clone())));
        let r = Json::Obj(fields);
        proof {
            lemma_fields_view(fields@);
            assert(fields_view(fields@) =~~= wire_fields_of_grade(self@));
        }
        r
    }
}

/// The wire tree a `Hits` value denotes, under the schema's field names.
pub open spec fn wire_fields_of_hits(m: HitsV) -> Seq<(Seq<char>, JsonV)> {
    seq![
        ("300"@, JsonV::Num(spec_dec_of_i64(m.n300 as i64))),
        ("geki"@, JsonV::Num(spec_dec_of_i64(m.geki as i64))),
        ("100"@, JsonV::Num(spec_dec_of_i64(m.n100 as i64))),
        ("katu"@, JsonV::Num(spec_dec_of_i64(m.katu as i64))),
        ("50"@, JsonV::Num(spec_dec_of_i64(m.n50 as i64))),
        ("0"@, JsonV::Num(spec_dec_of_i64(m.n0 as i64))),
        ("sliderBreaks"@, JsonV::Num(spec_dec_of_i64(m.slider_breaks as i64))),
        ("grade"@, wire_of_grade(m.grade)),
        ("unstableRate"@, JsonV::Num(m.unstable_rate)),
        ("hitErrorArray"@, (match m.hit_error_array { Some(vs) => JsonV::Arr(vs.map_values(|x: i32| JsonV::Num(spec_dec_of_i64(x as i64)))), None => JsonV::Null })),
    ]
}

pub open spec fn wire_of_hits(m: HitsV) -> JsonV {
    JsonV::Obj(wire_fields_of_hits(m))
}

/// Round trip: mapping the encoded wire tree back recovers the value.
#[verifier::rlimit(100)]
pub proof fn lemma_hits_roundtrip(m: HitsV, path: Seq<char>)
    ensures
        spec_hits_from(wire_of_hits(m), path) == Ok::<HitsV, ErrV>(m),
{
    reveal_with_fuel(lookup, 20);
    reveal_strlit("300");
    reveal_strlit("geki");
    reveal_strlit("100");
    reveal_strlit("katu");
    reveal_strlit("50");
    reveal_strlit("0");
    reveal_strlit("sliderBreaks");
    reveal_strlit("grade");
    reveal_strlit("unstableRate");
    reveal_strlit("hitErrorArray");
    lemma_str_neq("300"@, "geki"@, 0);
    lemma_str_neq("300"@, "100"@, 0);
    lemma_str_neq("300"@, "katu"@, 0);
    lemma_str_neq("300"@, "50"@, 0);
    lemma_str_neq("300"@, "0"@, 0);
    lemma_str_neq("300"@, "sliderBreaks"@, 0);
    lemma_str_neq("300"@, "grade"@, 0);
    lemma_str_neq("300"@, "unstableRate"@, 0);
    lemma_str_neq("300"@, "hitErrorArray"@, 0);
    lemma_str_neq("geki"@, "100"@, 0);
    lemma_str_neq("geki"@, "katu"@, 0);
    lemma_str_neq("geki"@, "50"@, 0);
    lemma_str_neq("geki"@, "0"@, 0);
    lemma_str_neq("geki"@, "sliderBreaks"@, 0);
    lemma_str_neq("geki"@, "grade"@, 0);
    lemma_str_neq("geki"@, "unstableRate"@, 0);
    lemma_str_neq("geki"@, "hitErrorArray"@, 0);
    lemma_str_neq("100"@, "katu"@, 0);
    lemma_str_neq("100"@, "50"@, 0);
    lemma_str_neq("100"@, "0"@, 0);
    lemma_str_neq("100"@, "sliderBreaks"@, 0);
    lemma_str_neq("100"@, "grade"@, 0);
    lemma_str_neq("100"@, "unstableRate"@, 0);
    lemma_str_neq("100"@, "hitErrorArray"@, 0);
    lemma_str_neq("katu"@, "50"@, 0);
    lemma_str_neq("katu"@, "0"@, 0);
    lemma_str_neq("katu"@, "sliderBreaks"@, 0);
    lemma_str_neq("katu"@, "grade"@, 0);
    lemma_str_neq("katu"@, "unstableRate"@, 0);
    lemma_str_neq("katu"@, "hitErrorArray"@, 0);
    lemma_str_neq("50"@, "0"@, 0);
    lemma_str_neq("50"@, "sliderBreaks"@, 0);
    lemma_str_neq("50"@, "grade"@, 0);
    lemma_str_neq("50"@, "unstableRate"@, 0);
    lemma_str_neq("50"@, "hitErrorArray"@, 0);
    lemma_str_neq("0"@, "sliderBreaks"@, 0);
    lemma_str_neq("0"@, "grade"@, 0);
    lemma_str_neq("0"@, "unstableRate"@, 0);
    lemma_str_neq("0"@, "hitErrorArray"@, 0);
    lemma_str_neq("sliderBreaks"@, "grade"@, 0);
    lemma_str_neq("sliderBreaks"@, "unstableRate"@, 0);
    lemma_str_neq("sliderBreaks"@, "hitErrorArray"@, 0);
    lemma_str_neq("grade"@, "unstableRate"@, 0);
    lemma_str_neq("grade"@, "hitErrorArray"@, 0);
    lemma_str_neq("unstableRate"@, "hitErrorArray"@, 0);
    lemma_grade_roundtrip(m.grade, spec_joined(path, "grade"@));
    match m.hit_error_array {
        Some(vs) => lemma_rt_i32_arr(vs, spec_joined(path, "hitErrorArray"@)),
        None => {},
    }
}

impl Hits {
    /// The wire tree this value denotes.
    pub fn to_json(&self) -> (r: Json)
        ensures
            r@ == wire_of_hits(self@),
    {
        let mut fields: Vec<(String, Json)> = Vec::new();
        fields.push((String::from_str("300"), Json::Num(dec_of_i64(self.n300 as i64))));
        fields.push((String::from_str("geki"), Json::Num(dec_of_i64(self.geki as i64))));
        fields.push((String::from_str("100"), Json::Num(dec_of_i64(self.n100 as i64))));
        fields.push((String::from_str("katu"), Json::Num(dec_of_i64(self.katu as i64))));
        fields.push((String::from_str("50"), Json::Num(dec_of_i64(self.n50 as i64))));
        fields.push((String::from_str("0"), Json::Num(dec_of_i64(self.n0 as i64))));
        fields.push((String::from_str("sliderBreaks"), Json::Num(dec_of_i64(self.slider_breaks as i64))));
        fields.push((String::from_str("grade"), self.grade.to_json()));
        fields.push((String::from_str("unstableRate"), Json::Num(self.unstable_rate)));
        fields.push((String::from_str("hitErrorArray"), (match &self.hit_error_array { Some(vs) => Json::Arr(i32s_to_json(vs)), None => Json::Null })));
        let r = Json::Obj(fields);
        proof {
            lemma_fields_view(fields@);
            assert(fields_view(fields@) =~~= wire_fields_of_hits(self@));
        }
        r
    }
}

/// The wire tree a `Pp2` value denotes, under the schema's field names.
pub open spec fn wire_fields_of_pp2(m: Pp2) -> Seq<(Seq<char>, JsonV)> {
    seq![
        ("current"@, JsonV::Num(spec_dec_of_i64(m.current as i64))),
        ("fc"@, JsonV::Num(spec_dec_of_i64(m.fc as i64))),
        ("maxThisPlay"@, JsonV::Num(spec_dec_of_i64(m.max_this_play as i64))),
    ]
}

pub open spec fn wire_of_pp2(m: Pp2) -> JsonV {
    JsonV::Obj(wire_fields_of_pp2(m))
}

/// Round trip: mapping the encoded wire tree back recovers the value.
#[verifier::rlimit(100)]
pub proof fn lemma_pp2_roundtrip(m: Pp2, path: Seq<char>)
    ensures
        spec_pp2_from(wire_of_pp2(m), path) == Ok::<Pp2, ErrV>(m),
{
    reveal_with_fuel(lookup, 20);
    reveal_strlit("current");
    reveal_strlit("fc");
    reveal_strlit("maxThisPlay");
    lemma_str_neq("current"@, "fc"@, 0);
    lemma_str_neq("current"@, "maxThisPlay"@, 0);
    lemma_str_neq("fc"@, "maxThisPlay"@, 0);

}

impl Pp2 {
    /// The wire tree this value denotes.
    pub fn to_json(&self) -> (r: Json)
        ensures
            r@ == wire_of_pp2((*self)),
    {
        let mut fields: Vec<(String, Json)> = Vec::new();
        fields.push((String::from_str("current"), Json::Num(dec_of_i64(self.current as i64))));
        fields.push((String::from_str("fc"), Json::Num(dec_of_i64(self.fc as i64))));
        fields.push((String::from_str("maxThisPlay"), Json::Num(dec_of_i64(self.max_this_play as i64))));
        let r = Json::Obj(fields);
        proof {
            lemma_fields_view(fields@);
            assert(fields_view(fields@) =~~= wire_fields_of_pp2((*self)));
        }
        r
    }
}

/// The wire tree a `KeyOverlayButton` value denotes, under the schema's field names.
pub open spec fn wire_fields_of_key_overlay_button(m: KeyOverlayButton) -> Seq<(Seq<char>, JsonV)> {
    seq![
        ("isPressed"@, JsonV::Bool(m.is_pressed)),
        ("count"@, JsonV::Num(spec_dec_of_i64(m.count as i64))),
    ]
}

pub open spec fn wire_of_key_overlay_button(m: KeyOverlayButton) -> JsonV {
    JsonV::Obj(wire_fields_of_key_overlay_button(m))
}

/// Round trip: mapping the encoded wire tree back recovers the value.
#[verifier::rlimit(100)]
pub proof fn lemma_key_overlay_button_roundtrip(m: KeyOverlayButton, path: Seq<char>)
    ensures
        spec_key_overlay_button_from(wire_of_key_overlay_button(m), path) == Ok::<KeyOverlayButton, ErrV>(m),
{
    reveal_with_fuel(lookup, 20);
    reveal_strlit("isPressed");
    reveal_strlit("count");
    lemma_str_neq("isPressed"@, "count"@, 0);

}

impl KeyOverlayButton {
    /// The wire tree this value denotes.
    pub fn to_json(&self) -> (r: Json)
        ensures
            r@ == wire_of_key_overlay_button((*self)),
    {
        let mut fields: Vec<(String, Json)> = Vec::new();
        fields.push((String::from_str("isPressed"), Json::Bool(self.is_pressed)));
        fields.push((String::from_str("count"), Json::Num(dec_of_i64(self.count as i64))));
        let r = Json::Obj(fields);
        proof {
            lemma_fields_view(fields@);
            assert(fields_view(fields@) =~~= wire_fields_of_key_overlay_button((*self)));
        }
        r
    }
}

/// The wire tree a `KeyOverlay` value denotes, under the schema's field names.
pub open spec fn wire_fields_of_key_overlay(m: KeyOverlay) -> Seq<(Seq<char>, JsonV)> {
    seq![
        ("k1"@, wire_of_key_overlay_button(m.k1)),
        ("k2"@, wire_of_key_overlay_button(m.k2)),
        ("m1"@, wire_of_key_overlay_button(m.m1)),
        ("m2"@, wire_of_key_overlay_button(m.m2)),
    ]
}

pub open spec fn wire_of_key_overlay(m: KeyOverlay) -> JsonV {
    JsonV::Obj(wire_fields_of_key_overlay(m))
}

/// Round trip: mapping the encoded wire tree back recovers the value.
#[verifier::rlimit(100)]
pub proof fn lemma_key_overlay_roundtrip(m: KeyOverlay, path: Seq<char>)
    ensures
        spec_key_overlay_from(wire_of_key_overlay(m), path) == Ok::<KeyOverlay, ErrV>(m),
{
    reveal_with_fuel(lookup, 20);
    reveal_strlit("k1");
    reveal_strlit("k2");
    reveal_strlit("m1");
    reveal_strlit("m2");
    lemma_str_neq("k1"@, "k2"@, 1);
    lemma_str_neq("k1"@, "m1"@, 0);
    lemma_str_neq("k1"@, "m2"@, 0);
    lemma_str_neq("k2"@, "m1"@, 0);
    lemma_str_neq("k2"@, "m2"@, 0);
    lemma_str_neq("m1"@, "m2"@, 1);
    lemma_key_overlay_button_roundtrip(m.k1, spec_joined(path, "k1"@));
    lemma_key_overlay_button_roundtrip(m.k2, spec_joined(path, "k2"@));
    lemma_key_overlay_button_roundtrip(m.m1, spec_joined(path, "m1"@));
    lemma_key_overlay_button_roundtrip(m.m2, spec_joined(path, "m2"@));
}

impl KeyOverlay {
    /// The wire tree this value denotes.
    pub fn to_json(&self) -> (r: Json)
        ensures
            r@ == wire_of_key_overlay((*self)),
    {
        let mut fields: Vec<(String, Json)> = Vec::new();
        fields.push((String::from_str("k1"), self.k1.to_json()));
        fields.push((String::from_str("k2"), self.k2.to_json()));
        fields.push((String::from_str("m1"), self.m1.to_json()));
        fields.push((String::from_str("m2"), self.m2.to_json()));
        let r = Json::Obj(fields);
        proof {
            lemma_fields_view(fields@);
            assert(fields_view(fields@) =~~= wire_fields_of_key_overlay((*self)));
        }
        r
    }
}

/// The wire tree a `Ourplayer` value denotes, under the schema's field names.
pub open spec fn wire_fields_of_ourplayer(m: OurplayerV) -> Seq<(Seq<char>, JsonV)> {
    seq![
        ("name"@, JsonV::Str(m.name)),
        ("score"@, JsonV::Num(spec_dec_of_i64(m.score as i64))),
        ("combo"@, JsonV::Num(spec_dec_of_i64(m.combo as i64))),
        ("maxCombo"@, JsonV::Num(spec_dec_of_i64(m.max_combo as i64))),
        ("mods"@, JsonV::Str(m.mods)),
        ("h300"@, JsonV::Num(spec_dec_of_i64(m.h300 as i64))),
        ("h100"@, JsonV::Num(spec_dec_of_i64(m.h100 as i64))),
        ("h50"@, JsonV::Num(spec_dec_of_i64(m.h50 as i64))),
        ("h0"@, JsonV::Num(spec_dec_of_i64(m.h0 as i64))),
        ("team"@, JsonV::Num(spec_dec_of_i64(m.team as i64))),
        ("position"@, JsonV::Num(spec_dec_of_i64(m.position as i64))),
        ("isPassing"@, JsonV::Num(spec_dec_of_bool(m.is_passing))),
    ]
}

pub open spec fn wire_of_ourplayer(m: OurplayerV) -> JsonV {
    JsonV::Obj(wire_fields_of_ourplayer(m))
}

/// Round trip: mapping the encoded wire tree back recovers the value.
#[verifier::rlimit(100)]
pub proof fn lemma_ourplayer_roundtrip(m: OurplayerV, path: Seq<char>)
    ensures
        spec_ourplayer_from(wire_of_ourplayer(m), path) == Ok::<OurplayerV, ErrV>(m),
{
    reveal_with_fuel(lookup, 20);
    reveal_strlit("name");
    reveal_strlit("score");
    reveal_strlit("combo");
    reveal_strlit("maxCombo");
    reveal_strlit("mods");
    reveal_strlit("h300");
    reveal_strlit("h100");
    reveal_strlit("h50");
    reveal_strlit("h0");
    reveal_strlit("team");
    reveal_strlit("position");
    reveal_strlit("isPassing");
    lemma_str_neq("name"@, "score"@, 0);
    lemma_str_neq("name"@, "combo"@, 0);
    lemma_str_neq("name"@, "maxCombo"@, 0);
    lemma_str_neq("name"@, "mods"@, 0);
    lemma_str_neq("name"@, "h300"@, 0);
    lemma_str_neq("name"@, "h100"@, 0);
    lemma_str_neq("name"@, "h50"@, 0);
    lemma_str_neq("name"@, "h0"@, 0);
    lemma_str_neq("name"@, "team"@, 0);
    lemma_str_neq("name"@, "position"@, 0);
    lemma_str_neq("name"@, "isPassing"@, 0);
    lemma_str_neq("score"@, "combo"@, 0);
    lemma_str_neq("score"@, "maxCombo"@, 0);
    lemma_str_neq("score"@, "mods"@, 0);
    lemma_str_neq("score"@, "h300"@, 0);
    lemma_str_neq("score"@, "h100"@, 0);
    lemma_str_neq("score"@, "h50"@, 0);
    lemma_str_neq("score"@, "h0"@, 0);
    lemma_str_neq("score"@, "team"@, 0);
    lemma_str_neq("score"@, "position"@, 0);
    lemma_str_neq("score"@, "isPassing"@, 0);
    lemma_str_neq("combo"@, "maxCombo"@, 0);
    lemma_str_neq("combo"@, "mods"@, 0);
    lemma_str_neq("combo"@, "h300"@, 0);
    lemma_str_neq("combo"@, "h100"@, 0);
    lemma_str_neq("combo"@, "h50"@, 0);
    lemma_str_neq("combo"@, "h0"@, 0);
    lemma_str_neq("combo"@, "team"@, 0);
    lemma_str_neq("combo"@, "position"@, 0);
    lemma_str_neq("combo"@, "isPassing"@, 0);
    lemma_str_neq("maxCombo"@, "mods"@, 0);
    lemma_str_neq("maxCombo"@, "h300"@, 0);
    lemma_str_neq("maxCombo"@, "h100"@, 0);
    lemma_str_neq("maxCombo"@, "h50"@, 0);
    lemma_str_neq("maxCombo"@, "h0"@, 0);
    lemma_str_neq("maxCombo"@, "team"@, 0);
    lemma_str_neq("maxCombo"@, "position"@, 0);
    lemma_str_neq("maxCombo"@, "isPassing"@, 0);
    lemma_str_neq("mods"@, "h300"@, 0);
    lemma_str_neq("mods"@, "h100"@, 0);
    lemma_str_neq("mods"@, "h50"@, 0);
    lemma_str_neq("mods"@, "h0"@, 0);
    lemma_str_neq("mods"@, "team"@, 0);
    lemma_str_neq("mods"@, "position"@, 0);
    lemma_str_neq("mods"@, "isPassing"@, 0);
    lemma_str_neq("h300"@, "h100"@, 1);
    lemma_str_neq("h300"@, "h50"@, 0);
    lemma_str_neq("h300"@, "h0"@, 0);
    lemma_str_neq("h300"@, "team"@, 0);
    lemma_str_neq("h300"@, "position"@, 0);
    lemma_str_neq("h300"@, "isPassing"@, 0);
    lemma_str_neq("h100"@, "h50"@, 0);
    lemma_str_neq("h100"@, "h0"@, 0);
    lemma_str_neq("h100"@, "team"@, 0);
    lemma_str_neq("h100"@, "position"@, 0);
    lemma_str_neq("h100"@, "isPassing"@, 0);
    lemma_str_neq("h50"@, "h0"@, 0);
    lemma_str_neq("h50"@, "team"@, 0);
    lemma_str_neq("h50"@, "position"@, 0);
    lemma_str_neq("h50"@, "isPassing"@, 0);
    lemma_str_neq("h0"@, "team"@, 0);
    lemma_str_neq("h0"@, "position"@, 0);
    lemma_str_neq("h0"@, "isPassing"@, 0);
    lemma_str_neq("team"@, "position"@, 0);
    lemma_str_neq("team"@, "isPassing"@, 0);
    lemma_str_neq("position"@, "isPassing"@, 0);

}

impl Ourplayer {
    /// The wire tree this value denotes.
    pub fn to_json(&self) -> (r: Json)
        ensures
            r@ == wire_of_ourplayer(self@),
    {
        let mut fields: Vec<(String, Json)> = Vec::new();
        fields.push((String::from_str("name"), Json::Str(self.name.clone())));
        fields.push((String::from_str("score"), Json::Num(dec_of_i64(self.score as i64))));
        fields.push((String::from_str("combo"), Json::Num(dec_of_i64(self.combo as i64))));
        fields.push((String::from_str("maxCombo"), Json::Num(dec_of_i64(self.max_combo as i64))));
        fields.push((String::from_str("mods"), Json::Str(self.mods.clone())));
        fields.push((String::from_str("h300"), Json::Num(dec_of_i64(self.h300 as i64))));
        fields.push((String::from_str("h100"), Json::Num(dec_of_i64(self.h100 as i64))));
        fields.push((String::from_str("h50"), Json::Num(dec_of_i64(self.h50 as i64))));
        fields.push((String::from_str("h0"), Json::Num(dec_of_i64(self.h0 as i64))));
        fields.push((String::from_str("team"), Json::Num(dec_of_i64(self.team as i64))));
        fields.push((String::from_str("position"), Json::Num(dec_of_i64(self.position as i64))));
        fields.push((String::from_str("isPassing"), Json::Num(dec_of_bool(self.is_passing))));
        let r = Json::Obj(fields);
        proof {
            lemma_fields_view(fields@);
            assert(fields_view(fields@) =~~= wire_fields_of_ourplayer(self@));
        }
        r
    }
}

/// The wire tree a `Leaderboard` value denotes, under the schema's field names.
pub open spec fn wire_fields_of_leaderboard(m: LeaderboardV) -> Seq<(Seq<char>, JsonV)> {
    seq![
        ("hasLeaderboard"@, JsonV::Bool(m.has_leaderboard)),
        ("isVisible"@, JsonV::Bool(m.is_visible)),
        ("ourplayer"@, wire_of_ourplayer(m.ourplayer)),
        ("slots"@, (match m.slots { Some(ps) => JsonV::Arr(ps.map_values(|p: OurplayerV| wire_of_ourplayer(p))), None => JsonV::Null })),
    ]
}

pub open spec fn wire_of_leaderboard(m: LeaderboardV) -> JsonV {
    JsonV::Obj(wire_fields_of_leaderboard(m))
}

/// Round trip: mapping the encoded wire tree back recovers the value.
#[verifier::rlimit(100)]
pub proof fn lemma_leaderboard_roundtrip(m: LeaderboardV, path: Seq<char>)
    ensures
        spec_leaderboard_from(wire_of_leaderboard(m), path) == Ok::<LeaderboardV, ErrV>(m),
{
    reveal_with_fuel(lookup, 20);
    reveal_strlit("hasLeaderboard");
    reveal_strlit("isVisible");
    reveal_strlit("ourplayer");
    reveal_strlit("slots");
    lemma_str_neq("hasLeaderboard"@, "isVisible"@, 0);
    lemma_str_neq("hasLeaderboard"@, "ourplayer"@, 0);
    lemma_str_neq("hasLeaderboard"@, "slots"@, 0);
    lemma_str_neq("isVisible"@, "ourplayer"@, 0);
    lemma_str_neq("isVisible"@, "slots"@, 0);
    lemma_str_neq("ourplayer"@, "slots"@, 0);
    lemma_ourplayer_roundtrip(m.ourplayer, spec_joined(path, "ourplayer"@));
    match m.slots {
        Some(ps) => lemma_rt_player_arr(ps, spec_joined(path, "slots"@)),
        None => {},
    }
}

impl Leaderboard {
    /// The wire tree this value denotes.
    pub fn to_json(&self) -> (r: Json)
        ensures
            r@ == wire_of_leaderboard(self@),
    {
        let mut fields: Vec<(String, Json)> = Vec::new();
        fields.push((String::from_str("hasLeaderboard"), Json::Bool(self.has_leaderboard)));
        fields.push((String::from_str("isVisible"), Json::Bool(self.is_visible)));
        fields.push((String::from_str("ourplayer"), self.ourplayer.to_json()));
        fields.push((String::from_str("slots"), (match &self.slots { Some(ps) => Json::Arr(players_to_json(ps)), None => Json::Null })));
        let r = Json::Obj(fields);
        proof {
            lemma_fields_view(fields@);
            match &self.slots {
                Some(ps) => {
                    assert(Seq::new(ps@.len(), |i: int| wire_of_ourplayer(ps@[i]@)) =~= Seq::new(
                        ps@.len(),
                        |i: int| ps@[i]@,
                    ).map_values(|p: OurplayerV| wire_of_ourplayer(p)));
                },
                None => {},
            }
            assert(fields_view(fields@) =~~= wire_fields_of_leaderboard(self@));
        }
        r
    }
}

/// The wire tree a `Gameplay` value denotes, under the schema's field names.
pub open spec fn wire_fields_of_gameplay(m: GameplayV) -> Seq<(Seq<char>, JsonV)> {
    seq![
        ("gameMode"@, JsonV::Num(spec_dec_of_i64(m.game_mode as i64))),
        ("name"@, (match m.name { Some(s) => JsonV::Str(s), None => JsonV::Null })),
        ("score"@, JsonV::Num(spec_dec_of_i64(m.score as i64))),
        ("accuracy"@, JsonV::Num(m.accuracy)),
        ("combo"@, wire_of_combo(m.combo)),
        ("hp"@, wire_of_hp(m.hp)),
        ("hits"@, wire_of_hits(m.hits)),
        ("pp"@, wire_of_pp2(m.pp)),
        ("keyOverlay"@, wire_of_key_overlay(m.key_overlay)),
        ("leaderboard"@, wire_of_leaderboard(m.leaderboard)),
    ]
}

pub open spec fn wire_of_gameplay(m: GameplayV) -> JsonV {
    JsonV::Obj(wire_fields_of_gameplay(m))
}

/// Round trip: mapping the encoded wire tree back recovers the value.
#[verifier::rlimit(100)]
pub proof fn lemma_gameplay_roundtrip(m: GameplayV, path: Seq<char>)
    ensures
        spec_gameplay_from(wire_of_gameplay(m), path) == Ok::<GameplayV, ErrV>(m),
{
    let w = wire_of_gameplay(m);
    assert(spec_req_u8(w, "gameMode"@, path) == Ok::<u8, ErrV>(m.game_mode)) by {
        reveal_with_fuel(lookup, 16);
        reveal_strlit("gameMode");
    }
    assert(spec_opt_str(w, "name"@, path) == Ok::<Option<Seq<char>>, ErrV>(m.name)) by {
        reveal_with_fuel(lookup, 16);
        reveal_strlit("gameMode");
        reveal_strlit("name");
        lemma_str_neq("gameMode"@, "name"@, 0);
    }
    assert(spec_req_i32(w, "score"@, path) == Ok::<i32, ErrV>(m.score)) by {
        reveal_with_fuel(lookup, 16);
        reveal_strlit("gameMode");
        reveal_strlit("name");
        reveal_strlit("score");
        lemma_str_neq("gameMode"@, "score"@, 0);
        lemma_str_neq("name"@, "score"@, 0);
    }
    assert(spec_req_num(w, "accuracy"@, path) == Ok::<Decimal, ErrV>(m.accuracy)) by {
        reveal_with_fuel(lookup, 16);
        reveal_strlit("gameMode");
        reveal_strlit("name");
        reveal_strlit("score");
        reveal_strlit("accuracy");
        lemma_str_neq("gameMode"@, "accuracy"@, 0);
        lemma_str_neq("name"@, "accuracy"@, 0);
        lemma_str_neq("score"@, "accuracy"@, 0);
    }
    assert(spec_combo_at(w, "combo"@, path) == Ok::<Combo, ErrV>(m.combo)) by {
        reveal_with_fuel(lookup, 16);
        reveal_strlit("gameMode");
        reveal_strlit("name");
        reveal_strlit("score");
        reveal_strlit("accuracy");
        reveal_strlit("combo");
        lemma_str_neq("gameMode"@, "combo"@, 0);
        lemma_str_neq("name"@, "combo"@, 0);
        lemma_str_neq("score"@, "combo"@, 0);
        lemma_str_neq("accuracy"@, "combo"@, 0);
        lemma_combo_roundtrip(m.combo, spec_joined(path, "combo"@));
    }
    assert(spec_hp_at(w, "hp"@, path) == Ok::<Hp, ErrV>(m.hp)) by {
        reveal_with_fuel(lookup, 16);
        reveal_strlit("gameMode");
        reveal_strlit("name");
        reveal_strlit("score");
        reveal_strlit("accuracy");
        reveal_strlit("combo");
        reveal_strlit("hp");
        lemma_str_neq("gameMode"@, "hp"@, 0);
        lemma_str_neq("name"@, "hp"@, 0);
        lemma_str_neq("score"@, "hp"@, 0);
        lemma_str_neq("accuracy"@, "hp"@, 0);
        lemma_str_neq("combo"@, "hp"@, 0);
        lemma_hp_roundtrip(m.hp, spec_joined(path, "hp"@));
    }
    assert(spec_hits_at(w, "hits"@, path) == Ok::<HitsV, ErrV>(m.hits)) by {
        reveal_with_fuel(lookup, 16);
        reveal_strlit("gameMode");
        reveal_strlit("name");
        reveal_strlit("score");
        reveal_strlit("accuracy");
        reveal_strlit("combo");
        reveal_strlit("hp");
        reveal_strlit("hits");
        lemma_str_neq("gameMode"@, "hits"@, 0);
        lemma_str_neq("name"@, "hits"@, 0);
        lemma_str_neq("score"@, "hits"@, 0);
        lemma_str_neq("accuracy"@, "hits"@, 0);
        lemma_str_neq("combo"@, "hits"@, 0);
        lemma_str_neq("hp"@, "hits"@, 0);
        lemma_hits_roundtrip(m.hits, spec_joined(path, "hits"@));
    }
    assert(spec_pp2_at(w, "pp"@, path) == Ok::<Pp2, ErrV>(m.pp)) by {
        reveal_with_fuel(lookup, 16);
        reveal_strlit("gameMode");
        reveal_strlit("name");
        reveal_strlit("score");
        reveal_strlit("accuracy");
        reveal_strlit("combo");
        reveal_strlit("hp");
        reveal_strlit("hits");
        reveal_strlit("pp");
        lemma_str_neq("gameMode"@, "pp"@, 0);
        lemma_str_neq("name"@, "pp"@, 0);
        lemma_str_neq("score"@, "pp"@, 0);
        lemma_str_neq("accuracy"@, "pp"@, 0);
        lemma_str_neq("combo"@, "pp"@, 0);
        lemma_str_neq("hp"@, "pp"@, 0);
        lemma_str_neq("hits"@, "pp"@, 0);
        lemma_pp2_roundtrip(m.pp, spec_joined(path, "pp"@));
    }
    assert(spec_key_overlay_at(w, "keyOverlay"@, path) == Ok::<KeyOverlay, ErrV>(m.key_overlay)) by {
        reveal_with_fuel(lookup, 16);
        reveal_strlit("gameMode");
        reveal_strlit("name");
        reveal_strlit("score");
        reveal_strlit("accuracy");
        reveal_strlit("combo");
        reveal_strlit("hp");
        reveal_strlit("hits");
        reveal_strlit("pp");
        reveal_strlit("keyOverlay");
        lemma_str_neq("gameMode"@, "keyOverlay"@, 0);
        lemma_str_neq("name"@, "keyOverlay"@, 0);
        lemma_str_neq("score"@, "keyOverlay"@, 0);
        lemma_str_neq("accuracy"@, "keyOverlay"@, 0);
        lemma_str_neq("combo"@, "keyOverlay"@, 0);
        lemma_str_neq("hp"@, "keyOverlay"@, 0);
        lemma_str_neq("hits"@, "keyOverlay"@, 0);
        lemma_str_neq("pp"@, "keyOverlay"@, 0);
        lemma_key_overlay_roundtrip(m.key_overlay, spec_joined(path, "keyOverlay"@));
    }
    assert(spec_leaderboard_at(w, "leaderboard"@, path) == Ok::<LeaderboardV, ErrV>(m.leaderboard)) by {
        reveal_with_fuel(lookup, 16);
        reveal_strlit("gameMode");
        reveal_strlit("name");
        reveal_strlit("score");
        reveal_strlit("accuracy");
        reveal_strlit("combo");
        reveal_strlit("hp");
        reveal_strlit("hits");
        reveal_strlit("pp");
        reveal_strlit("keyOverlay");
        reveal_strlit("leaderboard");
        lemma_str_neq("gameMode"@, "leaderboard"@, 0);
        lemma_str_neq("name"@, "leaderboard"@, 0);
        lemma_str_neq("score"@, "leaderboard"@, 0);
        lemma_str_neq("accuracy"@, "leaderboard"@, 0);
        lemma_str_neq("combo"@, "leaderboard"@, 0);
        lemma_str_neq("hp"@, "leaderboard"@, 0);
        lemma_str_neq("hits"@, "leaderboard"@, 0);
        lemma_str_neq("pp"@, "leaderboard"@, 0);
        lemma_str_neq("keyOverlay"@, "leaderboard"@, 0);
        lemma_leaderboard_roundtrip(m.leaderboard, spec_joined(path, "leaderboard"@));
    }
}

impl Gameplay {
    /// The wire tree this value denotes.
    pub fn to_json(&self) -> (r: Json)
        ensures
            r@ == wire_of_gameplay(self@),
    {
        let mut fields: Vec<(String, Json)> = Vec::new();
        fields.push((String::from_str("gameMode"), Json::Num(dec_of_i64(self.game_mode as i64))));
        fields.push((String::from_str("name"), (match &self.name { Some(s) => Json::Str(s.clone()), None => Json::Null })));
        fields.push((String::from_str("score"), Json::Num(dec_of_i64(self.score as i64))));
        fields.push((String::from_str("accuracy"), Json::Num(self.accuracy)));
        fields.push((String::from_str("combo"), self.combo.to_json()));
        fields.push((String::from_str("hp"), self.hp.to_json()));
        fields.push((String::from_str("hits"), self.hits.to_json()));
        fields.push((String::from_str("pp"), self.pp.to_json()));
        fields.push((String::from_str("keyOverlay"), self.key_overlay.to_json()));
        fields.push((String::from_str("leaderboard"), self.leaderboard.to_json()));
        let r = Json::Obj(fields);
        proof {
            lemma_fields_view(fields@);
            assert(fields_view(fields@) =~~= wire_fields_of_gameplay(self@));
        }
        r
    }
}

/// The wire tree a `ResultsScreen` value denotes, under the schema's field names.
pub open spec fn wire_fields_of_results_screen(m: ResultsScreenV) -> Seq<(Seq<char>, JsonV)> {
    seq![
        ("name"@, JsonV::Str(m.name)),
        ("score"@, JsonV::Num(spec_dec_of_i64(m.score as i64))),
        ("maxCombo"@, JsonV::Num(spec_dec_of_i64(m.max_combo as i64))),
        ("mods"@, wire_of_mods(m.mods)),
        ("300"@, JsonV::Num(spec_dec_of_i64(m.n300 as i64))),
        ("geki"@, JsonV::Num(spec_dec_of_i64(m.geki as i64))),
        ("100"@, JsonV::Num(spec_dec_of_i64(m.n100 as i64))),
        ("katu"@, JsonV::Num(spec_dec_of_i64(m.katu as i64))),
        ("50"@, JsonV::Num(spec_dec_of_i64(m.n50 as i64))),
        ("0"@, JsonV::Num(spec_dec_of_i64(m.n0 as i64))),
    ]
}

pub open spec fn wire_of_results_screen(m: ResultsScreenV) -> JsonV {
    JsonV::Obj(wire_fields_of_results_screen(m))
}

/// Round trip: mapping the encoded wire tree back recovers the value.
#[verifier::rlimit(100)]
pub proof fn lemma_results_screen_roundtrip(m: ResultsScreenV, path: Seq<char>)
    ensures
        spec_results_screen_from(wire_of_results_screen(m), path) == Ok::<ResultsScreenV, ErrV>(m),
{
    reveal_with_fuel(lookup, 20);
    reveal_strlit("name");
    reveal_strlit("score");
    reveal_strlit("maxCombo");
    reveal_strlit("mods");
    reveal_strlit("300");
    reveal_strlit("geki");
    reveal_strlit("100");
    reveal_strlit("katu");
    reveal_strlit("50");
    reveal_strlit("0");
    lemma_str_neq("name"@, "score"@, 0);
    lemma_str_neq("name"@, "maxCombo"@, 0);
    lemma_str_neq("name"@, "mods"@, 0);
    lemma_str_neq("name"@, "300"@, 0);
    lemma_str_neq("name"@, "geki"@, 0);
    lemma_str_neq("name"@, "100"@, 0);
    lemma_str_neq("name"@, "katu"@, 0);
    lemma_str_neq("name"@, "50"@, 0);
    lemma_str_neq("name"@, "0"@, 0);
    lemma_str_neq("score"@, "maxCombo"@, 0);
    lemma_str_neq("score"@, "mods"@, 0);
    lemma_str_neq("score"@, "300"@, 0);
    lemma_str_neq("score"@, "geki"@, 0);
    lemma_str_neq("score"@, "100"@, 0);
    lemma_str_neq("score"@, "katu"@, 0);
    lemma_str_neq("score"@, "50"@, 0);
    lemma_str_neq("score"@, "0"@, 0);
    lemma_str_neq("maxCombo"@, "mods"@, 0);
    lemma_str_neq("maxCombo"@, "300"@, 0);
    lemma_str_neq("maxCombo"@, "geki"@, 0);
    lemma_str_neq("maxCombo"@, "100"@, 0);
    lemma_str_neq("maxCombo"@, "katu"@, 0);
    lemma_str_neq("maxCombo"@, "50"@, 0);
    lemma_str_neq("maxCombo"@, "0"@, 0);
    lemma_str_neq("mods"@, "300"@, 0);
    lemma_str_neq("mods"@, "geki"@, 0);
    lemma_str_neq("mods"@, "100"@, 0);
    lemma_str_neq("mods"@, "katu"@, 0);
    lemma_str_neq("mods"@, "50"@, 0);
    lemma_str_neq("mods"@, "0"@, 0);
    lemma_str_neq("300"@, "geki"@, 0);
    lemma_str_neq("300"@, "100"@, 0);
    lemma_str_neq("300"@, "katu"@, 0);
    lemma_str_neq("300"@, "50"@, 0);
    lemma_str_neq("300"@, "0"@, 0);
    lemma_str_neq("geki"@, "100"@, 0);
    lemma_str_neq("geki"@, "katu"@, 0);
    lemma_str_neq("geki"@, "50"@, 0);
    lemma_str_neq("geki"@, "0"@, 0);
    lemma_str_neq("100"@, "katu"@, 0);
    lemma_str_neq("100"@, "50"@, 0);
    lemma_str_neq("100"@, "0"@, 0);
    lemma_str_neq("katu"@, "50"@, 0);
    lemma_str_neq("katu"@, "0"@, 0);
    lemma_str_neq("50"@, "0"@, 0);
    lemma_mods_roundtrip(m.mods, spec_joined(path, "mods"@));
}

impl ResultsScreen {
    /// The wire tree this value denotes.
    pub fn to_json(&self) -> (r: Json)
        ensures
            r@ == wire_of_results_screen(self@),
    {
        let mut fields: Vec<(String, Json)> = Vec::new();
        fields.push((String::from_str("name"), Json::Str(self.name.clone())));
        fields.push((String::from_str("score"), Json::Num(dec_of_i64(self.score as i64))));
        fields.push((String::from_str("maxCombo"), Json::Num(dec_of_i64(self.max_combo as i64))));
        fields.push((String::from_str("mods"), self.mods.to_json()));
        fields.push((String::from_str("300"), Json::Num(dec_of_i64(self.n300 as i64))));
        fields.push((String::from_str("geki"), Json::Num(dec_of_i64(self.geki as i64))));
        fields.push((String::from_str("100"), Json::Num(dec_of_i64(self.n100 as i64))));
        fields.push((String::from_str("katu"), Json::Num(dec_of_i64(self.katu as i64))));
        fields.push((String::from_str("50"), Json::Num(dec_of_i64(self.n50 as i64))));
        fields.push((String::from_str("0"), Json::Num(dec_of_i64(self.n0 as i64))));
        let r = Json::Obj(fields);
        proof {
            lemma_fields_view(fields@);
            assert(fields_view(fields@) =~~= wire_fields_of_results_screen(self@));
        }
        r
    }
}

/// The wire tree a `Gosumemory` value denotes, under the schema's field names.
pub open spec fn wire_fields_of_gosumemory(m: GosumemoryV) -> Seq<(Seq<char>, JsonV)> {
    seq![
        ("settings"@, wire_of_settings(m.settings)),
        ("menu"@, wire_of_menu(m.menu)),
        ("gameplay"@, wire_of_gameplay(m.gameplay)),
        ("resultsScreen"@, wire_of_results_screen(m.results_screen)),
    ]
}

pub open spec fn wire_of_gosumemory(m: GosumemoryV) -> JsonV {
    JsonV::Obj(wire_fields_of_gosumemory(m))
}

/// Round trip: mapping the encoded wire tree of a whole model back
/// recovers the model, for every model value.
#[verifier::rlimit(100)]
pub proof fn lemma_gosumemory_roundtrip(m: GosumemoryV, path: Seq<char>)
    ensures
        spec_gosumemory_from(wire_of_gosumemory(m), path) == Ok::<GosumemoryV, ErrV>(m),
{
    let w = wire_of_gosumemory(m);
    assert(spec_settings_at(w, "settings"@, path) == Ok::<SettingsV, ErrV>(m.settings)) by {
        reveal_with_fuel(lookup, 8);
        reveal_strlit("settings");
        lemma_settings_roundtrip(m.settings, spec_joined(path, "settings"@));
    }
    assert(spec_menu_at(w, "menu"@, path) == Ok::<MenuV, ErrV>(m.menu)) by {
        reveal_with_fuel(lookup, 8);
        reveal_strlit("settings");
        reveal_strlit("menu");
        lemma_str_neq("settings"@, "menu"@, 0);
        lemma_menu_roundtrip(m.menu, spec_joined(path, "menu"@));
    }
    assert(spec_gameplay_at(w, "gameplay"@, path) == Ok::<GameplayV, ErrV>(m.gameplay)) by {
        reveal_with_fuel(lookup, 8);
        reveal_strlit("settings");
        reveal_strlit("menu");
        reveal_strlit("gameplay");
        lemma_str_neq("settings"@, "gameplay"@, 0);
        lemma_str_neq("menu"@, "gameplay"@, 0);
        lemma_gameplay_roundtrip(m.gameplay, spec_joined(path, "gameplay"@));
    }
    assert(spec_results_screen_at(w, "resultsScreen"@, path) == Ok::<ResultsScreenV, ErrV>(
        m.results_screen,
    )) by {
        reveal_with_fuel(lookup, 8);
        reveal_strlit("settings");
        reveal_strlit("menu");
        reveal_strlit("gameplay");
        reveal_strlit("resultsScreen");
        lemma_str_neq("settings"@, "resultsScreen"@, 0);
        lemma_str_neq("menu"@, "resultsScreen"@, 0);
        lemma_str_neq("gameplay"@, "resultsScreen"@, 0);
        lemma_results_screen_roundtrip(m.results_screen, spec_joined(path, "resultsScreen"@));
    }
}

impl Gosumemory {
    /// The wire tree this value denotes.
    pub fn to_json(&self) -> (r: Json)
        ensures
            r@ == wire_of_gosumemory(self@),
    {
        let mut fields: Vec<(String, Json)> = Vec::new();
        fields.push((String::from_str("settings"), self.settings.to_json()));
        fields.push((String::from_str("menu"), self.menu.to_json()));
        fields.push((String::from_str("gameplay"), self.gameplay.to_json()));
        fields.push((String::from_str("resultsScreen"), self.results_screen.to_json()));
        let r = Json::Obj(fields);
        proof {
            lemma_fields_view(fields@);
            assert(fields_view(fields@) =~~= wire_fields_of_gosumemory(self@));
        }
        r
    }
}


} // verus!
