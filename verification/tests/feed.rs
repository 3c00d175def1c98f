use gosumemory_helper::errors::ParseError;
use gosumemory_helper::legacy::OsuMap;
use gosumemory_helper::model::Gosumemory;
use gosumemory_helper::parse;
use gosumemory_helper::wirenum::Decimal;

static DOC_TEMPLATE: &str = "{\"settings\":{\"showInterface\":true,\"folders\":{\"game\":\"C:/osu\",\"skin\":\"sk\",\"s\
    ongs\":\"S\"}},\"menu\":{\"mainMenu\":{\"bassDensity\":1.5},\"state\":2,\"gameMode\":0,\"i\
    sChatEnabled\":CHATVAL,\"bm\":{\"time\":{\"firstObj\":10,\"current\":20,\"full\":30,\"mp3\"\
    :40},\"id\":123,\"set\":456,\"md5\":\"abc\",\"rankedStatus\":4,\"metadata\":{\"artist\":\"\
    A\",\"artistOriginal\":\"AO\",\"title\":\"T\",\"titleOriginal\":\"TO\",\"mapper\":\"M\",\"\
    difficulty\":\"D\"},\"stats\":{\"AR\":9.3,\"CS\":4,\"OD\":8,\"HP\":5,\"SR\":5.5,\"BPM\":{\"\
    min\":170,\"max\":178},\"maxCombo\":1000,\"fullSR\":6.10,\"memoryAR\":10.3,\"memoryCS\":4.\
    2,\"memoryOD\":8.5,\"memoryHP\":7.2},\"path\":{\"full\":\"f\",\"folder\":\"fo\",\"file\":\"\
    fi\",\"bg\":\"b\",\"audio\":\"a\"}},\"mods\":{\"num\":64,\"str\":\"DT\"},\"pp\":{\"100\":3\
    00,\"99\":280,\"98\":260,\"97\":240,\"96\":220,\"95\":200STRAINSMEMBER}},\"gameplay\":{\"g\
    ameMode\":0,\"name\":\"player\",\"score\":100000,\"accuracy\":98.5,\"combo\":{\"current\":\
    50,\"max\":120},\"hp\":{\"normal\":180.5,\"smooth\":175.25},\"hits\":{\"300\":150,\"geki\"\
    :10,\"100\":5,\"katu\":2,\"50\":1,\"0\":0,\"sliderBreaks\":1,\"grade\":{\"current\":\"A\",\
    \"maxThisPlay\":\"S\"},\"unstableRate\":85.5,\"hitErrorArray\":[-5,3,0]},\"pp\":{\"current\
    \":120,\"fc\":180,\"maxThisPlay\":130},\"keyOverlay\":{\"k1\":{\"isPressed\":true,\"count\"\
    :100},\"k2\":{\"isPressed\":false,\"count\":90},\"m1\":{\"isPressed\":false,\"count\":2},\"\
    m2\":{\"isPressed\":false,\"count\":0}},\"leaderboard\":{\"hasLeaderboard\":true,\"isVisib\
    le\":false,\"ourplayer\":{\"name\":\"me\",\"score\":1,\"combo\":2,\"maxCombo\":3,\"mods\":\
    \"HD\",\"h300\":4,\"h100\":5,\"h50\":6,\"h0\":7,\"team\":1,\"position\":2,\"isPassing\":1}\
    ,\"slots\":[{\"name\":\"o1\",\"score\":9,\"combo\":8,\"maxCombo\":7,\"mods\":\"\",\"h300\"\
    :6,\"h100\":5,\"h50\":4,\"h0\":3,\"team\":0,\"position\":1,\"isPassing\":0}]}},\"resultsSc\
    reen\":{\"name\":\"me\",\"score\":55,\"maxCombo\":30,\"mods\":{\"num\":0,\"str\":\"None\"}\
    ,\"300\":10,\"geki\":1,\"100\":42,\"katu\":2,\"50\":3,\"0\":4}}";

fn doc_with(chat: &str, strains_member: &str) -> String {
    DOC_TEMPLATE.replace("CHATVAL", chat).replace("STRAINSMEMBER", strains_member)
}

fn full_doc() -> String {
    doc_with("1", ",\"strains\":[1.5,2.5]")
}

fn dec(neg: bool, mantissa: u64, scale: u32) -> Decimal {
    Decimal { neg, mantissa, scale, frac: scale > 0 }
}

#[test]
fn full_document_parses_with_exact_fields() {
    let m: Gosumemory = parse(&full_doc()).unwrap();
    assert!(m.settings.show_interface);
    assert_eq!(m.settings.folders.game, "C:/osu");
    assert_eq!(m.menu.main_menu.bass_density, dec(false, 15, 1));
    assert_eq!(m.menu.state, 2);
    assert!(m.menu.is_chat_enabled);
    assert_eq!(m.menu.bm.id, 123);
    assert_eq!(m.menu.bm.set, 456);
    assert_eq!(m.menu.bm.md5, "abc");
    assert_eq!(m.menu.bm.time.first_obj, 10);
    assert_eq!(m.menu.bm.metadata.artist_original, "AO");
    assert_eq!(m.menu.bm.stats.ar, dec(false, 93, 1));
    assert_eq!(m.menu.bm.stats.cs, dec(false, 4, 0));
    assert_eq!(m.menu.bm.stats.bpm.min, 170);
    assert_eq!(m.menu.bm.stats.bpm.max, 178);
    assert_eq!(m.menu.bm.stats.max_combo, 1000);
    assert_eq!(m.menu.mods.num, 64);
    assert_eq!(m.menu.mods.str, "DT");
    assert_eq!(m.menu.pp.n100, 300);
    assert_eq!(m.menu.pp.n95, 200);
    assert_eq!(m.menu.pp.strains, Some(vec![dec(false, 15, 1), dec(false, 25, 1)]));
    assert_eq!(m.gameplay.name.as_deref(), Some("player"));
    assert_eq!(m.gameplay.accuracy, dec(false, 985, 1));
    assert_eq!(m.gameplay.combo.max, 120);
    assert_eq!(m.gameplay.hits.n300, 150);
    assert_eq!(m.gameplay.hits.grade.max_this_play, "S");
    assert_eq!(m.gameplay.hits.hit_error_array, Some(vec![-5, 3, 0]));
    assert!(m.gameplay.key_overlay.k1.is_pressed);
    assert!(m.gameplay.leaderboard.ourplayer.is_passing);
    let slots = m.gameplay.leaderboard.slots.as_ref().unwrap();
    assert_eq!(slots.len(), 1);
    assert_eq!(slots[0].name, "o1");
    assert!(!slots[0].is_passing);
    assert_eq!(m.results_screen.name, "me");
    assert_eq!(m.results_screen.n0, 4);
}

#[test]
fn numeric_string_key_maps_to_n100() {
    let m = parse(&full_doc()).unwrap();
    assert_eq!(m.results_screen.n100, 42);
}

#[test]
fn missing_required_field_names_its_path() {
    let text = full_doc().replace("\"memoryOD\":8.5,", "");
    match parse(&text) {
        Err(ParseError::SchemaMismatch { path }) => {
            assert_eq!(path, "menu.bm.stats.memoryOD");
        },
        other => panic!("expected a schema mismatch, got {:?}", other),
    }
}

#[test]
fn wrong_type_is_schema_mismatch() {
    let text = full_doc().replace("\"id\":123", "\"id\":\"123\"");
    match parse(&text) {
        Err(ParseError::SchemaMismatch { path }) => assert_eq!(path, "menu.bm.id"),
        other => panic!("expected a schema mismatch, got {:?}", other),
    }
}

#[test]
fn fractional_value_rejected_for_integer_field() {
    let text = full_doc().replace("\"id\":123", "\"id\":123.5");
    match parse(&text) {
        Err(ParseError::SchemaMismatch { path }) => assert_eq!(path, "menu.bm.id"),
        other => panic!("expected a schema mismatch, got {:?}", other),
    }
}

#[test]
fn chat_enabled_wire_booleans() {
    let m1 = parse(&doc_with("1", ",\"strains\":[]")).unwrap();
    assert!(m1.menu.is_chat_enabled);
    let m0 = parse(&doc_with("0", ",\"strains\":[]")).unwrap();
    assert!(!m0.menu.is_chat_enabled);
    match parse(&doc_with("3", ",\"strains\":[]")) {
        Err(ParseError::InvalidBooleanEncoding { path }) => {
            assert_eq!(path, "menu.isChatEnabled");
        },
        other => panic!("expected an invalid boolean encoding, got {:?}", other),
    }
}

#[test]
fn bad_wire_booleans_reject_negative_and_string() {
    match parse(&doc_with("-1", "")) {
        Err(ParseError::InvalidBooleanEncoding { path }) => {
            assert_eq!(path, "menu.isChatEnabled");
        },
        other => panic!("expected an invalid boolean encoding, got {:?}", other),
    }
    match parse(&doc_with("\"true\"", "")) {
        Err(ParseError::InvalidBooleanEncoding { path }) => {
            assert_eq!(path, "menu.isChatEnabled");
        },
        other => panic!("expected an invalid boolean encoding, got {:?}", other),
    }
    match parse(&doc_with("0.5", "")) {
        Err(ParseError::InvalidBooleanEncoding { path }) => {
            assert_eq!(path, "menu.isChatEnabled");
        },
        other => panic!("expected an invalid boolean encoding, got {:?}", other),
    }
}

#[test]
fn strains_absent_is_distinct_from_empty() {
    let absent = parse(&doc_with("1", "")).unwrap();
    assert_eq!(absent.menu.pp.strains, None);
    let empty = parse(&doc_with("1", ",\"strains\":[]")).unwrap();
    assert_eq!(empty.menu.pp.strains, Some(vec![]));
    assert_ne!(absent.menu.pp.strains, empty.menu.pp.strains);
}

#[test]
fn round_trip_through_wire_tree() {
    let m = parse(&full_doc()).unwrap();
    let tree = m.to_json();
    let back = Gosumemory::from_json(&tree, "").unwrap();
    assert_eq!(back, m);
}

#[test]
fn legacy_subset_extraction() {
    let m = parse(&full_doc()).unwrap();
    let legacy = OsuMap::of_full(&m);
    assert_eq!(legacy.stats.od, dec(false, 85, 1));
    assert_eq!(legacy.stats.hp, dec(false, 72, 1));
    assert_eq!(legacy.stats.sr, dec(false, 61, 1));
    assert_eq!(legacy.stats.bpmmin, 170);
    assert_eq!(legacy.stats.bpmmax, 178);
    assert_eq!(legacy.metadata.artist, "A");
    assert_eq!(legacy.path.folder, "fo");
}

#[test]
fn malformed_text_is_rejected() {
    assert_eq!(parse("not json"), Err(ParseError::MalformedDocument));
    assert_eq!(parse("{\"settings\":"), Err(ParseError::MalformedDocument));
    assert_eq!(parse(""), Err(ParseError::MalformedDocument));
}

#[test]
fn trailing_zeros_normalize_to_equal_decimals() {
    let a = parse(&full_doc().replace("\"fullSR\":6.10", "\"fullSR\":6.1")).unwrap();
    let b = parse(&full_doc()).unwrap();
    assert_eq!(a.menu.bm.stats.full_sr, b.menu.bm.stats.full_sr);
    assert_eq!(b.menu.bm.stats.full_sr, dec(false, 61, 1));
}

#[test]
fn string_escapes_are_decoded() {
    let text = full_doc().replace("\"artist\":\"A\"", "\"artist\":\"\\u0041\\n\\\"\"");
    let m = parse(&text).unwrap();
    assert_eq!(m.menu.bm.metadata.artist, "A\n\"");
}

#[test]
fn unknown_fields_are_ignored() {
    let text = full_doc().replace("\"state\":2,", "\"state\":2,\"extraField\":[1,{}],");
    let m = parse(&text).unwrap();
    assert_eq!(m.menu.state, 2);
}

#[test]
fn decimal_new_normalizes() {
    assert_eq!(Decimal::new(false, 6100, 3, true), dec(false, 61, 1));
    assert_eq!(
        Decimal::new(true, 0, 5, true),
        Decimal { neg: false, mantissa: 0, scale: 0, frac: true }
    );
    assert_eq!(
        Decimal::new(true, 50, 1, false),
        Decimal { neg: true, mantissa: 5, scale: 0, frac: false }
    );
}

#[test]
fn float_lexemes_rejected_for_integer_fields() {
    let text = full_doc().replace("\"id\":123", "\"id\":123.0");
    match parse(&text) {
        Err(ParseError::SchemaMismatch { path }) => assert_eq!(path, "menu.bm.id"),
        other => panic!("expected a schema mismatch, got {:?}", other),
    }
    let text2 = full_doc().replace("\"state\":2", "\"state\":2e0");
    match parse(&text2) {
        Err(ParseError::SchemaMismatch { path }) => assert_eq!(path, "menu.state"),
        other => panic!("expected a schema mismatch, got {:?}", other),
    }
}

#[test]
fn float_lexemes_rejected_for_wire_booleans() {
    for bad in ["1.0", "1e0", "0.0", "-0"] {
        match parse(&doc_with(bad, "")) {
            Err(ParseError::InvalidBooleanEncoding { path }) => {
                assert_eq!(path, "menu.isChatEnabled");
            },
            other => panic!("expected an invalid boolean encoding for {}, got {:?}", bad, other),
        }
    }
}

#[test]
fn empty_form_has_defaults() {
    let m = Gosumemory::empty();
    assert_eq!(m.settings.folders.game, "");
    assert!(!m.settings.show_interface);
    assert_eq!(m.menu.state, 0);
    assert!(!m.menu.is_chat_enabled);
    assert_eq!(m.menu.bm.stats.ar, dec(false, 0, 0));
    assert_eq!(m.menu.bm.stats.bpm.min, 0);
    assert_eq!(m.menu.bm.metadata.artist, "");
    assert_eq!(m.menu.pp.strains, None);
    assert_eq!(m.gameplay.name, None);
    assert_eq!(m.gameplay.hits.hit_error_array, None);
    assert_eq!(m.gameplay.leaderboard.slots, None);
    assert_eq!(m.results_screen.n100, 0);
}
