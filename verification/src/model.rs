//! The typed aggregate the feed document is mapped into.
//!
//! Every struct mirrors one object of the wire schema.  A fresh value is
//! built once per inbound message and never mutated.  Each type with string
//! or sequence fields carries a spec-level view (`...V`) over mathematical
//! sequences; all-scalar types are their own view.

use vstd::prelude::*;

use crate::wirenum::Decimal;

verus! {

/// Application-level configuration mirror.
#[derive(Clone, Debug, PartialEq)]
pub struct Settings {
    pub show_interface: bool,
    pub folders: Folders,
}

/// Filesystem locations of the game installation.  Paths are opaque strings:
/// the mapper neither validates nor normalizes them.
#[derive(Clone, Debug, PartialEq)]
pub struct Folders {
    pub game: String,
    pub skin: String,
    pub songs: String,
}

/// Current menu and selection state.
#[derive(Clone, Debug, PartialEq)]
pub struct Menu {
    pub main_menu: MainMenu,
    pub state: u8,
    pub game_mode: u8,
    /// Wire-encoded as integer 0 or 1.
    pub is_chat_enabled: bool,
    pub bm: Bm,
    pub mods: Mods,
    pub pp: Pp,
}

#[derive(Clone, Copy, Debug, PartialEq)]
pub struct MainMenu {
    pub bass_density: Decimal,
}

/// The selected beatmap.
#[derive(Clone, Debug, PartialEq)]
pub struct Bm {
    pub time: Time,
    pub id: i32,
    pub set: i32,
    pub md5: String,
    pub ranked_status: u8,
    pub metadata: Metadata,
    pub stats: Stats,
    pub path: Path,
}

/// Playback positions, in integer milliseconds.
#[derive(Clone, Copy, Debug, PartialEq)]
pub struct Time {
    pub first_obj: i32,
    pub current: i32,
    pub full: i32,
    pub mp3: i32,
}

#[derive(Clone, Debug, PartialEq)]
pub struct Metadata {
    pub artist: String,
    pub artist_original: String,
    pub title: String,
    pub title_original: String,
    pub mapper: String,
    pub difficulty: String,
}

/// Difficulty statistics, base and live mod-adjusted ("memory") variants.
#[derive(Clone, Copy, Debug, PartialEq)]
pub struct Stats {
    pub ar: Decimal,
    pub cs: Decimal,
    pub od: Decimal,
    pub hp: Decimal,
    pub sr: Decimal,
    pub bpm: Bpm,
    pub max_combo: i32,
    pub full_sr: Decimal,
    pub memory_ar: Decimal,
    pub memory_cs: Decimal,
    pub memory_od: Decimal,
    pub memory_hp: Decimal,
}

#[derive(Clone, Copy, Debug, PartialEq)]
pub struct Bpm {
    pub min: i64,
    pub max: i64,
}

/// Filesystem paths of the selected beatmap's files, as opaque strings.
#[derive(Clone, Debug, PartialEq)]
pub struct Path {
    pub full: String,
    pub folder: String,
    pub file: String,
    pub bg: String,
    pub audio: String,
}

/// Active gameplay modifiers: a bitmask and its display string.
#[derive(Clone, Debug, PartialEq)]
pub struct Mods {
    pub num: i32,
    pub str: String,
}

/// Performance-point values precomputed for accuracy thresholds, and an
/// optional per-time-slice difficulty-strain sequence.
#[derive(Clone, Debug, PartialEq)]
pub struct Pp {
    pub n100: i32,
    pub n99: i32,
    pub n98: i32,
    pub n97: i32,
    pub n96: i32,
    pub n95: i32,
    /// Absent from the wire is a distinct state from present but empty.
    pub strains: Option<Vec<Decimal>>,
}

/// Live-play state.
#[derive(Clone, Debug, PartialEq)]
pub struct Gameplay {
    pub game_mode: u8,
    pub name: Option<String>,
    pub score: i32,
    pub accuracy: Decimal,
    pub combo: Combo,
    pub hp: Hp,
    pub hits: Hits,
    pub pp: Pp2,
    pub key_overlay: KeyOverlay,
    pub leaderboard: Leaderboard,
}

#[derive(Clone, Copy, Debug, PartialEq)]
pub struct Combo {
    pub current: i16,
    pub max: i16,
}

#[derive(Clone, Copy, Debug, PartialEq)]
pub struct Hp {
    pub normal: Decimal,
    pub smooth: Decimal,
}

/// Judgement counts and timing statistics of the current play.
#[derive(Clone, Debug, PartialEq)]
pub struct Hits {
    pub n300: i16,
    pub geki: i16,
    pub n100: i16,
    pub katu: i16,
    pub n50: i16,
    pub n0: i16,
    pub slider_breaks: i16,
    pub grade: Grade,
    pub unstable_rate: Decimal,
    pub hit_error_array: Option<Vec<i32>>,
}

#[derive(Clone, Debug, PartialEq)]
pub struct Grade {
    pub current: String,
    pub max_this_play: String,
}

/// Current, projected full-combo, and best-this-play performance points.
#[derive(Clone, Copy, Debug, PartialEq)]
pub struct Pp2 {
    pub current: i32,
    pub fc: i32,
    pub max_this_play: i32,
}

#[derive(Clone, Copy, Debug, PartialEq)]
pub struct KeyOverlay {
    pub k1: KeyOverlayButton,
    pub k2: KeyOverlayButton,
    pub m1: KeyOverlayButton,
    pub m2: KeyOverlayButton,
}

#[derive(Clone, Copy, Debug, PartialEq)]
pub struct KeyOverlayButton {
    pub is_pressed: bool,
    pub count: i32,
}

#[derive(Clone, Debug, PartialEq)]
pub struct Leaderboard {
    pub has_leaderboard: bool,
    pub is_visible: bool,
    pub ourplayer: Ourplayer,
    pub slots: Option<Vec<Ourplayer>>,
}

/// One leaderboard record.
#[derive(Clone, Debug, PartialEq)]
pub struct Ourplayer {
    pub name: String,
    pub score: i32,
    pub combo: i16,
    pub max_combo: i16,
    pub mods: String,
    pub h300: i16,
    pub h100: i16,
    pub h50: i16,
    pub h0: i16,
    pub team: i32,
    pub position: i32,
    /// Wire-encoded as integer 0 or 1.
    pub is_passing: bool,
}

/// Post-play summary.
#[derive(Clone, Debug, PartialEq)]
pub struct ResultsScreen {
    pub name: String,
    pub score: i32,
    pub max_combo: i16,
    pub mods: Mods,
    pub n300: i16,
    pub geki: i16,
    pub n100: i16,
    pub katu: i16,
    pub n50: i16,
    pub n0: i16,
}

/// The whole state carried by one feed document.
#[derive(Clone, Debug, PartialEq)]
pub struct Gosumemory {
    pub settings: Settings,
    pub menu: Menu,
    pub gameplay: Gameplay,
    pub results_screen: ResultsScreen,
}

// Spec-level views.

#[verifier::ext_equal]
pub ghost struct FoldersV {
    pub game: Seq<char>,
    pub skin: Seq<char>,
    pub songs: Seq<char>,
}

#[verifier::ext_equal]
pub ghost struct SettingsV {
    pub show_interface: bool,
    pub folders: FoldersV,
}

#[verifier::ext_equal]
pub ghost struct MetadataV {
    pub artist: Seq<char>,
    pub artist_original: Seq<char>,
    pub title: Seq<char>,
    pub title_original: Seq<char>,
    pub mapper: Seq<char>,
    pub difficulty: Seq<char>,
}

#[verifier::ext_equal]
pub ghost struct PathV {
    pub full: Seq<char>,
    pub folder: Seq<char>,
    pub file: Seq<char>,
    pub bg: Seq<char>,
    pub audio: Seq<char>,
}

#[verifier::ext_equal]
pub ghost struct ModsV {
    pub num: i32,
    pub str: Seq<char>,
}

#[verifier::ext_equal]
pub ghost struct PpV {
    pub n100: i32,
    pub n99: i32,
    pub n98: i32,
    pub n97: i32,
    pub n96: i32,
    pub n95: i32,
    pub strains: Option<Seq<Decimal>>,
}

#[verifier::ext_equal]
pub ghost struct BmV {
    pub time: Time,
    pub id: i32,
    pub set: i32,
    pub md5: Seq<char>,
    pub ranked_status: u8,
    pub metadata: MetadataV,
    pub stats: Stats,
    pub path: PathV,
}

#[verifier::ext_equal]
pub ghost struct MenuV {
    pub main_menu: MainMenu,
    pub state: u8,
    pub game_mode: u8,
    pub is_chat_enabled: bool,
    pub bm: BmV,
    pub mods: ModsV,
    pub pp: PpV,
}

#[verifier::ext_equal]
pub ghost struct GradeV {
    pub current: Seq<char>,
    pub max_this_play: Seq<char>,
}

#[verifier::ext_equal]
pub ghost struct HitsV {
    pub n300: i16,
    pub geki: i16,
    pub n100: i16,
    pub katu: i16,
    pub n50: i16,
    pub n0: i16,
    pub slider_breaks: i16,
    pub grade: GradeV,
    pub unstable_rate: Decimal,
    pub hit_error_array: Option<Seq<i32>>,
}

#[verifier::ext_equal]
pub ghost struct OurplayerV {
    pub name: Seq<char>,
    pub score: i32,
    pub combo: i16,
    pub max_combo: i16,
    pub mods: Seq<char>,
    pub h300: i16,
    pub h100: i16,
    pub h50: i16,
    pub h0: i16,
    pub team: i32,
    pub position: i32,
    pub is_passing: bool,
}

#[verifier::ext_equal]
pub ghost struct LeaderboardV {
    pub has_leaderboard: bool,
    pub is_visible: bool,
    pub ourplayer: OurplayerV,
    pub slots: Option<Seq<OurplayerV>>,
}

#[verifier::ext_equal]
pub ghost struct GameplayV {
    pub game_mode: u8,
    pub name: Option<Seq<char>>,
    pub score: i32,
    pub accuracy: Decimal,
    pub combo: Combo,
    pub hp: Hp,
    pub hits: HitsV,
    pub pp: Pp2,
    pub key_overlay: KeyOverlay,
    pub leaderboard: LeaderboardV,
}

#[verifier::ext_equal]
pub ghost struct ResultsScreenV {
    pub name: Seq<char>,
    pub score: i32,
    pub max_combo: i16,
    pub mods: ModsV,
    pub n300: i16,
    pub geki: i16,
    pub n100: i16,
    pub katu: i16,
    pub n50: i16,
    pub n0: i16,
}

#[verifier::ext_equal]
pub ghost struct GosumemoryV {
    pub settings: SettingsV,
    pub menu: MenuV,
    pub gameplay: GameplayV,
    pub results_screen: ResultsScreenV,
}

impl View for Folders {
    type V = FoldersV;

    open spec fn view(&self) -> FoldersV {
        FoldersV { game: self.game@, skin: self.skin@, songs: self.songs@ }
    }
}

impl View for Settings {
    type V = SettingsV;

    open spec fn view(&self) -> SettingsV {
        SettingsV { show_interface: self.show_interface, folders: self.folders@ }
    }
}

impl View for Metadata {
    type V = MetadataV;

    open spec fn view(&self) -> MetadataV {
        MetadataV {
            artist: self.artist@,
            artist_original: self.artist_original@,
            title: self.title@,
            title_original: self.title_original@,
            mapper: self.mapper@,
            difficulty: self.difficulty@,
        }
    }
}

impl View for Path {
    type V = PathV;

    open spec fn view(&self) -> PathV {
        PathV {
            full: self.full@,
            folder: self.folder@,
            file: self.file@,
            bg: self.bg@,
            audio: self.audio@,
        }
    }
}

impl View for Mods {
    type V = ModsV;

    open spec fn view(&self) -> ModsV {
        ModsV { num: self.num, str: self.str@ }
    }
}

impl View for Pp {
    type V = PpV;

    open spec fn view(&self) -> PpV {
        PpV {
            n100: self.n100,
            n99: self.n99,
            n98: self.n98,
            n97: self.n97,
            n96: self.n96,
            n95: self.n95,
            strains: (match self.strains {
                Some(v) => Some(v@),
                None => None,
            }),
        }
    }
}

impl View for Bm {
    type V = BmV;

    open spec fn view(&self) -> BmV {
        BmV {
            time: self.time,
            id: self.id,
            set: self.set,
            md5: self.md5@,
            ranked_status: self.ranked_status,
            metadata: self.metadata@,
            stats: self.stats,
            path: self.path@,
        }
    }
}

impl View for Menu {
    type V = MenuV;

    open spec fn view(&self) -> MenuV {
        MenuV {
            main_menu: self.main_menu,
            state: self.state,
            game_mode: self.game_mode,
            is_chat_enabled: self.is_chat_enabled,
            bm: self.bm@,
            mods: self.mods@,
            pp: self.pp@,
        }
    }
}

impl View for Grade {
    type V = GradeV;

    open spec fn view(&self) -> GradeV {
        GradeV { current: self.current@, max_this_play: self.max_this_play@ }
    }
}

impl View for Hits {
    type V = HitsV;

    open spec fn view(&self) -> HitsV {
        HitsV {
            n300: self.n300,
            geki: self.geki,
            n100: self.n100,
            katu: self.katu,
            n50: self.n50,
            n0: self.n0,
            slider_breaks: self.slider_breaks,
            grade: self.grade@,
            unstable_rate: self.unstable_rate,
            hit_error_array: (match self.hit_error_array {
                Some(v) => Some(v@),
                None => None,
            }),
        }
    }
}

impl View for Ourplayer {
    type V = OurplayerV;

    open spec fn view(&self) -> OurplayerV {
        OurplayerV {
            name: self.name@,
            score: self.score,
            combo: self.combo,
            max_combo: self.max_combo,
            mods: self.mods@,
            h300: self.h300,
            h100: self.h100,
            h50: self.h50,
            h0: self.h0,
            team: self.team,
            position: self.position,
            is_passing: self.is_passing,
        }
    }
}

impl View for Leaderboard {
    type V = LeaderboardV;

    open spec fn view(&self) -> LeaderboardV {
        LeaderboardV {
            has_leaderboard: self.has_leaderboard,
            is_visible: self.is_visible,
            ourplayer: self.ourplayer@,
            slots: (match self.slots {
                Some(v) => Some(Seq::new(v@.len(), |i: int| v@[i]@)),
                None => None,
            }),
        }
    }
}

impl View for Gameplay {
    type V = GameplayV;

    open spec fn view(&self) -> GameplayV {
        GameplayV {
            game_mode: self.game_mode,
            name: (match self.name {
                Some(s) => Some(s@),
                None => None,
            }),
            score: self.score,
            accuracy: self.accuracy,
            combo: self.combo,
            hp: self.hp,
            hits: self.hits@,
            pp: self.pp,
            key_overlay: self.key_overlay,
            leaderboard: self.leaderboard@,
        }
    }
}

impl View for ResultsScreen {
    type V = ResultsScreenV;

    open spec fn view(&self) -> ResultsScreenV {
        ResultsScreenV {
            name: self.name@,
            score: self.score,
            max_combo: self.max_combo,
            mods: self.mods@,
            n300: self.n300,
            geki: self.geki,
            n100: self.n100,
            katu: self.katu,
            n50: self.n50,
            n0: self.n0,
        }
    }
}

impl View for Gosumemory {
    type V = GosumemoryV;

    open spec fn view(&self) -> GosumemoryV {
        GosumemoryV {
            settings: self.settings@,
            menu: self.menu@,
            gameplay: self.gameplay@,
            results_screen: self.results_screen@,
        }
    }
}

/// The empty form of this entity: strings empty, numerics zero, optional
/// sequences absent.
pub open spec fn spec_folders_empty() -> FoldersV {
    FoldersV {
        game: Seq::<char>::empty(),
        skin: Seq::<char>::empty(),
        songs: Seq::<char>::empty(),
    }
}

impl Folders {
    /// The empty form, for initialization before any message has arrived.
    pub fn empty() -> (r: Folders)
        ensures
            r@ == spec_folders_empty(),
    {
        Folders {
            game: String::new(),
            skin: String::new(),
            songs: String::new(),
        }
    }
}

/// The empty form of this entity: strings empty, numerics zero, optional
/// sequences absent.
pub open spec fn spec_settings_empty() -> SettingsV {
    SettingsV {
        show_interface: false,
        folders: spec_folders_empty(),
    }
}

impl Settings {
    /// The empty form, for initialization before any message has arrived.
    pub fn empty() -> (r: Settings)
        ensures
            r@ == spec_settings_empty(),
    {
        Settings {
            show_interface: false,
            folders: Folders::empty(),
        }
    }
}

/// The empty form of this entity: strings empty, numerics zero, optional
/// sequences absent.
pub open spec fn spec_main_menu_empty() -> MainMenu {
    MainMenu {
        bass_density: (Decimal { neg: false, mantissa: 0, scale: 0, frac: false }),
    }
}

impl MainMenu {
    /// The empty form, for initialization before any message has arrived.
    pub fn empty() -> (r: MainMenu)
        ensures
            r == spec_main_menu_empty(),
    {
        MainMenu {
            bass_density: (Decimal { neg: false, mantissa: 0, scale: 0, frac: false }),
        }
    }
}

/// The empty form of this entity: strings empty, numerics zero, optional
/// sequences absent.
pub open spec fn spec_time_empty() -> Time {
    Time {
        first_obj: 0,
        current: 0,
        full: 0,
        mp3: 0,
    }
}

impl Time {
    /// The empty form, for initialization before any message has arrived.
    pub fn empty() -> (r: Time)
        ensures
            r == spec_time_empty(),
    {
        Time {
            first_obj: 0,
            current: 0,
            full: 0,
            mp3: 0,
        }
    }
}

/// The empty form of this entity: strings empty, numerics zero, optional
/// sequences absent.
pub open spec fn spec_metadata_empty() -> MetadataV {
    MetadataV {
        artist: Seq::<char>::empty(),
        artist_original: Seq::<char>::empty(),
        title: Seq::<char>::empty(),
        title_original: Seq::<char>::empty(),
        mapper: Seq::<char>::empty(),
        difficulty: Seq::<char>::empty(),
    }
}

impl Metadata {
    /// The empty form, for initialization before any message has arrived.
    pub fn empty() -> (r: Metadata)
        ensures
            r@ == spec_metadata_empty(),
    {
        Metadata {
            artist: String::new(),
            artist_original: String::new(),
            title: String::new(),
            title_original: String::new(),
            mapper: String::new(),
            difficulty: String::new(),
        }
    }
}

/// The empty form of this entity: strings empty, numerics zero, optional
/// sequences absent.
pub open spec fn spec_bpm_empty() -> Bpm {
    Bpm {
        min: 0,
        max: 0,
    }
}

impl Bpm {
    /// The empty form, for initialization before any message has arrived.
    pub fn empty() -> (r: Bpm)
        ensures
            r == spec_bpm_empty(),
    {
        Bpm {
            min: 0,
            max: 0,
        }
    }
}

/// The empty form of this entity: strings empty, numerics zero, optional
/// sequences absent.
pub open spec fn spec_stats_empty() -> Stats {
    Stats {
        ar: (Decimal { neg: false, mantissa: 0, scale: 0, frac: false }),
        cs: (Decimal { neg: false, mantissa: 0, scale: 0, frac: false }),
        od: (Decimal { neg: false, mantissa: 0, scale: 0, frac: false }),
        hp: (Decimal { neg: false, mantissa: 0, scale: 0, frac: false }),
        sr: (Decimal { neg: false, mantissa: 0, scale: 0, frac: false }),
        bpm: spec_bpm_empty(),
        max_combo: 0,
        full_sr: (Decimal { neg: false, mantissa: 0, scale: 0, frac: false }),
        memory_ar: (Decimal { neg: false, mantissa: 0, scale: 0, frac: false }),
        memory_cs: (Decimal { neg: false, mantissa: 0, scale: 0, frac: false }),
        memory_od: (Decimal { neg: false, mantissa: 0, scale: 0, frac: false }),
        memory_hp: (Decimal { neg: false, mantissa: 0, scale: 0, frac: false }),
    }
}

impl Stats {
    /// The empty form, for initialization before any message has arrived.
    pub fn empty() -> (r: Stats)
        ensures
            r == spec_stats_empty(),
    {
        Stats {
            ar: (Decimal { neg: false, mantissa: 0, scale: 0, frac: false }),
            cs: (Decimal { neg: false, mantissa: 0, scale: 0, frac: false }),
            od: (Decimal { neg: false, mantissa: 0, scale: 0, frac: false }),
            hp: (Decimal { neg: false, mantissa: 0, scale: 0, frac: false }),
            sr: (Decimal { neg: false, mantissa: 0, scale: 0, frac: false }),
            bpm: Bpm::empty(),
            max_combo: 0,
            full_sr: (Decimal { neg: false, mantissa: 0, scale: 0, frac: false }),
            memory_ar: (Decimal { neg: false, mantissa: 0, scale: 0, frac: false }),
            memory_cs: (Decimal { neg: false, mantissa: 0, scale: 0, frac: false }),
            memory_od: (Decimal { neg: false, mantissa: 0, scale: 0, frac: false }),
            memory_hp: (Decimal { neg: false, mantissa: 0, scale: 0, frac: false }),
        }
    }
}

/// The empty form of this entity: strings empty, numerics zero, optional
/// sequences absent.
pub open spec fn spec_path_empty() -> PathV {
    PathV {
        full: Seq::<char>::empty(),
        folder: Seq::<char>::empty(),
        file: Seq::<char>::empty(),
        bg: Seq::<char>::empty(),
        audio: Seq::<char>::empty(),
    }
}

impl Path {
    /// The empty form, for initialization before any message has arrived.
    pub fn empty() -> (r: Path)
        ensures
            r@ == spec_path_empty(),
    {
        Path {
            full: String::new(),
            folder: String::new(),
            file: String::new(),
            bg: String::new(),
            audio: String::new(),
        }
    }
}

/// The empty form of this entity: strings empty, numerics zero, optional
/// sequences absent.
pub open spec fn spec_mods_empty() -> ModsV {
    ModsV {
        num: 0,
        str: Seq::<char>::empty(),
    }
}

impl Mods {
    /// The empty form, for initialization before any message has arrived.
    pub fn empty() -> (r: Mods)
        ensures
            r@ == spec_mods_empty(),
    {
        Mods {
            num: 0,
            str: String::new(),
        }
    }
}

/// The empty form of this entity: strings empty, numerics zero, optional
/// sequences absent.
pub open spec fn spec_pp_empty() -> PpV {
    PpV {
        n100: 0,
        n99: 0,
        n98: 0,
        n97: 0,
        n96: 0,
        n95: 0,
        strains: None,
    }
}

impl Pp {
    /// The empty form, for initialization before any message has arrived.
    pub fn empty() -> (r: Pp)
        ensures
            r@ == spec_pp_empty(),
    {
        Pp {
            n100: 0,
            n99: 0,
            n98: 0,
            n97: 0,
            n96: 0,
            n95: 0,
            strains: None,
        }
    }
}

/// The empty form of this entity: strings empty, numerics zero, optional
/// sequences absent.
pub open spec fn spec_bm_empty() -> BmV {
    BmV {
        time: spec_time_empty(),
        id: 0,
        set: 0,
        md5: Seq::<char>::empty(),
        ranked_status: 0,
        metadata: spec_metadata_empty(),
        stats: spec_stats_empty(),
        path: spec_path_empty(),
    }
}

impl Bm {
    /// The empty form, for initialization before any message has arrived.
    pub fn empty() -> (r: Bm)
        ensures
            r@ == spec_bm_empty(),
    {
        Bm {
            time: Time::empty(),
            id: 0,
            set: 0,
            md5: String::new(),
            ranked_status: 0,
            metadata: Metadata::empty(),
            stats: Stats::empty(),
            path: Path::empty(),
        }
    }
}

/// The empty form of this entity: strings empty, numerics zero, optional
/// sequences absent.
pub open spec fn spec_menu_empty() -> MenuV {
    MenuV {
        main_menu: spec_main_menu_empty(),
        state: 0,
        game_mode: 0,
        is_chat_enabled: false,
        bm: spec_bm_empty(),
        mods: spec_mods_empty(),
        pp: spec_pp_empty(),
    }
}

impl Menu {
    /// The empty form, for initialization before any message has arrived.
    pub fn empty() -> (r: Menu)
        ensures
            r@ == spec_menu_empty(),
    {
        Menu {
            main_menu: MainMenu::empty(),
            state: 0,
            game_mode: 0,
            is_chat_enabled: false,
            bm: Bm::empty(),
            mods: Mods::empty(),
            pp: Pp::empty(),
        }
    }
}

/// The empty form of this entity: strings empty, numerics zero, optional
/// sequences absent.
pub open spec fn spec_combo_empty() -> Combo {
    Combo {
        current: 0,
        max: 0,
    }
}

impl Combo {
    /// The empty form, for initialization before any message has arrived.
    pub fn empty() -> (r: Combo)
        ensures
            r == spec_combo_empty(),
    {
        Combo {
            current: 0,
            max: 0,
        }
    }
}

/// The empty form of this entity: strings empty, numerics zero, optional
/// sequences absent.
pub open spec fn spec_hp_empty() -> Hp {
    Hp {
        normal: (Decimal { neg: false, mantissa: 0, scale: 0, frac: false }),
        smooth: (Decimal { neg: false, mantissa: 0, scale: 0, frac: false }),
    }
}

impl Hp {
    /// The empty form, for initialization before any message has arrived.
    pub fn empty() -> (r: Hp)
        ensures
            r == spec_hp_empty(),
    {
        Hp {
            normal: (Decimal { neg: false, mantissa: 0, scale: 0, frac: false }),
            smooth: (Decimal { neg: false, mantissa: 0, scale: 0, frac: false }),
        }
    }
}

/// The empty form of this entity: strings empty, numerics zero, optional
/// sequences absent.
pub open spec fn spec_grade_empty() -> GradeV {
    GradeV {
        current: Seq::<char>::empty(),
        max_this_play: Seq::<char>::empty(),
    }
}

impl Grade {
    /// The empty form, for initialization before any message has arrived.
    pub fn empty() -> (r: Grade)
        ensures
            r@ == spec_grade_empty(),
    {
        Grade {
            current: String::new(),
            max_this_play: String::new(),
        }
    }
}

/// The empty form of this entity: strings empty, numerics zero, optional
/// sequences absent.
pub open spec fn spec_hits_empty() -> HitsV {
    HitsV {
        n300: 0,
        geki: 0,
        n100: 0,
        katu: 0,
        n50: 0,
        n0: 0,
        slider_breaks: 0,
        grade: spec_grade_empty(),
        unstable_rate: (Decimal { neg: false, mantissa: 0, scale: 0, frac: false }),
        hit_error_array: None,
    }
}

impl Hits {
    /// The empty form, for initialization before any message has arrived.
    pub fn empty() -> (r: Hits)
        ensures
            r@ == spec_hits_empty(),
    {
        Hits {
            n300: 0,
            geki: 0,
            n100: 0,
            katu: 0,
            n50: 0,
            n0: 0,
            slider_breaks: 0,
            grade: Grade::empty(),
            unstable_rate: (Decimal { neg: false, mantissa: 0, scale: 0, frac: false }),
            hit_error_array: None,
        }
    }
}

/// The empty form of this entity: strings empty, numerics zero, optional
/// sequences absent.
pub open spec fn spec_pp2_empty() -> Pp2 {
    Pp2 {
        current: 0,
        fc: 0,
        max_this_play: 0,
    }
}

impl Pp2 {
    /// The empty form, for initialization before any message has arrived.
    pub fn empty() -> (r: Pp2)
        ensures
            r == spec_pp2_empty(),
    {
        Pp2 {
            current: 0,
            fc: 0,
            max_this_play: 0,
        }
    }
}

/// The empty form of this entity: strings empty, numerics zero, optional
/// sequences absent.
pub open spec fn spec_key_overlay_button_empty() -> KeyOverlayButton {
    KeyOverlayButton {
        is_pressed: false,
        count: 0,
    }
}

impl KeyOverlayButton {
    /// The empty form, for initialization before any message has arrived.
    pub fn empty() -> (r: KeyOverlayButton)
        ensures
            r == spec_key_overlay_button_empty(),
    {
        KeyOverlayButton {
            is_pressed: false,
            count: 0,
        }
    }
}

/// The empty form of this entity: strings empty, numerics zero, optional
/// sequences absent.
pub open spec fn spec_key_overlay_empty() -> KeyOverlay {
    KeyOverlay {
        k1: spec_key_overlay_button_empty(),
        k2: spec_key_overlay_button_empty(),
        m1: spec_key_overlay_button_empty(),
        m2: spec_key_overlay_button_empty(),
    }
}

impl KeyOverlay {
    /// The empty form, for initialization before any message has arrived.
    pub fn empty() -> (r: KeyOverlay)
        ensures
            r == spec_key_overlay_empty(),
    {
        KeyOverlay {
            k1: KeyOverlayButton::empty(),
            k2: KeyOverlayButton::empty(),
            m1: KeyOverlayButton::empty(),
            m2: KeyOverlayButton::empty(),
        }
    }
}

/// The empty form of this entity: strings empty, numerics zero, optional
/// sequences absent.
pub open spec fn spec_ourplayer_empty() -> OurplayerV {
    OurplayerV {
        name: Seq::<char>::empty(),
        score: 0,
        combo: 0,
        max_combo: 0,
        mods: Seq::<char>::empty(),
        h300: 0,
        h100: 0,
        h50: 0,
        h0: 0,
        team: 0,
        position: 0,
        is_passing: false,
    }
}

impl Ourplayer {
    /// The empty form, for initialization before any message has arrived.
    pub fn empty() -> (r: Ourplayer)
        ensures
            r@ == spec_ourplayer_empty(),
    {
        Ourplayer {
            name: String::new(),
            score: 0,
            combo: 0,
            max_combo: 0,
            mods: String::new(),
            h300: 0,
            h100: 0,
            h50: 0,
            h0: 0,
            team: 0,
            position: 0,
            is_passing: false,
        }
    }
}

/// The empty form of this entity: strings empty, numerics zero, optional
/// sequences absent.
pub open spec fn spec_leaderboard_empty() -> LeaderboardV {
    LeaderboardV {
        has_leaderboard: false,
        is_visible: false,
        ourplayer: spec_ourplayer_empty(),
        slots: None,
    }
}

impl Leaderboard {
    /// The empty form, for initialization before any message has arrived.
    pub fn empty() -> (r: Leaderboard)
        ensures
            r@ == spec_leaderboard_empty(),
    {
        Leaderboard {
            has_leaderboard: false,
            is_visible: false,
            ourplayer: Ourplayer::empty(),
            slots: None,
        }
    }
}

/// The empty form of this entity: strings empty, numerics zero, optional
/// sequences absent.
pub open spec fn spec_gameplay_empty() -> GameplayV {
    GameplayV {
        game_mode: 0,
        name: None,
        score: 0,
        accuracy: (Decimal { neg: false, mantissa: 0, scale: 0, frac: false }),
        combo: spec_combo_empty(),
        hp: spec_hp_empty(),
        hits: spec_hits_empty(),
        pp: spec_pp2_empty(),
        key_overlay: spec_key_overlay_empty(),
        leaderboard: spec_leaderboard_empty(),
    }
}

impl Gameplay {
    /// The empty form, for initialization before any message has arrived.
    pub fn empty() -> (r: Gameplay)
        ensures
            r@ == spec_gameplay_empty(),
    {
        Gameplay {
            game_mode: 0,
            name: None,
            score: 0,
            accuracy: (Decimal { neg: false, mantissa: 0, scale: 0, frac: false }),
            combo: Combo::empty(),
            hp: Hp::empty(),
            hits: Hits::empty(),
            pp: Pp2::empty(),
            key_overlay: KeyOverlay::empty(),
            leaderboard: Leaderboard::empty(),
        }
    }
}

/// The empty form of this entity: strings empty, numerics zero, optional
/// sequences absent.
pub open spec fn spec_results_screen_empty() -> ResultsScreenV {
    ResultsScreenV {
        name: Seq::<char>::empty(),
        score: 0,
        max_combo: 0,
        mods: spec_mods_empty(),
        n300: 0,
        geki: 0,
        n100: 0,
        katu: 0,
        n50: 0,
        n0: 0,
    }
}

impl ResultsScreen {
    /// The empty form, for initialization before any message has arrived.
    pub fn empty() -> (r: ResultsScreen)
        ensures
            r@ == spec_results_screen_empty(),
    {
        ResultsScreen {
            name: String::new(),
            score: 0,
            max_combo: 0,
            mods: Mods::empty(),
            n300: 0,
            geki: 0,
            n100: 0,
            katu: 0,
            n50: 0,
            n0: 0,
        }
    }
}

/// The empty form of this entity: strings empty, numerics zero, optional
/// sequences absent.
pub open spec fn spec_gosumemory_empty() -> GosumemoryV {
    GosumemoryV {
        settings: spec_settings_empty(),
        menu: spec_menu_empty(),
        gameplay: spec_gameplay_empty(),
        results_screen: spec_results_screen_empty(),
    }
}

impl Gosumemory {
    /// The empty form, for initialization before any message has arrived.
    pub fn empty() -> (r: Gosumemory)
        ensures
            r@ == spec_gosumemory_empty(),
    {
        Gosumemory {
            settings: Settings::empty(),
            menu: Menu::empty(),
            gameplay: Gameplay::empty(),
            results_screen: ResultsScreen::empty(),
        }
    }
}

} // verus!
