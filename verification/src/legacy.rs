//! The older, narrower view of the feed: beatmap metadata, a reduced set of
//! difficulty statistics, and the beatmap's file paths.  It is derived by
//! selective extraction from the full model rather than by a second
//! deserialization path.

use vstd::prelude::*;

use crate::model::{Gosumemory, Metadata};
use crate::wirenum::Decimal;

verus! {

/// The reduced difficulty statistics of the legacy view: live ("memory") OD
/// and HP, the full difficulty rating, and the BPM range.
#[derive(Clone, Copy, Debug, PartialEq)]
pub struct OsuMapStats {
    pub od: Decimal,
    pub hp: Decimal,
    pub sr: Decimal,
    pub bpmmin: i64,
    pub bpmmax: i64,
}

/// The beatmap file locations of the legacy view.
#[derive(Clone, Debug, PartialEq)]
pub struct OsuMapPath {
    pub folder: String,
    pub file: String,
    pub bg: String,
    pub audio: String,
}

/// The legacy subset of the full model.
#[derive(Clone, Debug, PartialEq)]
pub struct OsuMap {
    pub metadata: Metadata,
    pub stats: OsuMapStats,
    pub path: OsuMapPath,
}

impl OsuMap {
    /// The legacy view of a full model: `od` and `hp` are the live "memory"
    /// variants, `sr` is the full difficulty rating.
    pub fn of_full(m: &Gosumemory) -> (r: OsuMap)
        ensures
            r.metadata@ == m.menu.bm.metadata@,
            r.stats.od == m.menu.bm.stats.memory_od,
            r.stats.hp == m.menu.bm.stats.memory_hp,
            r.stats.sr == m.menu.bm.stats.full_sr,
            r.stats.bpmmin == m.menu.bm.stats.bpm.min,
            r.stats.bpmmax == m.menu.bm.stats.bpm.max,
            r.path.folder@ == m.menu.bm.path.folder@,
            r.path.file@ == m.menu.bm.path.file@,
            r.path.bg@ == m.menu.bm.path.bg@,
            r.path.audio@ == m.menu.bm.path.audio@,
    {
        OsuMap {
            metadata: Metadata {
                artist: m.menu.bm.metadata.artist.clone(),
                artist_original: m.menu.bm.metadata.artist_original.clone(),
                title: m.menu.bm.metadata.title.clone(),
                title_original: m.menu.bm.metadata.title_original.clone(),
                mapper: m.menu.bm.metadata.mapper.clone(),
                difficulty: m.menu.bm.metadata.difficulty.clone(),
            },
            stats: OsuMapStats {
                od: m.menu.bm.stats.memory_od,
                hp: m.menu.bm.stats.memory_hp,
                sr: m.menu.bm.stats.full_sr,
                bpmmin: m.menu.bm.stats.bpm.min,
                bpmmax: m.menu.bm.stats.bpm.max,
            },
            path: OsuMapPath {
                folder: m.menu.bm.path.folder.clone(),
                file: m.menu.bm.path.file.clone(),
                bg: m.menu.bm.path.bg.clone(),
                audio: m.menu.bm.path.audio.clone(),
            },
        }
    }
}

} // verus!
