//! The persisted document, its conversion to and from the game state, the
//! migration of legacy documents, and the sanitation pass that repairs
//! out-of-range fields after every load and import.
use vstd::prelude::*;
use crate::state::{
    GameModel, GameState, OwnedCreature, PityCounters, DEFAULT_MUSIC_VOLUME_BITS,
    DEFAULT_SIZE_INDEX, SIZE_PRESET_COUNT, default_close_behavior, default_day_night_cycle,
};
use crate::strmap::StrMap;

verus! {

/// Largest value a pool may hold after sanitation.
pub const MAX_POOL_ENERGY: u32 = 1000;
/// Schema version written into every saved document.
pub const SAVE_VERSION: u32 = 2;

/// An `f32` bit pattern whose value is finite and within `[0, 1]`
/// (negative zero included).
pub open spec fn volume_valid(bits: u32) -> bool {
    bits <= 0x3F80_0000 || bits == 0x8000_0000
}

/// An `f64` bit pattern whose exponent is not all ones: neither infinite
/// nor NaN.
pub open spec fn coord_finite(bits: u64) -> bool {
    (bits / 0x10_0000_0000_0000) % 0x800 != 0x7FF
}

pub open spec fn known_cycle(s: Seq<char>) -> bool {
    s == "computer"@ || s == "5min"@ || s == "10min"@ || s == "60min"@ || s == "3hours"@
}

pub open spec fn known_close_behavior(s: Seq<char>) -> bool {
    s == "ask"@ || s == "hide"@ || s == "close"@
}

/// A required pool's value: absent reads as zero, and the value is capped.
pub open spec fn pool_level(p: Map<Seq<char>, u32>, name: Seq<char>) -> u32 {
    if !p.contains_key(name) {
        0
    } else if p[name] > MAX_POOL_ENERGY {
        MAX_POOL_ENERGY
    } else {
        p[name]
    }
}

/// Exactly the three required pools, each at its capped level.
pub open spec fn sane_pools(p: Map<Seq<char>, u32>) -> Map<Seq<char>, u32> {
    map![
        "typing"@ => pool_level(p, "typing"@),
        "click"@ => pool_level(p, "click"@),
        "audio"@ => pool_level(p, "audio"@),
    ]
}

/// The state after sanitation: each out-of-range or unknown setting is
/// reset to its default, pools are repaired; everything else is kept.
pub open spec fn sanitized(m: GameModel) -> GameModel {
    GameModel {
        music_volume_bits: if volume_valid(m.music_volume_bits) {
            m.music_volume_bits
        } else {
            DEFAULT_MUSIC_VOLUME_BITS
        },
        size_index: if m.size_index < SIZE_PRESET_COUNT {
            m.size_index
        } else {
            DEFAULT_SIZE_INDEX
        },
        pool_energy: sane_pools(m.pool_energy),
        day_night_cycle: if known_cycle(m.day_night_cycle) {
            m.day_night_cycle
        } else {
            "computer"@
        },
        close_behavior: if known_close_behavior(m.close_behavior) {
            m.close_behavior
        } else {
            "ask"@
        },
        position_bits: if coord_finite(m.position_bits.0) && coord_finite(m.position_bits.1) {
            m.position_bits
        } else {
            (0, 0)
        },
        ..m
    }
}

pub(crate) fn string_is(s: &String, lit: &str) -> (b: bool)
    ensures
        b == (s@ == lit@),
{
    let l = lit.to_owned();
    *s == l
}

fn read_pool_level(p: &StrMap<u32>, name: &str) -> (v: u32)
    ensures
        v == pool_level(p@, name@),
{
    match p.get(name) {
        Some(v) => if *v > MAX_POOL_ENERGY {
            MAX_POOL_ENERGY
        } else {
            *v
        },
        None => 0,
    }
}

pub fn is_valid_volume(bits: u32) -> (b: bool)
    ensures
        b == volume_valid(bits),
{
    bits <= 0x3F80_0000 || bits == 0x8000_0000
}

pub fn is_finite_coord(bits: u64) -> (b: bool)
    ensures
        b == coord_finite(bits),
{
    (bits / 0x10_0000_0000_0000) % 0x800 != 0x7FF
}

/// Repairs every field that is out of range or unrecognised, and never
/// fails. Applied after every load and every import.
pub fn sanitize(state: &mut GameState)
    ensures
        final(state)@ == sanitized(old(state)@),
{
    if !is_valid_volume(state.music_volume_bits) {
        state.music_volume_bits = DEFAULT_MUSIC_VOLUME_BITS;
    }
    if state.size_index >= SIZE_PRESET_COUNT {
        state.size_index = DEFAULT_SIZE_INDEX;
    }
    let typing = read_pool_level(&state.pool_energy, "typing");
    let click = read_pool_level(&state.pool_energy, "click");
    let audio = read_pool_level(&state.pool_energy, "audio");
    let mut pools = StrMap::new();
    pools.insert("typing".to_owned(), typing);
    pools.insert("click".to_owned(), click);
    pools.insert("audio".to_owned(), audio);
    proof {
        assert(pools@ =~= sane_pools(old(state)@.pool_energy));
    }
    state.pool_energy = pools;
    let cycle = &state.day_night_cycle;
    if !(string_is(cycle, "computer") || string_is(cycle, "5min") || string_is(cycle, "10min")
        || string_is(cycle, "60min") || string_is(cycle, "3hours")) {
        state.day_night_cycle = default_day_night_cycle();
    }
    let behavior = &state.close_behavior;
    if !(string_is(behavior, "ask") || string_is(behavior, "hide") || string_is(behavior, "close")) {
        state.close_behavior = default_close_behavior();
    }
    if !(is_finite_coord(state.position_bits.0) && is_finite_coord(state.position_bits.1)) {
        state.position_bits = (0, 0);
    }
    proof {
        assert(state@ == sanitized(old(state)@));
    }
}

/// Sanitation is idempotent: a sanitized state is left as it is.
pub proof fn lemma_sanitize_idempotent(m: GameModel)
    ensures
        sanitized(sanitized(m)) == sanitized(m),
{
    reveal_strlit("typing");
    reveal_strlit("click");
    reveal_strlit("audio");
    let p = sanitized(m).pool_energy;
    assert(sane_pools(p) =~= p);
}

pub struct SaveMeta {
    pub created: String,
    pub last_saved: String,
    pub app_version: String,
}

pub struct SaveProgression {
    pub pool_energy: StrMap<u32>,
    /// The single energy value of legacy documents, read but never written.
    pub energy: Option<u32>,
    pub total_discoveries: u32,
    pub pity: PityCounters,
}

/// Display settings as stored; floats as their bit patterns.
pub struct SaveDisplay {
    pub position_bits: (u64, u64),
    pub size_index: usize,
    pub send_scores: bool,
    pub sound_enabled: bool,
    pub music_volume_bits: u32,
    pub day_night_cycle: String,
    pub message_bottles_enabled: bool,
    pub message_bottles_prompted: bool,
    pub close_behavior: String,
    pub hidden_creatures: Vec<String>,
}

/// The persisted document.
pub struct SaveFile {
    pub version: u32,
    pub meta: SaveMeta,
    pub collection: StrMap<OwnedCreature>,
    pub progression: SaveProgression,
    pub display: SaveDisplay,
}

/// The state a document holds, read field by field, before migration and
/// sanitation.
pub open spec fn stored_model(f: SaveFile) -> GameModel {
    GameModel {
        collection: f.collection@,
        pool_energy: f.progression.pool_energy@,
        total_discoveries: f.progression.total_discoveries,
        pity: f.progression.pity,
        position_bits: f.display.position_bits,
        size_index: f.display.size_index,
        send_scores: f.display.send_scores,
        sound_enabled: f.display.sound_enabled,
        music_volume_bits: f.display.music_volume_bits,
        day_night_cycle: f.display.day_night_cycle@,
        message_bottles_enabled: f.display.message_bottles_enabled,
        message_bottles_prompted: f.display.message_bottles_prompted,
        close_behavior: f.display.close_behavior@,
        hidden_creatures: f.display.hidden_creatures@,
    }
}

/// Pools of a document: a document without any pool is of the legacy
/// format, whose single energy value (zero if absent) goes to "typing".
pub open spec fn migrated_pools(p: Map<Seq<char>, u32>, legacy: Option<u32>) -> Map<Seq<char>, u32> {
    if p == Map::<Seq<char>, u32>::empty() {
        map![
            "typing"@ => match legacy {
                Some(e) => e,
                None => 0u32,
            },
            "click"@ => 0u32,
            "audio"@ => 0u32,
        ]
    } else {
        p
    }
}

/// The state that loading a document yields: migrated, then sanitized.
pub open spec fn loaded_model(f: SaveFile) -> GameModel {
    sanitized(
        GameModel {
            pool_energy: migrated_pools(f.progression.pool_energy@, f.progression.energy),
            ..stored_model(f)
        },
    )
}

/// The pools of a document, with a legacy document's single energy value
/// moved into the "typing" pool.
pub fn migrate_pool_energy(pools: StrMap<u32>, legacy: Option<u32>) -> (m: StrMap<u32>)
    ensures
        m@ == migrated_pools(pools@, legacy),
{
    if pools.is_empty() {
        let mut m = StrMap::new();
        let typing = match legacy {
            Some(e) => e,
            None => 0,
        };
        m.insert("typing".to_owned(), typing);
        m.insert("click".to_owned(), 0);
        m.insert("audio".to_owned(), 0);
        m
    } else {
        pools
    }
}

impl GameState {
    /// The state a parsed document loads to: legacy pools migrated, then
    /// sanitized.
    pub fn from_save_file(f: SaveFile) -> (s: GameState)
        ensures
            s@ == loaded_model(f),
    {
        let SaveFile { version: _, meta: _, collection, progression, display } = f;
        let pool_energy = migrate_pool_energy(progression.pool_energy, progression.energy);
        let mut s = GameState {
            collection,
            pool_energy,
            total_discoveries: progression.total_discoveries,
            pity: progression.pity,
            position_bits: display.position_bits,
            size_index: display.size_index,
            send_scores: display.send_scores,
            sound_enabled: display.sound_enabled,
            music_volume_bits: display.music_volume_bits,
            day_night_cycle: display.day_night_cycle,
            message_bottles_enabled: display.message_bottles_enabled,
            message_bottles_prompted: display.message_bottles_prompted,
            close_behavior: display.close_behavior,
            hidden_creatures: display.hidden_creatures,
        };
        sanitize(&mut s);
        s
    }

    /// The document that saving this state writes, with the given creation
    /// and save timestamps and application version. No legacy energy value
    /// is written.
    pub fn into_save_file(self, created: String, last_saved: String, app_version: String) -> (f: SaveFile)
        ensures
            stored_model(f) == self@,
            f.progression.energy.is_none(),
            f.version == SAVE_VERSION,
            f.meta.created@ == created@,
            f.meta.last_saved@ == last_saved@,
            f.meta.app_version@ == app_version@,
    {
        SaveFile {
            version: SAVE_VERSION,
            meta: SaveMeta { created, last_saved, app_version },
            collection: self.collection,
            progression: SaveProgression {
                pool_energy: self.pool_energy,
                energy: None,
                total_discoveries: self.total_discoveries,
                pity: self.pity,
            },
            display: SaveDisplay {
                position_bits: self.position_bits,
                size_index: self.size_index,
                send_scores: self.send_scores,
                sound_enabled: self.sound_enabled,
                music_volume_bits: self.music_volume_bits,
                day_night_cycle: self.day_night_cycle,
                message_bottles_enabled: self.message_bottles_enabled,
                message_bottles_prompted: self.message_bottles_prompted,
                close_behavior: self.close_behavior,
                hidden_creatures: self.hidden_creatures,
            },
        }
    }
}

/// Loading what saving wrote gives back the sanitized state: collection,
/// pools, discovery count, pity and display settings. A state that is
/// already sanitized, as every loaded or imported state is, comes back
/// unchanged.
pub proof fn lemma_save_load_round_trip(f: SaveFile, s: GameModel)
    requires
        stored_model(f) == s,
        f.progression.energy.is_none(),
    ensures
        loaded_model(f) == sanitized(s),
        sanitized(s) == s ==> loaded_model(f) == s,
{
    reveal_strlit("typing");
    reveal_strlit("click");
    reveal_strlit("audio");
    let migrated = GameModel {
        pool_energy: migrated_pools(f.progression.pool_energy@, f.progression.energy),
        ..stored_model(f)
    };
    assert(sane_pools(migrated.pool_energy) =~= sane_pools(s.pool_energy));
    assert(sanitized(migrated) == sanitized(s));
}

/// The creation timestamp recorded in a saved document's text: the string
/// at `meta.created`, if the text is JSON and holds one there.
pub uninterp spec fn created_in(text: Seq<char>) -> Option<Seq<char>>;

/// Relies on `serde_json::from_str::<serde_json::Value>` and
/// `Value::pointer`: parses the text and reads the value at
/// `/meta/created`; `None` when the text is not JSON or holds no string
/// there. The result depends on the text alone.
#[verifier::external_body]
fn created_field(text: &str) -> (r: Option<String>)
    ensures
        match r {
            Some(c) => created_in(text@) == Some(c@),
            None => created_in(text@).is_none(),
        },
{
    let value: serde_json::Value = match serde_json::from_str(text) {
        Ok(v) => v,
        Err(_) => return None,
    };
    match value.pointer("/meta/created") {
        Some(serde_json::Value::String(c)) => Some(c.clone()),
        _ => None,
    }
}

/// The creation timestamp to write: the one found in the existing document,
/// else `now`.
pub fn created_or_now(found: Option<String>, now: String) -> (r: String)
    ensures
        r@ == match found {
            Some(c) => c@,
            None => now@,
        },
{
    match found {
        Some(c) => c,
        None => now,
    }
}

/// The creation timestamp for a save: kept from the text of the document
/// being replaced, if there is one and it records one, else `now`.
pub fn creation_timestamp(existing: Option<&str>, now: String) -> (r: String)
    ensures
        r@ == match existing {
            Some(text) => match created_in(text@) {
                Some(c) => c,
                None => now@,
            },
            None => now@,
        },
{
    match existing {
        Some(text) => created_or_now(created_field(text), now),
        None => now,
    }
}

/// Where a load reads from.
#[derive(Clone, Copy, Debug, PartialEq, Eq, Structural)]
pub enum LoadSource {
    Main,
    Backup,
    Fresh,
}

/// The main file if it exists, else the backup if it exists, else a fresh
/// default state. A main file that fails to parse does not fall back.
pub fn load_source(main_exists: bool, backup_exists: bool) -> (r: LoadSource)
    ensures
        r == if main_exists {
            LoadSource::Main
        } else if backup_exists {
            LoadSource::Backup
        } else {
            LoadSource::Fresh
        },
{
    if main_exists {
        LoadSource::Main
    } else if backup_exists {
        LoadSource::Backup
    } else {
        LoadSource::Fresh
    }
}

} // verus!
