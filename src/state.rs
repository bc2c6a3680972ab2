//! The game state: owned creatures, per-source energy pools, pity counters,
//! discovery count and display settings.
use vstd::prelude::*;
use crate::rarity::{Rarity, LEGENDARY_CAP, EPIC_CAP, RARE_CAP, UNCOMMON_CAP};
use crate::strmap::{Duplicate, StrMap};

verus! {

/// A creature in the collection: how often it was awarded and when first.
#[derive(Debug)]
pub struct OwnedCreature {
    pub count: u32,
    pub first_seen: String,
}

impl Duplicate for OwnedCreature {
    fn duplicate(&self) -> (r: OwnedCreature) {
        OwnedCreature { count: self.count, first_seen: self.first_seen.clone() }
    }
}

/// Consecutive misses per tier; a hit on a tier resets its counter.
#[derive(Clone, Copy, Debug, PartialEq, Eq, Structural)]
pub struct PityCounters {
    pub legendary: u32,
    pub epic: u32,
    pub rare: u32,
    pub uncommon: u32,
}

impl Default for PityCounters {
    fn default() -> (p: Self)
        ensures
            p == (PityCounters { legendary: 0, epic: 0, rare: 0, uncommon: 0 }),
    {
        PityCounters { legendary: 0, epic: 0, rare: 0, uncommon: 0 }
    }
}


impl PityCounters {
    pub open spec fn within_caps(self) -> bool {
        &&& self.legendary <= LEGENDARY_CAP
        &&& self.epic <= EPIC_CAP
        &&& self.rare <= RARE_CAP
        &&& self.uncommon <= UNCOMMON_CAP
    }

    /// The counter of a tier; `Common` has none and reads as zero.
    pub open spec fn counter(self, r: Rarity) -> u32 {
        match r {
            Rarity::Common => 0,
            Rarity::Uncommon => self.uncommon,
            Rarity::Rare => self.rare,
            Rarity::Epic => self.epic,
            Rarity::Legendary => self.legendary,
        }
    }
}

/// Bit pattern of the default music volume, the `f32` value 0.08.
pub const DEFAULT_MUSIC_VOLUME_BITS: u32 = 0x3DA3_D70A;
/// Index of the default size preset ("Medium").
pub const DEFAULT_SIZE_INDEX: usize = 1;
/// Number of window size presets.
pub const SIZE_PRESET_COUNT: usize = 8;

/// The whole state of a game. Floating-point settings are held as their
/// IEEE-754 bit patterns (`f32::to_bits`, `f64::to_bits`), which is all
/// the engine needs to validate them.
pub struct GameState {
    pub collection: StrMap<OwnedCreature>,
    pub pool_energy: StrMap<u32>,
    pub total_discoveries: u32,
    pub pity: PityCounters,
    pub position_bits: (u64, u64),
    pub size_index: usize,
    pub send_scores: bool,
    pub sound_enabled: bool,
    pub music_volume_bits: u32,
    pub day_night_cycle: String,
    pub message_bottles_enabled: bool,
    pub message_bottles_prompted: bool,
    pub close_behavior: String,
    pub hidden_creatures: Vec<String>,
}

/// The mathematical value of a `GameState`.
pub struct GameModel {
    pub collection: Map<Seq<char>, OwnedCreature>,
    pub pool_energy: Map<Seq<char>, u32>,
    pub total_discoveries: u32,
    pub pity: PityCounters,
    pub position_bits: (u64, u64),
    pub size_index: usize,
    pub send_scores: bool,
    pub sound_enabled: bool,
    pub music_volume_bits: u32,
    pub day_night_cycle: Seq<char>,
    pub message_bottles_enabled: bool,
    pub message_bottles_prompted: bool,
    pub close_behavior: Seq<char>,
    pub hidden_creatures: Seq<String>,
}

impl View for GameState {
    type V = GameModel;

    open spec fn view(&self) -> GameModel {
        GameModel {
            collection: self.collection@,
            pool_energy: self.pool_energy@,
            total_discoveries: self.total_discoveries,
            pity: self.pity,
            position_bits: self.position_bits,
            size_index: self.size_index,
            send_scores: self.send_scores,
            sound_enabled: self.sound_enabled,
            music_volume_bits: self.music_volume_bits,
            day_night_cycle: self.day_night_cycle@,
            message_bottles_enabled: self.message_bottles_enabled,
            message_bottles_prompted: self.message_bottles_prompted,
            close_behavior: self.close_behavior@,
            hidden_creatures: self.hidden_creatures@,
        }
    }
}

/// The three energy pools, each at zero.
pub open spec fn empty_pools() -> Map<Seq<char>, u32> {
    map!["typing"@ => 0u32, "click"@ => 0u32, "audio"@ => 0u32]
}

/// The pools with every value set to zero, keys kept.
pub open spec fn zeroed_pools(p: Map<Seq<char>, u32>) -> Map<Seq<char>, u32> {
    Map::new(|k: Seq<char>| p.contains_key(k), |k: Seq<char>| 0u32)
}

pub open spec fn default_model() -> GameModel {
    GameModel {
        collection: Map::empty(),
        pool_energy: empty_pools(),
        total_discoveries: 0,
        pity: PityCounters { legendary: 0, epic: 0, rare: 0, uncommon: 0 },
        position_bits: (0, 0),
        size_index: DEFAULT_SIZE_INDEX,
        send_scores: true,
        sound_enabled: false,
        music_volume_bits: DEFAULT_MUSIC_VOLUME_BITS,
        day_night_cycle: "computer"@,
        message_bottles_enabled: false,
        message_bottles_prompted: false,
        close_behavior: "ask"@,
        hidden_creatures: Seq::empty(),
    }
}

pub fn default_pool_energy() -> (m: StrMap<u32>)
    ensures
        m@ == empty_pools(),
{
    let mut m = StrMap::new();
    m.insert("typing".to_owned(), 0);
    m.insert("click".to_owned(), 0);
    m.insert("audio".to_owned(), 0);
    m
}

pub fn default_day_night_cycle() -> (s: String)
    ensures
        s@ == "computer"@,
{
    "computer".to_owned()
}

pub fn default_close_behavior() -> (s: String)
    ensures
        s@ == "ask"@,
{
    "ask".to_owned()
}

impl Default for GameState {
    fn default() -> (s: Self)
        ensures
            s@ == default_model(),
    {
        GameState {
            collection: StrMap::new(),
            pool_energy: default_pool_energy(),
            total_discoveries: 0,
            pity: PityCounters::default(),
            position_bits: (0, 0),
            size_index: DEFAULT_SIZE_INDEX,
            send_scores: true,
            sound_enabled: false,
            music_volume_bits: DEFAULT_MUSIC_VOLUME_BITS,
            day_night_cycle: default_day_night_cycle(),
            message_bottles_enabled: false,
            message_bottles_prompted: false,
            close_behavior: default_close_behavior(),
            hidden_creatures: Vec::new(),
        }
    }
}

/// An equal copy of a list of strings.
pub fn duplicate_strings(v: &Vec<String>) -> (r: Vec<String>)
    ensures
        r@ == v@,
{
    let mut r: Vec<String> = Vec::new();
    let mut i: usize = 0;
    while i < v.len()
        invariant
            i <= v.len(),
            r.len() == i,
            forall|j: int| 0 <= j < i ==> r[j] == v[j],
        decreases v.len() - i,
    {
        r.push(v[i].clone());
        i = i + 1;
    }
    assert(r@ =~= v@);
    r
}

impl GameState {
    /// An equal, independent copy of the state.
    pub fn duplicate(&self) -> (r: GameState)
        ensures
            r@ == self@,
    {
        GameState {
            collection: self.collection.duplicate(),
            pool_energy: self.pool_energy.duplicate(),
            total_discoveries: self.total_discoveries,
            pity: self.pity,
            position_bits: self.position_bits,
            size_index: self.size_index,
            send_scores: self.send_scores,
            sound_enabled: self.sound_enabled,
            music_volume_bits: self.music_volume_bits,
            day_night_cycle: self.day_night_cycle.clone(),
            message_bottles_enabled: self.message_bottles_enabled,
            message_bottles_prompted: self.message_bottles_prompted,
            close_behavior: self.close_behavior.clone(),
            hidden_creatures: duplicate_strings(&self.hidden_creatures),
        }
    }

    /// Clears the collection and the progression: every pool to zero (its
    /// keys kept), no discoveries, fresh pity. Display settings stay.
    pub fn reset_progress(&mut self)
        ensures
            final(self)@ == (GameModel {
                collection: Map::empty(),
                pool_energy: zeroed_pools(old(self)@.pool_energy),
                total_discoveries: 0,
                pity: PityCounters { legendary: 0, epic: 0, rare: 0, uncommon: 0 },
                ..old(self)@
            }),
    {
        self.collection.clear();
        self.pool_energy.fill(0);
        assert(self.pool_energy@ =~= zeroed_pools(old(self)@.pool_energy));
        self.total_discoveries = 0;
        self.pity = PityCounters::default();
    }

    /// Turns message-in-a-bottle interactions on or off; once `prompted` is
    /// set it stays set.
    pub fn set_message_bottles_preferences(&mut self, enabled: bool, prompted: bool)
        ensures
            final(self)@ == (GameModel {
                message_bottles_enabled: enabled,
                message_bottles_prompted: old(self).message_bottles_prompted || prompted,
                ..old(self)@
            }),
    {
        self.message_bottles_enabled = enabled;
        if prompted {
            self.message_bottles_prompted = true;
        }
    }
}

} // verus!
