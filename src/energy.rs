//! The energy scheduler's decisions for one tick: converting drained input
//! counts, audio time and idle time into pool energy, resolving every pool
//! that reached the threshold into a pity roll and a catalog pick, and
//! deciding whether to persist. Time is counted in whole milliseconds.
use vstd::prelude::*;
use crate::rarity::{
    Rarity, lemma_pity_after_rolls_push, pity_after_roll, pity_after_rolls, rarity_name, roll_rarity,
};
use crate::state::{GameModel, GameState, OwnedCreature};
use crate::strmap::StrMap;

verus! {

pub const ENERGY_THRESHOLD: u32 = 40;
pub const KEYS_PER_ENERGY: u64 = 5;
pub const CLICKS_PER_ENERGY: u64 = 3;
pub const AUDIO_MS_PER_ENERGY: u64 = 8_000;
pub const IDLE_TIMEOUT_MS: u64 = 900_000;
pub const IDLE_ENERGY_INTERVAL_MS: u64 = 30_000;
pub const TICK_INTERVAL_MS: u64 = 500;
pub const AUTOSAVE_INTERVAL_MS: u64 = 60_000;

/// Relies on `chrono::Utc::now` and `DateTime::to_rfc3339`: the current
/// UTC time written as RFC 3339. Nothing is promised of its value.
#[verifier::external_body]
fn now_rfc3339() -> (s: String) {
    chrono::Utc::now().to_rfc3339()
}

/// Relies on `rand::seq::SliceRandom::choose`: `None` exactly when the
/// slice is empty, otherwise one of its elements, picked uniformly.
#[verifier::external_body]
fn choose_one(rng: &mut rand::rngs::SmallRng, items: &Vec<usize>) -> (r: Option<usize>)
    ensures
        r.is_none() == (items@.len() == 0),
        r matches Some(x) ==> items@.contains(x),
{
    rand::seq::SliceRandom::choose(items.as_slice(), rng).copied()
}

/// A catalog entry: a creature that the given pool can yield at the given
/// rarity.
#[derive(Clone, Debug)]
pub struct CreatureDef {
    pub id: String,
    pub pool: String,
    pub rarity: String,
}

pub open spec fn entry_matches(c: CreatureDef, pool: Seq<char>, rarity: Rarity) -> bool {
    c.pool@ == pool && c.rarity@ == rarity_name(rarity)
}

/// Indices, in order, of the first `n` entries that match `(pool, rarity)`.
pub open spec fn matching_indices(defs: Seq<CreatureDef>, pool: Seq<char>, rarity: Rarity, n: int) -> Seq<usize>
    decreases n,
{
    if n <= 0 {
        Seq::empty()
    } else if entry_matches(defs[n - 1], pool, rarity) {
        matching_indices(defs, pool, rarity, n - 1).push((n - 1) as usize)
    } else {
        matching_indices(defs, pool, rarity, n - 1)
    }
}

proof fn lemma_matching_indices(defs: Seq<CreatureDef>, pool: Seq<char>, rarity: Rarity, n: int)
    requires
        0 <= n <= defs.len(),
        n <= usize::MAX,
    ensures
        forall|k: int| 0 <= k < matching_indices(defs, pool, rarity, n).len() ==> {
            let i = #[trigger] matching_indices(defs, pool, rarity, n)[k];
            i < n && entry_matches(defs[i as int], pool, rarity)
        },
        (exists|i: int| 0 <= i < n && entry_matches(defs[i], pool, rarity))
            ==> matching_indices(defs, pool, rarity, n).len() > 0,
    decreases n,
{
    if n > 0 {
        lemma_matching_indices(defs, pool, rarity, n - 1);
        let prev = matching_indices(defs, pool, rarity, n - 1);
        let cur = matching_indices(defs, pool, rarity, n);
        assert forall|k: int| 0 <= k < cur.len() implies {
            let i = #[trigger] cur[k];
            i < n && entry_matches(defs[i as int], pool, rarity)
        } by {
            if k < prev.len() {
                assert(cur[k] == prev[k]);
            } else {
                assert(cur[k] == (n - 1) as usize);
            }
        }
        if !entry_matches(defs[n - 1], pool, rarity) {
            if exists|i: int| 0 <= i < n && entry_matches(defs[i], pool, rarity) {
                let i = choose|i: int| 0 <= i < n && entry_matches(defs[i], pool, rarity);
                assert(i < n - 1);
            }
        }
    }
}

/// Indices of the catalog entries for `(pool, rarity)`, in catalog order.
pub fn candidates(defs: &Vec<CreatureDef>, pool: &str, rarity: Rarity) -> (r: Vec<usize>)
    ensures
        r@ == matching_indices(defs@, pool@, rarity, defs@.len() as int),
{
    let pool_name = pool.to_owned();
    let rarity_str = rarity.as_str().to_owned();
    let mut r: Vec<usize> = Vec::new();
    let mut i: usize = 0;
    while i < defs.len()
        invariant
            i <= defs.len(),
            pool_name@ == pool@,
            rarity_str@ == rarity_name(rarity),
            r@ == matching_indices(defs@, pool@, rarity, i as int),
        decreases defs.len() - i,
    {
        if defs[i].pool == pool_name && defs[i].rarity == rarity_str {
            r.push(i);
        }
        i = i + 1;
    }
    r
}

/// Picks uniformly among the catalog entries for `(pool, rarity)`; `None`
/// when there is none. No entry is consumed.
pub fn select_creature(
    defs: &Vec<CreatureDef>,
    pool: &str,
    rarity: Rarity,
    rng: &mut rand::rngs::SmallRng,
) -> (r: Option<usize>)
    ensures
        r.is_none() == !(exists|i: int| 0 <= i < defs@.len() && entry_matches(defs@[i], pool@, rarity)),
        r matches Some(i) ==> i < defs@.len() && entry_matches(defs@[i as int], pool@, rarity),
{
    let found = candidates(defs, pool, rarity);
    let len = defs.len();
    proof {
        assert(defs@.len() == len);
        lemma_matching_indices(defs@, pool@, rarity, defs@.len() as int);
    }
    let r = choose_one(rng, &found);
    proof {
        if let Some(x) = r {
            let k = choose|k: int| 0 <= k < found@.len() && found@[k] == x;
            assert(found@[k] == x);
        }
    }
    r
}

pub open spec fn sat_inc(x: u32) -> u32 {
    if x < u32::MAX {
        (x + 1) as u32
    } else {
        x
    }
}

/// The collection after awarding creature `id`: a new entry with count one,
/// or the existing one with its count raised and its first sighting kept.
pub open spec fn awarded(before: Map<Seq<char>, OwnedCreature>, after: Map<Seq<char>, OwnedCreature>, id: Seq<char>, is_new: bool) -> bool {
    &&& is_new == !before.contains_key(id)
    &&& after.contains_key(id)
    &&& after == before.insert(id, after[id])
    &&& is_new ==> after[id].count == 1
    &&& !is_new ==> after[id] == (OwnedCreature {
        count: sat_inc(before[id].count),
        first_seen: before[id].first_seen,
    })
}

/// Awards a creature; returns whether it was not owned before.
pub fn award(collection: &mut StrMap<OwnedCreature>, id: &String) -> (is_new: bool)
    ensures
        awarded(old(collection)@, final(collection)@, id@, is_new),
{
    let current = match collection.get(id.as_str()) {
        Some(owned) => Some((owned.count, owned.first_seen.clone())),
        None => None,
    };
    match current {
        Some((count, first_seen)) => {
            let count = if count < u32::MAX {
                count + 1
            } else {
                count
            };
            collection.insert(id.clone(), OwnedCreature { count, first_seen });
            false
        },
        None => {
            collection.insert(id.clone(), OwnedCreature { count: 1, first_seen: now_rfc3339() });
            true
        },
    }
}

/// A creature awarded by a pool's roll.
#[derive(Clone, Debug)]
pub struct Discovery {
    pub creature_id: String,
    pub rarity: Rarity,
    pub is_new: bool,
}

/// What became of one pool in a tick.
pub enum Resolution {
    /// Under the threshold: nothing happened.
    Below,
    /// The pool was spent and rolled this rarity, but the catalog holds no
    /// creature for it: the roll is wasted.
    Wasted(Rarity),
    /// The pool was spent and yielded a creature.
    Found(Discovery),
}

pub open spec fn rolled(r: Resolution) -> Rarity {
    match r {
        Resolution::Below => Rarity::Common,
        Resolution::Wasted(rarity) => rarity,
        Resolution::Found(d) => d.rarity,
    }
}

pub open spec fn pool_value(p: Map<Seq<char>, u32>, name: Seq<char>) -> u32 {
    if p.contains_key(name) {
        p[name]
    } else {
        0
    }
}

/// The pools after spending `name` if it reached the threshold.
pub open spec fn discharged(p: Map<Seq<char>, u32>, name: Seq<char>) -> Map<Seq<char>, u32> {
    if pool_value(p, name) >= ENERGY_THRESHOLD {
        p.insert(name, 0)
    } else {
        p
    }
}

/// The state with the collection, pools, discovery count and pity of `after`
/// and every other field of `before`.
pub open spec fn progress_only(before: GameModel, after: GameModel) -> bool {
    after == (GameModel {
        collection: after.collection,
        pool_energy: after.pool_energy,
        total_discoveries: after.total_discoveries,
        pity: after.pity,
        ..before
    })
}

fn read_pool(pools: &StrMap<u32>, name: &str) -> (v: u32)
    ensures
        v == pool_value(pools@, name@),
{
    match pools.get(name) {
        Some(v) => *v,
        None => 0,
    }
}

/// Resolves one pool: at or over the threshold it is reset to exactly zero
/// (the overshoot is dropped), the discovery count goes up, a rarity is
/// rolled, and a creature of this pool and rarity, if the catalog has one,
/// is awarded.
pub fn resolve_pool(
    state: &mut GameState,
    pool: &str,
    defs: &Vec<CreatureDef>,
    rng: &mut rand::rngs::SmallRng,
) -> (r: Resolution)
    ensures
        progress_only(old(state)@, final(state)@),
        final(state).pool_energy@ == discharged(old(state).pool_energy@, pool@),
        pool_value(old(state).pool_energy@, pool@) < ENERGY_THRESHOLD ==> r is Below && final(state)@ == old(state)@,
        pool_value(old(state).pool_energy@, pool@) >= ENERGY_THRESHOLD ==> {
            &&& !(r is Below)
            &&& final(state).total_discoveries == sat_inc(old(state).total_discoveries)
            &&& old(state).total_discoveries < u32::MAX
                ==> final(state).total_discoveries == old(state).total_discoveries + 1
            &&& final(state).pity == pity_after_roll(old(state).pity, rolled(r))
        },
        r is Wasted ==> final(state).collection@ == old(state).collection@
            && !(exists|i: int| 0 <= i < defs@.len() && entry_matches(defs@[i], pool@, rolled(r))),
        r matches Resolution::Found(d) ==> {
            &&& awarded(old(state).collection@, final(state).collection@, d.creature_id@, d.is_new)
            &&& exists|i: int| 0 <= i < defs@.len() && defs@[i].id@ == d.creature_id@
                && entry_matches(defs@[i], pool@, d.rarity)
        },
{
    let value = read_pool(&state.pool_energy, pool);
    if value < ENERGY_THRESHOLD {
        return Resolution::Below;
    }
    state.pool_energy.insert(pool.to_owned(), 0);
    if state.total_discoveries < u32::MAX {
        state.total_discoveries = state.total_discoveries + 1;
    }
    let rarity = roll_rarity(&mut state.pity, rng);
    match select_creature(defs, pool, rarity, rng) {
        Some(i) => {
            let id = defs[i].id.clone();
            let is_new = award(&mut state.collection, &id);
            Resolution::Found(Discovery { creature_id: id, rarity, is_new })
        },
        None => Resolution::Wasted(rarity),
    }
}

/// Whole energy units in `count` events at `per` events each; the
/// remainder is dropped.
pub open spec fn units_of(count: u64, per: u64) -> u32
    recommends
        per > 0,
{
    if count / per > u32::MAX {
        u32::MAX
    } else {
        (count / per) as u32
    }
}

pub open spec fn sat_add(a: u32, b: u32) -> u32 {
    if a + b > u32::MAX {
        u32::MAX
    } else {
        (a + b) as u32
    }
}

pub open spec fn sat_add_u64(a: u64, b: u64) -> u64 {
    if a + b > u64::MAX {
        u64::MAX
    } else {
        (a + b) as u64
    }
}

pub open spec fn sat_sub_u64(a: u64, b: u64) -> u64 {
    if a >= b {
        (a - b) as u64
    } else {
        0
    }
}

/// The pools after crediting `units` to `name`; nothing changes for zero.
pub open spec fn credited(p: Map<Seq<char>, u32>, name: Seq<char>, units: u32) -> Map<Seq<char>, u32> {
    if units > 0 {
        p.insert(name, sat_add(pool_value(p, name), units))
    } else {
        p
    }
}

/// Time-keeping of the scheduler between ticks, in milliseconds of a
/// monotonic clock.
#[derive(Clone, Copy, Debug, PartialEq, Eq, Structural)]
pub struct Scheduler {
    pub last_tick_ms: u64,
    pub last_save_ms: u64,
    pub last_input_ms: u64,
    /// Audio-active time not yet turned into energy.
    pub audio_acc_ms: u64,
    /// Idle time past the timeout not yet turned into energy.
    pub idle_acc_ms: u64,
}

/// What one tick observed: the clock, the input counts drained since the
/// last tick and whether audio is playing.
#[derive(Clone, Copy, Debug, PartialEq, Eq, Structural)]
pub struct TickInput {
    pub now_ms: u64,
    pub keys: u64,
    pub clicks: u64,
    pub audio_active: bool,
}

/// What a tick hands back for notification and persistence: the pools as
/// accrued before resolution, the rarity of every roll in pool order, the
/// discoveries, and whether to save.
pub struct TickReport {
    pub typing: u32,
    pub click: u32,
    pub audio: u32,
    pub rolls: Vec<Rarity>,
    pub discoveries: Vec<Discovery>,
    pub save: bool,
}

pub open spec fn tick_delta(s: Scheduler, i: TickInput) -> u64 {
    sat_sub_u64(i.now_ms, s.last_tick_ms)
}

pub open spec fn audio_total(s: Scheduler, i: TickInput) -> u64 {
    sat_add_u64(s.audio_acc_ms, tick_delta(s, i))
}

pub open spec fn audio_units(s: Scheduler, i: TickInput) -> u32 {
    if i.audio_active {
        units_of(audio_total(s, i), AUDIO_MS_PER_ENERGY)
    } else {
        0
    }
}

/// Input or audio this tick counts as activity.
pub open spec fn last_input_after(s: Scheduler, i: TickInput) -> u64 {
    if i.keys > 0 || i.clicks > 0 || i.audio_active {
        i.now_ms
    } else {
        s.last_input_ms
    }
}

pub open spec fn is_idle(s: Scheduler, i: TickInput) -> bool {
    sat_sub_u64(i.now_ms, last_input_after(s, i)) > IDLE_TIMEOUT_MS
}

pub open spec fn idle_total(s: Scheduler, i: TickInput) -> u64 {
    sat_add_u64(s.idle_acc_ms, tick_delta(s, i))
}

pub open spec fn idle_units(s: Scheduler, i: TickInput) -> u32 {
    if is_idle(s, i) {
        units_of(idle_total(s, i), IDLE_ENERGY_INTERVAL_MS)
    } else {
        0
    }
}

/// Keys go to "typing", clicks to "click", audio time to "audio", and idle
/// time past the timeout to "typing".
pub open spec fn accrued_pools(p: Map<Seq<char>, u32>, s: Scheduler, i: TickInput) -> Map<Seq<char>, u32> {
    let with_keys = credited(p, "typing"@, units_of(i.keys, KEYS_PER_ENERGY));
    let with_clicks = credited(with_keys, "click"@, units_of(i.clicks, CLICKS_PER_ENERGY));
    let with_audio = credited(with_clicks, "audio"@, audio_units(s, i));
    credited(with_audio, "typing"@, idle_units(s, i))
}

/// The scheduler after accrual: the audio and idle remainders are carried,
/// and idle accrual restarts from zero as soon as there is activity.
pub open spec fn scheduler_after_accrual(s: Scheduler, i: TickInput) -> Scheduler {
    Scheduler {
        last_tick_ms: i.now_ms,
        last_save_ms: s.last_save_ms,
        last_input_ms: last_input_after(s, i),
        audio_acc_ms: if i.audio_active {
            (audio_total(s, i) % AUDIO_MS_PER_ENERGY) as u64
        } else {
            s.audio_acc_ms
        },
        idle_acc_ms: if is_idle(s, i) {
            (idle_total(s, i) % IDLE_ENERGY_INTERVAL_MS) as u64
        } else {
            0
        },
    }
}

/// Whole energy units in `count` events at `per` events each, saturating.
pub fn energy_units(count: u64, per: u64) -> (u: u32)
    requires
        per > 0,
    ensures
        u == units_of(count, per),
{
    let q = count / per;
    if q > u32::MAX as u64 {
        u32::MAX
    } else {
        q as u32
    }
}

/// Adds `units` to the pool `name`, saturating; zero units leave the pools
/// untouched.
pub fn credit(pools: &mut StrMap<u32>, name: &str, units: u32)
    ensures
        final(pools)@ == credited(old(pools)@, name@, units),
{
    if units > 0 {
        let v = read_pool(pools, name);
        let total = if v <= u32::MAX - units {
            v + units
        } else {
            u32::MAX
        };
        pools.insert(name.to_owned(), total);
    }
}

fn add_sat_u64(a: u64, b: u64) -> (r: u64)
    ensures
        r == sat_add_u64(a, b),
{
    if a <= u64::MAX - b {
        a + b
    } else {
        u64::MAX
    }
}

fn sub_sat_u64(a: u64, b: u64) -> (r: u64)
    ensures
        r == sat_sub_u64(a, b),
{
    if a >= b {
        a - b
    } else {
        0
    }
}

impl Scheduler {
    /// A scheduler whose clocks all start at `now_ms`.
    pub fn new(now_ms: u64) -> (s: Scheduler)
        ensures
            s == (Scheduler {
                last_tick_ms: now_ms,
                last_save_ms: now_ms,
                last_input_ms: now_ms,
                audio_acc_ms: 0,
                idle_acc_ms: 0,
            }),
    {
        Scheduler {
            last_tick_ms: now_ms,
            last_save_ms: now_ms,
            last_input_ms: now_ms,
            audio_acc_ms: 0,
            idle_acc_ms: 0,
        }
    }

    /// Converts what the tick observed into pool energy. Remainders of key
    /// and click counts are dropped; audio and idle remainders are carried.
    pub fn accrue(&mut self, pools: &mut StrMap<u32>, input: TickInput)
        ensures
            *final(self) == scheduler_after_accrual(*old(self), input),
            final(pools)@ == accrued_pools(old(pools)@, *old(self), input),
    {
        let delta = sub_sat_u64(input.now_ms, self.last_tick_ms);
        self.last_tick_ms = input.now_ms;
        credit(pools, "typing", energy_units(input.keys, KEYS_PER_ENERGY));
        credit(pools, "click", energy_units(input.clicks, CLICKS_PER_ENERGY));
        if input.keys > 0 || input.clicks > 0 {
            self.last_input_ms = input.now_ms;
        }
        if input.audio_active {
            let total = add_sat_u64(self.audio_acc_ms, delta);
            credit(pools, "audio", energy_units(total, AUDIO_MS_PER_ENERGY));
            self.audio_acc_ms = total % AUDIO_MS_PER_ENERGY;
            self.last_input_ms = input.now_ms;
        }
        if sub_sat_u64(input.now_ms, self.last_input_ms) > IDLE_TIMEOUT_MS {
            let total = add_sat_u64(self.idle_acc_ms, delta);
            credit(pools, "typing", energy_units(total, IDLE_ENERGY_INTERVAL_MS));
            self.idle_acc_ms = total % IDLE_ENERGY_INTERVAL_MS;
        } else {
            self.idle_acc_ms = 0;
        }
    }
}

/// The pools after resolution: each of the three pools, in order, is spent
/// if it reached the threshold.
pub open spec fn resolved_pools(p: Map<Seq<char>, u32>) -> Map<Seq<char>, u32> {
    discharged(discharged(discharged(p, "typing"@), "click"@), "audio"@)
}

pub open spec fn crossed(p: Map<Seq<char>, u32>, name: Seq<char>) -> bool {
    pool_value(p, name) >= ENERGY_THRESHOLD
}

/// The pools that reach the threshold and get a roll, in resolution order.
pub open spec fn crossing_pools(p: Map<Seq<char>, u32>) -> Seq<Seq<char>> {
    let after_typing = discharged(p, "typing"@);
    let after_click = discharged(after_typing, "click"@);
    let with_typing = if crossed(p, "typing"@) {
        Seq::<Seq<char>>::empty().push("typing"@)
    } else {
        Seq::<Seq<char>>::empty()
    };
    let with_click = if crossed(after_typing, "click"@) {
        with_typing.push("click"@)
    } else {
        with_typing
    };
    if crossed(after_click, "audio"@) {
        with_click.push("audio"@)
    } else {
        with_click
    }
}

/// How many pools reach the threshold and get a roll.
pub open spec fn crossings(p: Map<Seq<char>, u32>) -> nat {
    crossing_pools(p).len()
}

pub open spec fn has_candidate(defs: Seq<CreatureDef>, pool: Seq<char>, rarity: Rarity) -> bool {
    exists|i: int| 0 <= i < defs.len() && entry_matches(defs[i], pool, rarity)
}

/// The rolls that yield a discovery, as (pool, rarity) in roll order: those
/// whose pool has a catalog creature of the rolled rarity. `pools[k]` is the
/// pool of roll `rolls[k]`.
pub open spec fn yielding(defs: Seq<CreatureDef>, pools: Seq<Seq<char>>, rolls: Seq<Rarity>) -> Seq<(Seq<char>, Rarity)>
    decreases rolls.len(),
{
    if rolls.len() == 0 || pools.len() == 0 {
        Seq::empty()
    } else {
        let rest = yielding(defs, pools.drop_last(), rolls.drop_last());
        if has_candidate(defs, pools.last(), rolls.last()) {
            rest.push((pools.last(), rolls.last()))
        } else {
            rest
        }
    }
}

/// The discoveries are exactly one per yielding roll, in order, each a
/// catalog creature of that roll's pool and rarity.
pub open spec fn reports_yield(defs: Seq<CreatureDef>, pools: Seq<Seq<char>>, rolls: Seq<Rarity>, found: Seq<Discovery>) -> bool {
    let y = yielding(defs, pools, rolls);
    &&& found.len() == y.len()
    &&& forall|k: int| 0 <= k < found.len() ==> {
        &&& (#[trigger] found[k]).rarity == y[k].1
        &&& from_catalog(defs, y[k].0, found[k])
    }
}

pub open spec fn sat_add_n(x: u32, n: nat) -> u32 {
    if x + n > u32::MAX {
        u32::MAX
    } else {
        (x + n) as u32
    }
}

/// A discovery names a catalog creature of the pool and of its rarity.
pub open spec fn from_catalog(defs: Seq<CreatureDef>, pool: Seq<char>, d: Discovery) -> bool {
    exists|i: int| 0 <= i < defs.len() && defs[i].id@ == d.creature_id@ && entry_matches(defs[i], pool, d.rarity)
}

/// Resolves one pool and records its roll and discovery, if any.
fn resolve_and_record(
    state: &mut GameState,
    pool: &str,
    defs: &Vec<CreatureDef>,
    rng: &mut rand::rngs::SmallRng,
    rolls: &mut Vec<Rarity>,
    discoveries: &mut Vec<Discovery>,
    rolled_pools: Ghost<Seq<Seq<char>>>,
)
    requires
        forall|k: int| 0 <= k < old(discoveries)@.len()
            ==> old(state).collection@.contains_key(#[trigger] old(discoveries)@[k].creature_id@),
        old(rolls)@.len() == rolled_pools@.len(),
        reports_yield(defs@, rolled_pools@, old(rolls)@, old(discoveries)@),
    ensures
        ({
            let pools = if crossed(old(state).pool_energy@, pool@) {
                rolled_pools@.push(pool@)
            } else {
                rolled_pools@
            };
            final(rolls)@.len() == pools.len() && reports_yield(defs@, pools, final(rolls)@, final(discoveries)@)
        }),
        progress_only(old(state)@, final(state)@),
        final(state).pool_energy@ == discharged(old(state).pool_energy@, pool@),
        crossed(old(state).pool_energy@, pool@) ==> {
            &&& final(rolls)@.len() == old(rolls)@.len() + 1
            &&& final(rolls)@.drop_last() == old(rolls)@
            &&& final(state).total_discoveries == sat_inc(old(state).total_discoveries)
            &&& final(state).pity == pity_after_roll(old(state).pity, final(rolls)@.last())
        },
        !crossed(old(state).pool_energy@, pool@) ==> {
            &&& final(rolls)@ == old(rolls)@
            &&& final(state)@ == old(state)@
        },
        final(discoveries)@.len() <= old(discoveries)@.len() + final(rolls)@.len() - old(rolls)@.len(),
        old(state).collection@.dom().subset_of(final(state).collection@.dom()),
        forall|k: int| 0 <= k < final(discoveries)@.len()
            ==> final(state).collection@.contains_key(#[trigger] final(discoveries)@[k].creature_id@),
{
    let ghost before = state.collection@;
    let ghost pools = rolled_pools@.push(pool@);
    let r = resolve_pool(state, pool, defs, rng);
    match r {
        Resolution::Below => {},
        Resolution::Wasted(rarity) => {
            rolls.push(rarity);
            proof {
                assert(rolls@.drop_last() =~= old(rolls)@);
                assert(pools.drop_last() =~= rolled_pools@);
                assert(!has_candidate(defs@, pool@, rarity));
            }
        },
        Resolution::Found(d) => {
            rolls.push(d.rarity);
            discoveries.push(d);
            proof {
                assert(rolls@.drop_last() =~= old(rolls)@);
                assert(pools.drop_last() =~= rolled_pools@);
                let i = choose|i: int| 0 <= i < defs@.len() && defs@[i].id@ == d.creature_id@
                    && entry_matches(defs@[i], pool@, d.rarity);
                assert(has_candidate(defs@, pool@, d.rarity));
                let y = yielding(defs@, pools, rolls@);
                assert forall|k: int| 0 <= k < discoveries@.len() implies {
                    &&& (#[trigger] discoveries@[k]).rarity == y[k].1
                    &&& from_catalog(defs@, y[k].0, discoveries@[k])
                } by {
                    if k < old(discoveries)@.len() {
                        assert(discoveries@[k] == old(discoveries)@[k]);
                    }
                }
                assert forall|k: int| 0 <= k < discoveries@.len()
                    implies state.collection@.contains_key(#[trigger] discoveries@[k].creature_id@) by {
                    if k < old(discoveries)@.len() {
                        assert(before.contains_key(discoveries@[k].creature_id@));
                    }
                }
            }
        },
    }
}

impl Scheduler {
    /// One tick of the scheduler: accrual, then the "typing", "click" and
    /// "audio" pools resolved in that order, each on its own, then the
    /// decision to save, which is taken when anything was discovered or
    /// the autosave interval has passed since the last save.
    pub fn tick(
        &mut self,
        state: &mut GameState,
        input: TickInput,
        defs: &Vec<CreatureDef>,
        rng: &mut rand::rngs::SmallRng,
    ) -> (r: TickReport)
        ensures
            *final(self) == (Scheduler {
                last_save_ms: if r.save { input.now_ms } else { old(self).last_save_ms },
                ..scheduler_after_accrual(*old(self), input)
            }),
            ({
                let acc = accrued_pools(old(state).pool_energy@, *old(self), input);
                &&& r.typing == pool_value(acc, "typing"@)
                &&& r.click == pool_value(acc, "click"@)
                &&& r.audio == pool_value(acc, "audio"@)
                &&& final(state).pool_energy@ == resolved_pools(acc)
                &&& r.rolls@.len() == crossings(acc)
                &&& final(state).total_discoveries == sat_add_n(old(state).total_discoveries, crossings(acc))
            }),
            final(state).pity == pity_after_rolls(old(state).pity, r.rolls@),
            r.discoveries@.len() <= r.rolls@.len(),
            old(state).collection@.dom().subset_of(final(state).collection@.dom()),
            forall|k: int| 0 <= k < r.discoveries@.len()
                ==> final(state).collection@.contains_key(#[trigger] r.discoveries@[k].creature_id@),
            reports_yield(
                defs@,
                crossing_pools(accrued_pools(old(state).pool_energy@, *old(self), input)),
                r.rolls@,
                r.discoveries@,
            ),
            r.save == (r.discoveries@.len() > 0
                || sat_sub_u64(input.now_ms, old(self).last_save_ms) > AUTOSAVE_INTERVAL_MS),
            progress_only(old(state)@, final(state)@),
    {
        self.accrue(&mut state.pool_energy, input);
        let typing = read_pool(&state.pool_energy, "typing");
        let click = read_pool(&state.pool_energy, "click");
        let audio = read_pool(&state.pool_energy, "audio");
        let ghost at_start = *state;
        let mut rolls: Vec<Rarity> = Vec::new();
        let mut discoveries: Vec<Discovery> = Vec::new();
        let ghost none_yet = Seq::<Seq<char>>::empty();
        let ghost with_typing = if crossed(at_start.pool_energy@, "typing"@) {
            none_yet.push("typing"@)
        } else {
            none_yet
        };
        assert(yielding(defs@, none_yet, rolls@) == Seq::<(Seq<char>, Rarity)>::empty());
        resolve_and_record(state, "typing", defs, rng, &mut rolls, &mut discoveries, Ghost(none_yet));
        let ghost after_typing = *state;
        let ghost rolls_typing = rolls@;
        let ghost with_click = if crossed(after_typing.pool_energy@, "click"@) {
            with_typing.push("click"@)
        } else {
            with_typing
        };
        resolve_and_record(state, "click", defs, rng, &mut rolls, &mut discoveries, Ghost(with_typing));
        let ghost after_click = *state;
        let ghost rolls_click = rolls@;
        resolve_and_record(state, "audio", defs, rng, &mut rolls, &mut discoveries, Ghost(with_click));
        proof {
            let start_pity = at_start.pity;
            assert(pity_after_rolls(start_pity, Seq::<Rarity>::empty()) == start_pity);
            if crossed(at_start.pool_energy@, "typing"@) {
                lemma_pity_after_rolls_push(start_pity, Seq::<Rarity>::empty(), rolls_typing.last());
                assert(Seq::<Rarity>::empty().push(rolls_typing.last()) =~= rolls_typing);
            }
            assert(after_typing.pity == pity_after_rolls(start_pity, rolls_typing));
            if crossed(after_typing.pool_energy@, "click"@) {
                lemma_pity_after_rolls_push(start_pity, rolls_typing, rolls_click.last());
                assert(rolls_typing.push(rolls_click.last()) =~= rolls_click);
            }
            assert(after_click.pity == pity_after_rolls(start_pity, rolls_click));
            if crossed(after_click.pool_energy@, "audio"@) {
                lemma_pity_after_rolls_push(start_pity, rolls_click, rolls@.last());
                assert(rolls_click.push(rolls@.last()) =~= rolls@);
            }
        }
        let save = discoveries.len() > 0
            || sub_sat_u64(input.now_ms, self.last_save_ms) > AUTOSAVE_INTERVAL_MS;
        if save {
            self.last_save_ms = input.now_ms;
        }
        TickReport { typing, click, audio, rolls, discoveries, save }
    }
}

/// A pool at or over the threshold when resolution starts is spent to
/// exactly zero, its overshoot dropped, and gets exactly one roll: it appears
/// once among the rolled pools, and no pool appears twice.
pub proof fn lemma_spent_pool_rolls_once(p: Map<Seq<char>, u32>, name: Seq<char>)
    requires
        name == "typing"@ || name == "click"@ || name == "audio"@,
        crossed(p, name),
    ensures
        pool_value(resolved_pools(p), name) == 0,
        crossing_pools(p).contains(name),
        forall|i: int, j: int| 0 <= i < j < crossing_pools(p).len()
            ==> crossing_pools(p)[i] != crossing_pools(p)[j],
{
    reveal_strlit("typing");
    reveal_strlit("click");
    reveal_strlit("audio");
    let pools = crossing_pools(p);
    if name == "typing"@ {
        assert(pools[0] == name);
    } else if name == "click"@ {
        assert(pools[pools.len() - 1] == name || pools[pools.len() - 2] == name);
    } else {
        assert(pools[pools.len() - 1] == name);
    }
}

} // verus!
