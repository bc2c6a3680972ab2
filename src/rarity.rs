//! Pity-modified rarity roll. Each failed higher-tier trial raises that tier's
//! pity counter, which raises its next chance up to a per-tier cap.
use vstd::prelude::*;
use crate::state::PityCounters;

verus! {

/// Declares `rand`'s small, fast generator so that it can be threaded
/// through verified code as an opaque value.
#[verifier::external_type_specification]
#[verifier::external_body]
pub struct ExSmallRng(rand::rngs::SmallRng);

/// Relies on `rand::Rng::gen_ratio`: a Bernoulli trial with probability
/// `numerator / denominator`, which panics unless `0 < denominator` and
/// `numerator <= denominator`, is always true when the two are equal and
/// always false when the numerator is zero.
#[verifier::external_body]
fn draw_ratio(rng: &mut rand::rngs::SmallRng, numerator: u32, denominator: u32) -> (hit: bool)
    requires
        0 < denominator,
        numerator <= denominator,
    ensures
        numerator == denominator ==> hit,
        numerator == 0 ==> !hit,
{
    rand::Rng::gen_ratio(rng, numerator, denominator)
}

#[derive(Clone, Copy, Debug, PartialEq, Eq, Structural)]
pub enum Rarity {
    Common,
    Uncommon,
    Rare,
    Epic,
    Legendary,
}

pub open spec fn rarity_name(r: Rarity) -> Seq<char> {
    match r {
        Rarity::Common => "common"@,
        Rarity::Uncommon => "uncommon"@,
        Rarity::Rare => "rare"@,
        Rarity::Epic => "epic"@,
        Rarity::Legendary => "legendary"@,
    }
}

impl Rarity {
    pub fn as_str(&self) -> (s: &'static str)
        ensures
            s@ == rarity_name(*self),
    {
        match self {
            Rarity::Common => "common",
            Rarity::Uncommon => "uncommon",
            Rarity::Rare => "rare",
            Rarity::Epic => "epic",
            Rarity::Legendary => "legendary",
        }
    }
}

pub const LEGENDARY_BASE_NUM: u32 = 1;
pub const LEGENDARY_BASE_DEN: u32 = 200;
pub const LEGENDARY_CAP: u32 = 5;
pub const EPIC_BASE_NUM: u32 = 1;
pub const EPIC_BASE_DEN: u32 = 50;
pub const EPIC_CAP: u32 = 4;
pub const RARE_BASE_NUM: u32 = 1;
pub const RARE_BASE_DEN: u32 = 20;
pub const RARE_CAP: u32 = 4;
pub const UNCOMMON_BASE_NUM: u32 = 1;
pub const UNCOMMON_BASE_DEN: u32 = 8;
pub const UNCOMMON_CAP: u32 = 4;

/// `min(counter + 1, cap)`: the counter after a miss.
pub open spec fn bumped(counter: u32, cap: u32) -> u32 {
    if counter < cap {
        (counter + 1) as u32
    } else {
        cap
    }
}

/// `min(base + counter, cap)`: the numerator of a tier's trial.
pub open spec fn chance(base: u32, counter: u32, cap: u32) -> int {
    if base + counter < cap {
        base + counter
    } else {
        cap as int
    }
}

/// The numerator of a tier's trial under the given pity, over its base
/// denominator; `Common` is the fallback and has no trial of its own.
pub open spec fn tier_chance(p: PityCounters, r: Rarity) -> int {
    match r {
        Rarity::Common => 0,
        Rarity::Uncommon => chance(UNCOMMON_BASE_NUM, p.uncommon, UNCOMMON_CAP),
        Rarity::Rare => chance(RARE_BASE_NUM, p.rare, RARE_CAP),
        Rarity::Epic => chance(EPIC_BASE_NUM, p.epic, EPIC_CAP),
        Rarity::Legendary => chance(LEGENDARY_BASE_NUM, p.legendary, LEGENDARY_CAP),
    }
}

pub open spec fn tier_denominator(r: Rarity) -> int {
    match r {
        Rarity::Common => 1,
        Rarity::Uncommon => UNCOMMON_BASE_DEN as int,
        Rarity::Rare => RARE_BASE_DEN as int,
        Rarity::Epic => EPIC_BASE_DEN as int,
        Rarity::Legendary => LEGENDARY_BASE_DEN as int,
    }
}

/// The pity counters after a roll whose outcome was `r`: the tiers above `r`
/// missed and were bumped, `r` itself was reset, the tiers below were never
/// tried. A `Common` outcome means every tier missed.
pub open spec fn pity_after_roll(p: PityCounters, r: Rarity) -> PityCounters {
    let leg = bumped(p.legendary, LEGENDARY_CAP);
    let epic = bumped(p.epic, EPIC_CAP);
    let rare = bumped(p.rare, RARE_CAP);
    let unc = bumped(p.uncommon, UNCOMMON_CAP);
    match r {
        Rarity::Legendary => PityCounters { legendary: 0, ..p },
        Rarity::Epic => PityCounters { legendary: leg, epic: 0, ..p },
        Rarity::Rare => PityCounters { legendary: leg, epic, rare: 0, ..p },
        Rarity::Uncommon => PityCounters { legendary: leg, epic, rare, uncommon: 0 },
        Rarity::Common => PityCounters { legendary: leg, epic, rare, uncommon: unc },
    }
}

/// The pity counters after a sequence of rolls with the given outcomes.
pub open spec fn pity_after_rolls(p: PityCounters, outcomes: Seq<Rarity>) -> PityCounters
    decreases outcomes.len(),
{
    if outcomes.len() == 0 {
        p
    } else {
        pity_after_rolls(pity_after_roll(p, outcomes[0]), outcomes.drop_first())
    }
}

/// The numerator of a tier's trial, `min(base + counter, cap)`.
pub fn trial_numerator(base: u32, counter: u32, cap: u32) -> (n: u32)
    requires
        base <= cap,
    ensures
        n == chance(base, counter, cap),
{
    if counter < cap - base {
        base + counter
    } else {
        cap
    }
}

/// The tier tried at position `k` of a roll: Legendary, Epic, Rare, then
/// Uncommon.
pub open spec fn tier_at(k: int) -> Rarity {
    if k == 0 {
        Rarity::Legendary
    } else if k == 1 {
        Rarity::Epic
    } else if k == 2 {
        Rarity::Rare
    } else {
        Rarity::Uncommon
    }
}

/// The outcome of a roll whose trials, in tier order, answered `hits`: the
/// tier of the first hit, or `Common` when none hit.
pub open spec fn first_hit_tier(hits: Seq<bool>) -> Rarity {
    if hits.len() > 0 && hits[0] {
        Rarity::Legendary
    } else if hits.len() > 1 && hits[1] {
        Rarity::Epic
    } else if hits.len() > 2 && hits[2] {
        Rarity::Rare
    } else if hits.len() > 3 && hits[3] {
        Rarity::Uncommon
    } else {
        Rarity::Common
    }
}

/// The answers of a finished roll: misses, ending either with the first hit
/// or after the fourth miss.
pub open spec fn is_roll_answers(hits: Seq<bool>) -> bool {
    &&& 1 <= hits.len() <= 4
    &&& forall|k: int| 0 <= k < hits.len() - 1 ==> !hits[k]
    &&& hits.len() < 4 ==> hits.last()
}

/// One drawn trial: the tier, the chance it was drawn with, and the answer.
#[derive(Clone, Copy, Debug, PartialEq, Eq, Structural)]
pub struct Trial {
    pub tier: Rarity,
    pub numerator: u32,
    pub denominator: u32,
    pub hit: bool,
}

pub open spec fn answers(trials: Seq<Trial>) -> Seq<bool> {
    trials.map_values(|t: Trial| t.hit)
}

/// `min(counter + 1, cap)`.
pub fn bump(counter: u32, cap: u32) -> (v: u32)
    ensures
        v == bumped(counter, cap),
{
    if counter < cap {
        counter + 1
    } else {
        cap
    }
}

/// Settles a roll from the answers of its trials, in tier order: the
/// outcome is the first tier that hit (`Common` if none did), its counter is
/// reset, the tiers above it are bumped and those below are left alone.
pub fn settle_roll(pity: &mut PityCounters, hits: &Vec<bool>) -> (r: Rarity)
    requires
        hits@.len() <= 4,
    ensures
        r == first_hit_tier(hits@),
        *final(pity) == pity_after_roll(*old(pity), r),
{
    let n = hits.len();
    let r = if n > 0 && hits[0] {
        Rarity::Legendary
    } else if n > 1 && hits[1] {
        Rarity::Epic
    } else if n > 2 && hits[2] {
        Rarity::Rare
    } else if n > 3 && hits[3] {
        Rarity::Uncommon
    } else {
        Rarity::Common
    };
    match r {
        Rarity::Legendary => {
            pity.legendary = 0;
        },
        Rarity::Epic => {
            pity.legendary = bump(pity.legendary, LEGENDARY_CAP);
            pity.epic = 0;
        },
        Rarity::Rare => {
            pity.legendary = bump(pity.legendary, LEGENDARY_CAP);
            pity.epic = bump(pity.epic, EPIC_CAP);
            pity.rare = 0;
        },
        Rarity::Uncommon => {
            pity.legendary = bump(pity.legendary, LEGENDARY_CAP);
            pity.epic = bump(pity.epic, EPIC_CAP);
            pity.rare = bump(pity.rare, RARE_CAP);
            pity.uncommon = 0;
        },
        Rarity::Common => {
            pity.legendary = bump(pity.legendary, LEGENDARY_CAP);
            pity.epic = bump(pity.epic, EPIC_CAP);
            pity.rare = bump(pity.rare, RARE_CAP);
            pity.uncommon = bump(pity.uncommon, UNCOMMON_CAP);
        },
    }
    r
}

/// Draws one tier's trial with numerator `min(base + counter, cap)` over the
/// tier's base denominator.
fn draw_trial(pity: &PityCounters, tier: Rarity, rng: &mut rand::rngs::SmallRng) -> (t: Trial)
    requires
        tier != Rarity::Common,
    ensures
        t.tier == tier,
        t.numerator == tier_chance(*pity, tier),
        t.denominator == tier_denominator(tier),
{
    let (numerator, denominator) = match tier {
        Rarity::Legendary => (
            trial_numerator(LEGENDARY_BASE_NUM, pity.legendary, LEGENDARY_CAP),
            LEGENDARY_BASE_DEN,
        ),
        Rarity::Epic => (trial_numerator(EPIC_BASE_NUM, pity.epic, EPIC_CAP), EPIC_BASE_DEN),
        Rarity::Rare => (trial_numerator(RARE_BASE_NUM, pity.rare, RARE_CAP), RARE_BASE_DEN),
        _ => (
            trial_numerator(UNCOMMON_BASE_NUM, pity.uncommon, UNCOMMON_CAP),
            UNCOMMON_BASE_DEN,
        ),
    };
    let hit = draw_ratio(rng, numerator, denominator);
    Trial { tier, numerator, denominator, hit }
}

/// Rolls a rarity and returns the trials it drew: Legendary, Epic, Rare,
/// Uncommon in that order, each with numerator `min(base + pity, cap)` over
/// the tier's denominator, stopping at the first hit. The outcome is the
/// first tier that hit, `Common` if all four missed, and the pity counters
/// are settled from those answers.
pub fn roll_rarity_traced(pity: &mut PityCounters, rng: &mut rand::rngs::SmallRng) -> (r: (Rarity, Vec<Trial>))
    ensures
        is_roll_answers(answers(r.1@)),
        forall|k: int| 0 <= k < r.1@.len() ==> {
            let t = #[trigger] r.1@[k];
            &&& t.tier == tier_at(k)
            &&& t.numerator == tier_chance(*old(pity), tier_at(k))
            &&& t.denominator == tier_denominator(tier_at(k))
        },
        r.0 == first_hit_tier(answers(r.1@)),
        *final(pity) == pity_after_roll(*old(pity), r.0),
{
    let mut trials: Vec<Trial> = Vec::new();
    let mut hits: Vec<bool> = Vec::new();
    let t = draw_trial(pity, Rarity::Legendary, rng);
    trials.push(t);
    hits.push(t.hit);
    if !t.hit {
        let t = draw_trial(pity, Rarity::Epic, rng);
        trials.push(t);
        hits.push(t.hit);
        if !t.hit {
            let t = draw_trial(pity, Rarity::Rare, rng);
            trials.push(t);
            hits.push(t.hit);
            if !t.hit {
                let t = draw_trial(pity, Rarity::Uncommon, rng);
                trials.push(t);
                hits.push(t.hit);
            }
        }
    }
    assert(hits@ =~= answers(trials@));
    let r = settle_roll(pity, &hits);
    (r, trials)
}

/// Rolls a rarity top-down, Legendary first, stopping at the first tier whose
/// trial hits; `Common` when all four miss. The trials and their chances are
/// those of `roll_rarity_traced`.
pub fn roll_rarity(pity: &mut PityCounters, rng: &mut rand::rngs::SmallRng) -> (r: Rarity)
    ensures
        *final(pity) == pity_after_roll(*old(pity), r),
        r != Rarity::Common ==> final(pity).counter(r) == 0,
        old(pity).within_caps() ==> final(pity).within_caps(),
{
    let (r, _) = roll_rarity_traced(pity, rng);
    r
}

/// Rolling once more after a sequence of rolls extends the sequence.
pub proof fn lemma_pity_after_rolls_push(p: PityCounters, outcomes: Seq<Rarity>, r: Rarity)
    ensures
        pity_after_rolls(p, outcomes.push(r)) == pity_after_roll(pity_after_rolls(p, outcomes), r),
    decreases outcomes.len(),
{
    if outcomes.len() > 0 {
        lemma_pity_after_rolls_push(pity_after_roll(p, outcomes[0]), outcomes.drop_first(), r);
        assert(outcomes.push(r)[0] == outcomes[0]);
        assert(outcomes.push(r).drop_first() =~= outcomes.drop_first().push(r));
    } else {
        assert(outcomes.push(r)[0] == r);
        assert(outcomes.push(r).drop_first() =~= Seq::<Rarity>::empty());
        assert(pity_after_rolls(pity_after_roll(p, r), Seq::<Rarity>::empty()) == pity_after_roll(p, r));
    }
}

/// Starting within the caps, every pity counter stays within its tier's cap
/// over any sequence of rolls.
pub proof fn lemma_pity_within_caps(p: PityCounters, outcomes: Seq<Rarity>)
    requires
        p.within_caps(),
    ensures
        pity_after_rolls(p, outcomes).within_caps(),
    decreases outcomes.len(),
{
    if outcomes.len() > 0 {
        lemma_pity_within_caps(pity_after_roll(p, outcomes[0]), outcomes.drop_first());
    }
}

/// A tier that comes out of a roll has its pity counter at exactly zero.
pub proof fn lemma_hit_resets_pity(p: PityCounters, r: Rarity)
    requires
        r != Rarity::Common,
    ensures
        pity_after_roll(p, r).counter(r) == 0,
{
}

/// At its cap, a tier's trial is drawn with a strictly larger numerator
/// over the same denominator than at zero pity: the chance that
/// `roll_rarity_traced` hands to the draw for that tier is higher.
pub proof fn lemma_max_pity_raises_chance(r: Rarity)
    requires
        r != Rarity::Common,
    ensures
        tier_chance(PityCounters { legendary: LEGENDARY_CAP, epic: EPIC_CAP, rare: RARE_CAP, uncommon: UNCOMMON_CAP }, r)
            > tier_chance(PityCounters { legendary: 0, epic: 0, rare: 0, uncommon: 0 }, r),
{
}

/// The answers that lead a roll to outcome `r`.
pub open spec fn answers_for(r: Rarity) -> Seq<bool> {
    match r {
        Rarity::Legendary => seq![true],
        Rarity::Epic => seq![false, true],
        Rarity::Rare => seq![false, false, true],
        Rarity::Uncommon => seq![false, false, false, true],
        Rarity::Common => seq![false, false, false, false],
    }
}

/// Every outcome is reachable on every roll, a fresh one included: for each
/// of the five outcomes there are roll answers that settle to it, and each
/// trial on the way is drawn with a numerator strictly between zero and its
/// denominator, so each of those answers has a positive chance.
pub proof fn lemma_every_outcome_possible(p: PityCounters, r: Rarity)
    ensures
        is_roll_answers(answers_for(r)),
        first_hit_tier(answers_for(r)) == r,
        forall|k: int| 0 <= k < answers_for(r).len()
            ==> 0 < #[trigger] tier_chance(p, tier_at(k)) < tier_denominator(tier_at(k)),
{
}

} // verus!
