use ascii_reef::energy::{
    award, candidates, energy_units, resolve_pool, select_creature, CreatureDef, Resolution,
    Scheduler, TickInput, AUTOSAVE_INTERVAL_MS, CLICKS_PER_ENERGY, ENERGY_THRESHOLD,
    KEYS_PER_ENERGY,
};
use ascii_reef::rarity::Rarity;
use ascii_reef::state::{GameState, OwnedCreature};
use ascii_reef::strmap::StrMap;
use rand::rngs::SmallRng;
use rand::SeedableRng;

fn def(id: &str, pool: &str, rarity: &str) -> CreatureDef {
    CreatureDef { id: id.to_string(), pool: pool.to_string(), rarity: rarity.to_string() }
}

/// One creature for every pool and rarity.
fn full_catalog() -> Vec<CreatureDef> {
    let mut v = Vec::new();
    for pool in ["typing", "click", "audio"] {
        for rarity in ["common", "uncommon", "rare", "epic", "legendary"] {
            v.push(def(&format!("{pool}-{rarity}"), pool, rarity));
        }
    }
    v
}

fn input(now_ms: u64, keys: u64, clicks: u64, audio_active: bool) -> TickInput {
    TickInput { now_ms, keys, clicks, audio_active }
}

fn pool(s: &GameState, name: &str) -> u32 {
    *s.pool_energy.get(name).unwrap_or(&0)
}

#[test]
fn forty_seven_keys_credit_nine_units_and_drop_the_rest() {
    assert_eq!(KEYS_PER_ENERGY, 5);
    assert_eq!(energy_units(47, KEYS_PER_ENERGY), 9);
    let mut s = GameState::default();
    let mut sched = Scheduler::new(0);
    let mut rng = SmallRng::seed_from_u64(1);
    let defs = full_catalog();
    let r = sched.tick(&mut s, input(500, 47, 0, false), &defs, &mut rng);
    assert_eq!(r.typing, 9);
    assert_eq!(pool(&s, "typing"), 9);
    // Three more keys: with the two dropped ones they would make a unit.
    let r = sched.tick(&mut s, input(1_000, 3, 0, false), &defs, &mut rng);
    assert_eq!(r.typing, 9);
    assert_eq!(pool(&s, "typing"), 9);
}

#[test]
fn clicks_credit_the_click_pool() {
    assert_eq!(energy_units(10, CLICKS_PER_ENERGY), 3);
    let mut s = GameState::default();
    let mut sched = Scheduler::new(0);
    let mut rng = SmallRng::seed_from_u64(2);
    let r = sched.tick(&mut s, input(500, 0, 10, false), &full_catalog(), &mut rng);
    assert_eq!((r.typing, r.click, r.audio), (0, 3, 0));
}

#[test]
fn energy_units_saturate() {
    assert_eq!(energy_units(u64::MAX, 1), u32::MAX);
    assert_eq!(energy_units(4, 5), 0);
}

#[test]
fn pool_over_threshold_resets_to_exactly_zero_with_one_attempt() {
    assert_eq!(ENERGY_THRESHOLD, 40);
    let mut s = GameState::default();
    s.pool_energy.insert("typing".to_string(), 45);
    let mut sched = Scheduler::new(0);
    let mut rng = SmallRng::seed_from_u64(3);
    let r = sched.tick(&mut s, input(500, 0, 0, false), &full_catalog(), &mut rng);
    assert_eq!(r.typing, 45);
    assert_eq!(pool(&s, "typing"), 0);
    assert_eq!(r.rolls.len(), 1);
    assert_eq!(r.discoveries.len(), 1);
    assert_eq!(s.total_discoveries, 1);
    let d = &r.discoveries[0];
    assert!(d.is_new);
    assert_eq!(d.creature_id, format!("typing-{}", d.rarity.as_str()));
    assert_eq!(s.collection.get(&d.creature_id).unwrap().count, 1);
    assert!(r.save);
}

#[test]
fn pool_below_threshold_is_left_alone() {
    let mut s = GameState::default();
    s.pool_energy.insert("click".to_string(), 39);
    let mut sched = Scheduler::new(0);
    let mut rng = SmallRng::seed_from_u64(4);
    let r = sched.tick(&mut s, input(500, 0, 0, false), &full_catalog(), &mut rng);
    assert_eq!(pool(&s, "click"), 39);
    assert!(r.rolls.is_empty());
    assert_eq!(s.total_discoveries, 0);
    assert!(!r.save);
}

#[test]
fn several_pools_resolve_independently_in_one_tick() {
    let mut s = GameState::default();
    s.pool_energy.insert("typing".to_string(), 40);
    s.pool_energy.insert("click".to_string(), 50);
    s.pool_energy.insert("audio".to_string(), 10);
    let mut sched = Scheduler::new(0);
    let mut rng = SmallRng::seed_from_u64(5);
    let r = sched.tick(&mut s, input(500, 0, 0, false), &full_catalog(), &mut rng);
    assert_eq!((pool(&s, "typing"), pool(&s, "click"), pool(&s, "audio")), (0, 0, 10));
    assert_eq!(r.rolls.len(), 2);
    assert_eq!(r.discoveries.len(), 2);
    assert!(r.discoveries[0].creature_id.starts_with("typing-"));
    assert!(r.discoveries[1].creature_id.starts_with("click-"));
    assert_eq!(s.total_discoveries, 2);
}

#[test]
fn roll_without_candidate_is_wasted_but_counted() {
    let mut s = GameState::default();
    s.pool_energy.insert("audio".to_string(), 41);
    let mut sched = Scheduler::new(0);
    let mut rng = SmallRng::seed_from_u64(6);
    let r = sched.tick(&mut s, input(500, 0, 0, false), &Vec::new(), &mut rng);
    assert_eq!(pool(&s, "audio"), 0);
    assert_eq!(r.rolls.len(), 1);
    assert!(r.discoveries.is_empty());
    assert_eq!(s.total_discoveries, 1);
    assert_eq!(s.collection.len(), 0);
    assert!(!r.save);
}

#[test]
fn audio_time_is_carried_between_ticks() {
    let mut s = GameState::default();
    let mut sched = Scheduler::new(0);
    let mut rng = SmallRng::seed_from_u64(7);
    let defs = full_catalog();
    let r = sched.tick(&mut s, input(17_000, 0, 0, true), &defs, &mut rng);
    assert_eq!(r.audio, 2);
    assert_eq!(sched.audio_acc_ms, 1_000);
    let r = sched.tick(&mut s, input(24_000, 0, 0, true), &defs, &mut rng);
    assert_eq!(r.audio, 3);
    assert_eq!(sched.audio_acc_ms, 0);
    // Silence leaves the carried time alone.
    let r = sched.tick(&mut s, input(30_000, 0, 0, false), &defs, &mut rng);
    assert_eq!(r.audio, 3);
}

#[test]
fn idle_time_past_the_timeout_feeds_typing() {
    let mut s = GameState::default();
    let mut sched = Scheduler::new(0);
    let mut rng = SmallRng::seed_from_u64(8);
    let defs = full_catalog();
    let r = sched.tick(&mut s, input(899_000, 0, 0, false), &defs, &mut rng);
    assert_eq!(r.typing, 0);
    assert_eq!(sched.idle_acc_ms, 0);
    // Exactly at the timeout is not yet past it.
    let r = sched.tick(&mut s, input(900_000, 0, 0, false), &defs, &mut rng);
    assert_eq!(r.typing, 0);
    assert_eq!(sched.idle_acc_ms, 0);
    let r = sched.tick(&mut s, input(901_000, 0, 0, false), &defs, &mut rng);
    assert_eq!(r.typing, 0);
    assert_eq!(sched.idle_acc_ms, 1_000);
    let r = sched.tick(&mut s, input(930_000, 0, 0, false), &defs, &mut rng);
    assert_eq!(r.typing, 1);
    assert_eq!(sched.idle_acc_ms, 0);
    // Activity restarts idle accrual from zero.
    sched.tick(&mut s, input(930_500, 1, 0, false), &defs, &mut rng);
    assert_eq!(sched.idle_acc_ms, 0);
    assert_eq!(sched.last_input_ms, 930_500);
}

#[test]
fn autosave_after_interval_and_clock_restarts() {
    let mut s = GameState::default();
    let mut sched = Scheduler::new(0);
    let mut rng = SmallRng::seed_from_u64(9);
    let defs = full_catalog();
    let r = sched.tick(&mut s, input(AUTOSAVE_INTERVAL_MS, 0, 0, false), &defs, &mut rng);
    assert!(!r.save);
    let r = sched.tick(&mut s, input(AUTOSAVE_INTERVAL_MS + 1, 0, 0, false), &defs, &mut rng);
    assert!(r.save);
    assert_eq!(sched.last_save_ms, AUTOSAVE_INTERVAL_MS + 1);
    let r = sched.tick(&mut s, input(AUTOSAVE_INTERVAL_MS + 501, 0, 0, false), &defs, &mut rng);
    assert!(!r.save);
}

#[test]
fn candidates_filter_by_pool_and_rarity_in_order() {
    let defs = vec![
        def("a", "typing", "rare"),
        def("b", "click", "rare"),
        def("c", "typing", "rare"),
        def("d", "typing", "epic"),
    ];
    assert_eq!(candidates(&defs, "typing", Rarity::Rare), vec![0, 2]);
    assert_eq!(candidates(&defs, "click", Rarity::Rare), vec![1]);
    assert!(candidates(&defs, "audio", Rarity::Rare).is_empty());
    let mut rng = SmallRng::seed_from_u64(10);
    let mut picked = std::collections::HashSet::new();
    for _ in 0..200 {
        let i = select_creature(&defs, "typing", Rarity::Rare, &mut rng).unwrap();
        picked.insert(i);
    }
    assert_eq!(picked, [0usize, 2].into_iter().collect());
    assert_eq!(select_creature(&defs, "audio", Rarity::Common, &mut rng), None);
}

#[test]
fn award_creates_then_increments_keeping_first_sighting() {
    let mut c: StrMap<OwnedCreature> = StrMap::new();
    let id = "crab".to_string();
    assert!(award(&mut c, &id));
    let first = c.get("crab").unwrap().first_seen.clone();
    assert!(!first.is_empty());
    assert_eq!(c.get("crab").unwrap().count, 1);
    assert!(!award(&mut c, &id));
    assert!(!award(&mut c, &id));
    assert_eq!(c.get("crab").unwrap().count, 3);
    assert_eq!(c.get("crab").unwrap().first_seen, first);
    assert_eq!(c.len(), 1);
}

#[test]
fn resolve_pool_reports_below_wasted_and_found() {
    let mut s = GameState::default();
    let mut rng = SmallRng::seed_from_u64(11);
    let defs = full_catalog();
    assert!(matches!(resolve_pool(&mut s, "typing", &defs, &mut rng), Resolution::Below));
    s.pool_energy.insert("typing".to_string(), 40);
    assert!(matches!(resolve_pool(&mut s, "typing", &Vec::new(), &mut rng), Resolution::Wasted(_)));
    s.pool_energy.insert("typing".to_string(), 1_000);
    match resolve_pool(&mut s, "typing", &defs, &mut rng) {
        Resolution::Found(d) => assert!(d.creature_id.starts_with("typing-")),
        _ => panic!("expected a discovery"),
    }
    assert_eq!(pool(&s, "typing"), 0);
    assert_eq!(s.total_discoveries, 2);
}

#[test]
fn discoveries_follow_catalog_per_pool() {
    // The typing pool has creatures of every rarity, the click pool none.
    let defs: Vec<CreatureDef> = ["common", "uncommon", "rare", "epic", "legendary"]
        .iter()
        .map(|r| def(&format!("t-{r}"), "typing", r))
        .collect();
    let mut s = GameState::default();
    s.pool_energy.insert("typing".to_string(), 40);
    s.pool_energy.insert("click".to_string(), 40);
    let mut sched = Scheduler::new(0);
    let mut rng = SmallRng::seed_from_u64(12);
    let r = sched.tick(&mut s, input(500, 0, 0, false), &defs, &mut rng);
    assert_eq!(r.rolls.len(), 2);
    assert_eq!(r.discoveries.len(), 1);
    assert_eq!(r.discoveries[0].rarity, r.rolls[0]);
    assert_eq!(r.discoveries[0].creature_id, format!("t-{}", r.rolls[0].as_str()));
    assert_eq!(s.total_discoveries, 2);
}
