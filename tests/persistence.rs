use ascii_reef::save::{
    creation_timestamp, load_source, migrate_pool_energy, sanitize, LoadSource, SaveDisplay,
    SaveFile, SaveMeta, SaveProgression, SAVE_VERSION,
};
use ascii_reef::state::{GameState, OwnedCreature, PityCounters};
use ascii_reef::strmap::StrMap;

fn legacy_document(energy: Option<u32>) -> SaveFile {
    SaveFile {
        version: 1,
        meta: SaveMeta {
            created: "2024-01-01T00:00:00+00:00".to_string(),
            last_saved: "2024-01-02T00:00:00+00:00".to_string(),
            app_version: "0.1.0".to_string(),
        },
        collection: StrMap::new(),
        progression: SaveProgression {
            pool_energy: StrMap::new(),
            energy,
            total_discoveries: 3,
            pity: PityCounters::default(),
        },
        display: SaveDisplay {
            position_bits: (0, 0),
            size_index: 1,
            send_scores: true,
            sound_enabled: false,
            music_volume_bits: 0.08f32.to_bits(),
            day_night_cycle: "computer".to_string(),
            message_bottles_enabled: false,
            message_bottles_prompted: false,
            close_behavior: "ask".to_string(),
            hidden_creatures: Vec::new(),
        },
    }
}

fn sample_state() -> GameState {
    let mut s = GameState::default();
    s.collection.insert(
        "clownfish".to_string(),
        OwnedCreature { count: 4, first_seen: "2024-05-01T10:00:00+00:00".to_string() },
    );
    s.collection.insert(
        "kraken".to_string(),
        OwnedCreature { count: 1, first_seen: "2024-06-01T10:00:00+00:00".to_string() },
    );
    s.pool_energy.insert("typing".to_string(), 12);
    s.pool_energy.insert("click".to_string(), 7);
    s.pool_energy.insert("audio".to_string(), 39);
    s.total_discoveries = 5;
    s.pity = PityCounters { legendary: 3, epic: 2, rare: 1, uncommon: 0 };
    s.position_bits = ((-12.5f64).to_bits(), 300.0f64.to_bits());
    s.size_index = 4;
    s.send_scores = false;
    s.sound_enabled = true;
    s.music_volume_bits = 0.75f32.to_bits();
    s.day_night_cycle = "60min".to_string();
    s.message_bottles_enabled = true;
    s.message_bottles_prompted = true;
    s.close_behavior = "close".to_string();
    s.hidden_creatures = vec!["kraken".to_string()];
    s
}

fn summary(s: &GameState) -> String {
    let mut collection: Vec<String> = (0..s.collection.len())
        .map(|i| {
            let (k, v) = s.collection.entry(i);
            format!("{k}:{}:{}", v.count, v.first_seen)
        })
        .collect();
    collection.sort();
    let mut pools: Vec<String> = (0..s.pool_energy.len())
        .map(|i| {
            let (k, v) = s.pool_energy.entry(i);
            format!("{k}={v}")
        })
        .collect();
    pools.sort();
    format!(
        "{collection:?} {pools:?} {} {:?} {:?} {} {} {} {} {} {} {} {} {} {:?}",
        s.total_discoveries,
        s.pity,
        s.position_bits,
        s.size_index,
        s.send_scores,
        s.sound_enabled,
        s.music_volume_bits,
        s.day_night_cycle,
        s.message_bottles_enabled,
        s.message_bottles_prompted,
        s.close_behavior,
        s.hidden_creatures.len(),
        s.hidden_creatures
    )
}

#[test]
fn legacy_flat_energy_moves_into_typing_pool() {
    let s = GameState::from_save_file(legacy_document(Some(120)));
    assert_eq!(*s.pool_energy.get("typing").unwrap(), 120);
    assert_eq!(*s.pool_energy.get("click").unwrap(), 0);
    assert_eq!(*s.pool_energy.get("audio").unwrap(), 0);
    assert_eq!(s.pool_energy.len(), 3);
    assert_eq!(s.total_discoveries, 3);
}

#[test]
fn legacy_document_without_energy_starts_at_zero() {
    let m = migrate_pool_energy(StrMap::new(), None);
    assert_eq!(*m.get("typing").unwrap(), 0);
    assert_eq!(m.len(), 3);
}

#[test]
fn current_pools_are_not_migrated() {
    let mut pools = StrMap::new();
    pools.insert("click".to_string(), 8);
    let m = migrate_pool_energy(pools, Some(120));
    assert_eq!(m.len(), 1);
    assert_eq!(*m.get("click").unwrap(), 8);
}

#[test]
fn loading_sanitizes_the_document() {
    let mut doc = legacy_document(None);
    doc.progression.pool_energy.insert("typing".to_string(), 50_000);
    doc.progression.pool_energy.insert("cheat".to_string(), 1);
    doc.display.size_index = 99;
    let s = GameState::from_save_file(doc);
    assert_eq!(*s.pool_energy.get("typing").unwrap(), 1_000);
    assert!(!s.pool_energy.contains_key("cheat"));
    assert_eq!(s.size_index, 1);
}

#[test]
fn save_then_load_reproduces_the_state() {
    let expected = summary(&sample_state());
    let doc = sample_state().into_save_file(
        "created".to_string(),
        "saved".to_string(),
        "1.2.3".to_string(),
    );
    assert_eq!(doc.version, SAVE_VERSION);
    assert_eq!(doc.progression.energy, None);
    assert_eq!(doc.meta.created, "created");
    assert_eq!(doc.meta.app_version, "1.2.3");
    let loaded = GameState::from_save_file(doc);
    assert_eq!(summary(&loaded), expected);
}

#[test]
fn save_then_load_of_unsanitized_state_equals_sanitize() {
    let mut raw = sample_state();
    raw.size_index = 77;
    raw.pool_energy.insert("junk".to_string(), 3);
    let mut expected = sample_state();
    expected.size_index = 77;
    expected.pool_energy.insert("junk".to_string(), 3);
    sanitize(&mut expected);
    let loaded = GameState::from_save_file(raw.into_save_file(
        "c".to_string(),
        "s".to_string(),
        "v".to_string(),
    ));
    assert_eq!(summary(&loaded), summary(&expected));
}

#[test]
fn creation_timestamp_is_kept_from_existing_document() {
    let text = r#"{"version":2,"meta":{"created":"2023-03-04T05:06:07+00:00","lastSaved":"x","appVersion":"1"}}"#;
    assert_eq!(creation_timestamp(Some(text), "now".to_string()), "2023-03-04T05:06:07+00:00");
    assert_eq!(creation_timestamp(Some("not json"), "now".to_string()), "now");
    assert_eq!(creation_timestamp(Some(r#"{"meta":{"created":5}}"#), "now".to_string()), "now");
    assert_eq!(creation_timestamp(None, "now".to_string()), "now");
}

#[test]
fn load_prefers_main_then_backup_then_fresh() {
    assert_eq!(load_source(true, true), LoadSource::Main);
    assert_eq!(load_source(true, false), LoadSource::Main);
    assert_eq!(load_source(false, true), LoadSource::Backup);
    assert_eq!(load_source(false, false), LoadSource::Fresh);
}
