use ascii_reef::input::InputCounters;
use ascii_reef::settings::{normalize_close_behavior, normalize_day_night_cycle, size_preset, SizePreset};
use ascii_reef::state::{GameState, PityCounters, OwnedCreature};

#[test]
fn size_presets_and_refusal() {
    assert_eq!(size_preset(0), Some(SizePreset { cols: 40, rows: 16, width: 360, height: 256 }));
    assert_eq!(size_preset(7), Some(SizePreset { cols: 120, rows: 24, width: 1080, height: 384 }));
    assert_eq!(size_preset(8), None);
    let mut s = GameState::default();
    assert_eq!(s.apply_size_index(8), Err("Invalid size preset".to_string()));
    assert_eq!(s.size_index, 1);
    assert_eq!(
        s.apply_size_index(3),
        Ok(SizePreset { cols: 80, rows: 16, width: 720, height: 256 })
    );
    assert_eq!(s.size_index, 3);
}

#[test]
fn cycle_and_close_behavior_are_normalized() {
    assert_eq!(normalize_day_night_cycle("3hours".to_string()), "3hours");
    assert_eq!(normalize_day_night_cycle("24hours".to_string()), "computer");
    assert_eq!(normalize_close_behavior("close".to_string()), "close");
    assert_eq!(normalize_close_behavior("explode".to_string()), "ask");
    let mut s = GameState::default();
    s.apply_day_night_cycle("5min".to_string());
    s.apply_close_behavior("nope".to_string());
    assert_eq!(s.day_night_cycle, "5min");
    assert_eq!(s.close_behavior, "ask");
}

#[test]
fn message_bottle_prompt_stays_set() {
    let mut s = GameState::default();
    s.set_message_bottles_preferences(true, true);
    assert!(s.message_bottles_enabled && s.message_bottles_prompted);
    s.set_message_bottles_preferences(false, false);
    assert!(!s.message_bottles_enabled && s.message_bottles_prompted);
}

#[test]
fn reset_clears_progress_and_keeps_settings() {
    let mut s = GameState::default();
    s.collection.insert("eel".to_string(), OwnedCreature { count: 2, first_seen: "t".to_string() });
    s.pool_energy.insert("typing".to_string(), 30);
    s.pool_energy.insert("click".to_string(), 12);
    s.total_discoveries = 9;
    s.pity = PityCounters { legendary: 4, epic: 1, rare: 2, uncommon: 3 };
    s.size_index = 5;
    s.reset_progress();
    assert_eq!(s.collection.len(), 0);
    assert_eq!(*s.pool_energy.get("typing").unwrap(), 0);
    assert_eq!(*s.pool_energy.get("click").unwrap(), 0);
    assert_eq!(*s.pool_energy.get("audio").unwrap(), 0);
    assert_eq!(s.pool_energy.len(), 3);
    assert_eq!(s.total_discoveries, 0);
    assert_eq!(s.pity, PityCounters::default());
    assert_eq!(s.size_index, 5);
}

#[test]
fn input_counters_drain_once() {
    let c = InputCounters::new();
    for _ in 0..47 {
        c.record_key();
    }
    c.record_click();
    c.record_click();
    assert_eq!(c.drain(), (47, 2));
    assert_eq!(c.drain(), (0, 0));
}

#[test]
fn default_state_values() {
    let s = GameState::default();
    assert_eq!(s.collection.len(), 0);
    assert_eq!(s.pool_energy.len(), 3);
    assert_eq!(s.size_index, 1);
    assert!(s.send_scores);
    assert!(!s.sound_enabled);
    assert_eq!(f32::from_bits(s.music_volume_bits), 0.08);
    assert_eq!(s.day_night_cycle, "computer");
    assert_eq!(s.close_behavior, "ask");
    assert_eq!(s.position_bits, (0, 0));
}
