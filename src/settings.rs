//! Validation of display settings changed by the user: window size presets,
//! the day/night cycle and the close-button behaviour.
use vstd::prelude::*;
use crate::save::{known_close_behavior, known_cycle, string_is};
use crate::state::{GameModel, GameState, SIZE_PRESET_COUNT};

verus! {

/// A window size: the tank in character cells and the window in logical
/// pixels.
#[derive(Clone, Copy, Debug, PartialEq, Eq, Structural)]
pub struct SizePreset {
    pub cols: u32,
    pub rows: u32,
    pub width: u32,
    pub height: u32,
}

/// The presets, smallest first; a character cell is about 9 by 16 pixels.
pub open spec fn preset_table(idx: int) -> SizePreset {
    if idx == 0 {
        SizePreset { cols: 40, rows: 16, width: 360, height: 256 }
    } else if idx == 1 {
        SizePreset { cols: 60, rows: 16, width: 540, height: 256 }
    } else if idx == 2 {
        SizePreset { cols: 60, rows: 24, width: 540, height: 384 }
    } else if idx == 3 {
        SizePreset { cols: 80, rows: 16, width: 720, height: 256 }
    } else if idx == 4 {
        SizePreset { cols: 80, rows: 24, width: 720, height: 384 }
    } else if idx == 5 {
        SizePreset { cols: 100, rows: 16, width: 900, height: 256 }
    } else if idx == 6 {
        SizePreset { cols: 100, rows: 24, width: 900, height: 384 }
    } else {
        SizePreset { cols: 120, rows: 24, width: 1080, height: 384 }
    }
}

/// The preset at `idx`, if there is one.
pub fn size_preset(idx: usize) -> (r: Option<SizePreset>)
    ensures
        r.is_some() == (idx < SIZE_PRESET_COUNT),
        r matches Some(p) ==> p == preset_table(idx as int),
{
    let p = if idx == 0 {
        SizePreset { cols: 40, rows: 16, width: 360, height: 256 }
    } else if idx == 1 {
        SizePreset { cols: 60, rows: 16, width: 540, height: 256 }
    } else if idx == 2 {
        SizePreset { cols: 60, rows: 24, width: 540, height: 384 }
    } else if idx == 3 {
        SizePreset { cols: 80, rows: 16, width: 720, height: 256 }
    } else if idx == 4 {
        SizePreset { cols: 80, rows: 24, width: 720, height: 384 }
    } else if idx == 5 {
        SizePreset { cols: 100, rows: 16, width: 900, height: 256 }
    } else if idx == 6 {
        SizePreset { cols: 100, rows: 24, width: 900, height: 384 }
    } else if idx == 7 {
        SizePreset { cols: 120, rows: 24, width: 1080, height: 384 }
    } else {
        return None;
    };
    Some(p)
}

/// A known day/night cycle mode is kept; anything else becomes "computer".
pub fn normalize_day_night_cycle(cycle: String) -> (r: String)
    ensures
        r@ == if known_cycle(cycle@) { cycle@ } else { "computer"@ },
{
    if string_is(&cycle, "computer") || string_is(&cycle, "5min") || string_is(&cycle, "10min")
        || string_is(&cycle, "60min") || string_is(&cycle, "3hours") {
        cycle
    } else {
        "computer".to_owned()
    }
}

/// A known close-button behaviour is kept; anything else becomes "ask".
pub fn normalize_close_behavior(behavior: String) -> (r: String)
    ensures
        r@ == if known_close_behavior(behavior@) { behavior@ } else { "ask"@ },
{
    if string_is(&behavior, "ask") || string_is(&behavior, "hide") || string_is(&behavior, "close") {
        behavior
    } else {
        "ask".to_owned()
    }
}

impl GameState {
    /// Selects the size preset at `idx` and returns it; an index past the
    /// presets is refused and changes nothing.
    pub fn apply_size_index(&mut self, idx: usize) -> (r: Result<SizePreset, String>)
        ensures
            r.is_ok() == (idx < SIZE_PRESET_COUNT),
            r matches Ok(p) ==> p == preset_table(idx as int)
                && final(self)@ == (GameModel { size_index: idx, ..old(self)@ }),
            r.is_err() ==> final(self)@ == old(self)@,
    {
        match size_preset(idx) {
            Some(p) => {
                self.size_index = idx;
                Ok(p)
            },
            None => Err("Invalid size preset".to_owned()),
        }
    }

    /// Stores the day/night cycle, normalized.
    pub fn apply_day_night_cycle(&mut self, cycle: String)
        ensures
            final(self)@ == (GameModel {
                day_night_cycle: if known_cycle(cycle@) { cycle@ } else { "computer"@ },
                ..old(self)@
            }),
    {
        self.day_night_cycle = normalize_day_night_cycle(cycle);
    }

    /// Stores the close-button behaviour, normalized.
    pub fn apply_close_behavior(&mut self, behavior: String)
        ensures
            final(self)@ == (GameModel {
                close_behavior: if known_close_behavior(behavior@) { behavior@ } else { "ask"@ },
                ..old(self)@
            }),
    {
        self.close_behavior = normalize_close_behavior(behavior);
    }
}

} // verus!
