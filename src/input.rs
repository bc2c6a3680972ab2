//! Keystroke and click counters shared between input-hook threads and the
//! scheduler. Producers only increment; the scheduler drains both to zero.
//! Being concurrent, nothing is known of the counts a drain reads.
use vstd::prelude::*;
use std::sync::atomic::{AtomicU64, Ordering};

verus! {

pub struct InputCounters {
    pub keystrokes: AtomicU64,
    pub clicks: AtomicU64,
}

impl InputCounters {
    pub fn new() -> Self {
        InputCounters { keystrokes: AtomicU64::new(0), clicks: AtomicU64::new(0) }
    }

    /// Counts one keystroke, lock-free.
    pub fn record_key(&self) {
        let _ = self.keystrokes.fetch_add(1, Ordering::SeqCst);
    }

    /// Counts one click or scroll notch, lock-free.
    pub fn record_click(&self) {
        let _ = self.clicks.fetch_add(1, Ordering::SeqCst);
    }

    /// Reads and resets both counters, returning `(keystrokes, clicks)`
    /// counted since the previous drain; no increment is lost or counted
    /// twice, as each swap is atomic.
    pub fn drain(&self) -> (r: (u64, u64)) {
        let keys = self.keystrokes.swap(0, Ordering::SeqCst);
        let clicks = self.clicks.swap(0, Ordering::SeqCst);
        (keys, clicks)
    }
}

} // verus!
