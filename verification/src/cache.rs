//! The current-state cache: a single in-memory slot holding the latest
//! accepted sample, for low-latency reads independent of durable storage.

use vstd::prelude::*;

use crate::state::default_state;
use crate::state::EmotionalState;

verus! {

/// A single-slot register. It holds exactly one sample at all times; writes
/// replace it unconditionally and reads copy it out, so a reader never sees
/// a partially written record.
pub struct Cache {
    slot: EmotionalState,
}

impl Cache {
    /// The sample currently held.
    pub closed spec fn current(&self) -> EmotionalState {
        self.slot
    }

    /// A cache pre-populated with the documented default sample, stamped
    /// with the moment of initialization, so the very first read returns a
    /// sane value rather than an error.
    pub fn initialize() -> (c: Cache)
        ensures
            c.current() == default_state(c.current().timestamp),
    {
        Cache { slot: EmotionalState::default() }
    }

    /// Returns a copy of the current sample. Never fails, never touches
    /// storage.
    pub fn read(&self) -> (s: EmotionalState)
        ensures
            s == self.current(),
    {
        self.slot.clone()
    }

    /// Replaces the current sample unconditionally: no merge, no
    /// validation, last writer wins. Never fails.
    pub fn write(&mut self, s: EmotionalState)
        ensures
            final(self).current() == s,
    {
        self.slot = s;
    }
}

} // verus!
