//! The coordinator over the cache and the durable log: updates go to the
//! cache first and are then, independently, appended to the log; reads of
//! the current sample come from the cache alone; history reads come from
//! the log alone.

use vstd::prelude::*;

use crate::cache::Cache;
use crate::errors::StoreError;
use crate::log::appended;
use crate::log::decoded_states;
use crate::log::Database;
use crate::log::LogRow;
use crate::recent::recent_selection;
use crate::state::valid_timestamp;
use crate::state::EmotionalState;

verus! {

/// One store per process: the single source of truth for the current sample
/// and the only writer of the durable log. Both parts are supplied by the
/// caller, so a test can hand in a log kept in memory.
pub struct Store {
    cache: Cache,
    db: Database,
}

impl Store {
    /// The sample the cache holds.
    pub closed spec fn current(&self) -> EmotionalState {
        self.cache.current()
    }

    /// The rows the durable log holds.
    pub closed spec fn rows(&self) -> Seq<LogRow> {
        self.db.rows()
    }

    /// Couples a cache and a log into one coordinator.
    pub fn new(cache: Cache, db: Database) -> (s: Store)
        ensures
            s.current() == cache.current(),
            s.rows() == db.rows(),
    {
        Store { cache, db }
    }

    /// Returns the cache's current sample. Never touches storage.
    pub fn get_emotional_state(&self) -> (s: EmotionalState)
        ensures
            s == self.current(),
    {
        self.cache.read()
    }

    /// Accepts a new sample: writes it to the cache, then appends it to the
    /// durable log. The cache is updated even when the append fails — the
    /// error is surfaced while the in-memory state stays changed (best-effort
    /// durability, authoritative liveness; there is no rollback).
    pub fn update_emotional_state(&mut self, new_state: EmotionalState) -> (r: Result<
        i64,
        StoreError,
    >)
        requires
            valid_timestamp(new_state.timestamp),
        ensures
            final(self).current() == new_state,
            r matches Ok(id) ==> appended(old(self).rows(), final(self).rows(), new_state, id),
            r matches Err(e) ==> final(self).rows() == old(self).rows()
                && e == StoreError::WriteFailed,
    {
        let for_log = new_state.clone();
        self.cache.write(new_state);
        self.db.log_emotional_state(&for_log)
    }

    /// Returns up to `limit` stored samples, most recent first; delegates to
    /// the durable log.
    pub fn get_emotional_history(&self, limit: usize) -> (r: Result<
        Vec<EmotionalState>,
        StoreError,
    >)
        ensures
            r matches Ok(v) ==> exists|now: i64|
                recent_selection(decoded_states(self.rows(), now), limit as int, v@),
            r matches Err(e) ==> e == StoreError::StorageUnavailable,
    {
        let r = self.db.get_emotional_history(limit);
        proof {
            if r is Ok {
                let v = r->Ok_0;
                let now = choose|n: i64|
                    recent_selection(decoded_states(self.db.rows(), n), limit as int, v@);
                assert(recent_selection(decoded_states(self.rows(), now), limit as int, v@));
            }
        }
        r
    }
}

} // verus!
