//! The durable log: a persistent, append-only record of every accepted
//! sample, with bounded most-recent-first queries.

use vstd::prelude::*;

use crate::errors::StoreError;
use crate::recent;
use crate::recent::recent_selection;
use crate::sqlite;
use crate::sqlite::db_rows;
use crate::state::valid_timestamp;
use crate::state::EmotionalState;
use crate::time;
use crate::time::parsed_rfc3339;

verus! {

/// One stored row of the log: the assigned identifier, the sample's instant
/// as RFC 3339 text, and the six metrics plus context as they were given.
pub struct LogRow {
    pub id: i64,
    pub timestamp_text: String,
    pub focus: i64,
    pub stress: i64,
    pub confusion: i64,
    pub flow: i64,
    pub valence: i64,
    pub arousal: i64,
    pub context: Option<String>,
}

/// The sample a stored row decodes to. A row whose timestamp text does not
/// parse is tolerated rather than dropped: its instant is taken to be `now`,
/// the moment of the query, so one bad row cannot make history unreadable.
pub open spec fn decode_row(row: LogRow, now: i64) -> EmotionalState {
    EmotionalState {
        timestamp: match parsed_rfc3339(row.timestamp_text@) {
            Some(t) => t,
            None => now,
        },
        focus: row.focus,
        stress: row.stress,
        confusion: row.confusion,
        flow: row.flow,
        valence: row.valence,
        arousal: row.arousal,
        context: row.context,
    }
}

/// All rows decoded, in storage order.
pub open spec fn decoded_states(rows: Seq<LogRow>, now: i64) -> Seq<EmotionalState> {
    rows.map_values(|row: LogRow| decode_row(row, now))
}

/// How one append changes the log: every prior row is kept unchanged, one
/// row is added at the end, its identifier is strictly greater than every
/// identifier already present, and it decodes back to the appended sample
/// whatever instant a later query runs at.
pub open spec fn appended(
    old_rows: Seq<LogRow>,
    new_rows: Seq<LogRow>,
    state: EmotionalState,
    id: i64,
) -> bool {
    &&& new_rows.len() == old_rows.len() + 1
    &&& forall|i: int| 0 <= i < old_rows.len() ==> new_rows[i] == old_rows[i]
    &&& new_rows.last().id == id
    &&& forall|i: int| 0 <= i < old_rows.len() ==> old_rows[i].id < id
    &&& forall|now: i64| decode_row(new_rows.last(), now) == state
}

/// Decodes every row, substituting `now` for an unreadable timestamp.
pub fn decode_rows(rows: Vec<LogRow>, now: i64) -> (out: Vec<EmotionalState>)
    ensures
        out@ == decoded_states(rows@, now),
{
    let mut out: Vec<EmotionalState> = Vec::new();
    let mut k: usize = 0;
    while k < rows.len()
        invariant
            k <= rows@.len(),
            out@.len() == k,
            forall|i: int| 0 <= i < k ==> out@[i] == decode_row(rows@[i], now),
        decreases rows@.len() - k,
    {
        let row = &rows[k];
        let timestamp: i64 = match time::parse_rfc3339(row.timestamp_text.as_str()) {
            Some(t) => t,
            None => now,
        };
        let state = EmotionalState {
            timestamp,
            focus: row.focus,
            stress: row.stress,
            confusion: row.confusion,
            flow: row.flow,
            valence: row.valence,
            arousal: row.arousal,
            context: match &row.context {
                Some(c) => Some(c.clone()),
                None => None,
            },
        };
        out.push(state);
        k += 1;
    }
    proof {
        assert(out@ =~= decoded_states(rows@, now));
    }
    out
}

/// The durable log. It owns its SQLite connection exclusively: the modelled
/// rows change only through [`Database::log_emotional_state`].
pub struct Database {
    conn: rusqlite::Connection,
}

impl Database {
    /// The rows currently in the log, in storage order.
    pub closed spec fn rows(&self) -> Seq<LogRow> {
        db_rows(self.conn)
    }

    /// Opens (or creates) the database at `path` and ensures the schema:
    /// the emotional-state table and the reserved, unused sessions table.
    /// Idempotent: an already-initialized database keeps its rows.
    pub fn new(path: &str) -> (r: Result<Database, StoreError>)
        ensures
            r matches Err(e) ==> e == StoreError::StorageUnavailable,
    {
        let mut conn = sqlite::open_connection(path)?;
        sqlite::create_states_table(&mut conn)?;
        sqlite::create_sessions_table(&mut conn)?;
        Ok(Database { conn })
    }

    /// Appends one sample. On success the returned identifier is strictly
    /// greater than that of every row already stored; on failure the log is
    /// unchanged.
    pub fn log_emotional_state(&mut self, state: &EmotionalState) -> (r: Result<
        i64,
        StoreError,
    >)
        requires
            valid_timestamp(state.timestamp),
        ensures
            r matches Ok(id) ==> appended(old(self).rows(), final(self).rows(), *state, id),
            r matches Err(e) ==> final(self).rows() == old(self).rows()
                && e == StoreError::WriteFailed,
    {
        let timestamp_text = time::format_rfc3339(state.timestamp);
        let id = sqlite::insert_state_row(&mut self.conn, timestamp_text, state)?;
        Ok(id)
    }

    /// Returns up to `limit` stored samples, most recent first: the first
    /// `limit` entries of some most-recent-first arrangement of everything
    /// stored, decoded at some query instant.
    pub fn get_emotional_history(&self, limit: usize) -> (r: Result<
        Vec<EmotionalState>,
        StoreError,
    >)
        ensures
            r matches Ok(v) ==> exists|now: i64|
                recent_selection(decoded_states(self.rows(), now), limit as int, v@),
            r matches Err(e) ==> e == StoreError::StorageUnavailable,
    {
        let rows = sqlite::select_all_rows(&self.conn)?;
        let now = time::now_millis();
        let states = decode_rows(rows, now);
        let out = recent::select_recent(states, limit);
        proof {
            assert(recent_selection(decoded_states(self.rows(), now), limit as int, out@));
        }
        Ok(out)
    }
}

} // verus!
