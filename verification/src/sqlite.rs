//! The durable log's storage calls, through rusqlite. Everything here is
//! trusted: each function's contract states what the SQLite call does to the
//! one table the log owns, and the verified log logic is proved against
//! these contracts.
//!
//! The model is `db_rows`: the rows of the `emotional_states` table, in
//! rowid order, taken as empty while the table does not exist. Each
//! connection is held exclusively by one [`crate::log::Database`], so the
//! table's contents change only through these calls.

use vstd::prelude::*;

use crate::errors::StoreError;
use crate::log::LogRow;
use crate::state::EmotionalState;

verus! {

#[verifier::external_type_specification]
#[verifier::external_body]
pub struct ExConnection(rusqlite::Connection);

/// The rows of the connection's `emotional_states` table, in rowid order;
/// empty while the table does not exist.
pub uninterp spec fn db_rows(conn: rusqlite::Connection) -> Seq<LogRow>;

pub(crate) const CREATE_STATES_SQL: &'static str = "CREATE TABLE IF NOT EXISTS emotional_states (
    id INTEGER PRIMARY KEY AUTOINCREMENT,
    timestamp TEXT NOT NULL,
    focus INTEGER NOT NULL,
    stress INTEGER NOT NULL,
    confusion INTEGER NOT NULL,
    flow INTEGER NOT NULL,
    valence INTEGER NOT NULL,
    arousal INTEGER NOT NULL,
    context TEXT
)";

pub(crate) const CREATE_SESSIONS_SQL: &'static str = "CREATE TABLE IF NOT EXISTS sessions (
    id INTEGER PRIMARY KEY AUTOINCREMENT,
    start_time TEXT NOT NULL,
    end_time TEXT,
    avg_focus INTEGER,
    avg_stress INTEGER,
    avg_flow INTEGER,
    notes TEXT
)";

pub(crate) const INSERT_STATE_SQL: &'static str =
    "INSERT INTO emotional_states (timestamp, focus, stress, confusion, flow, valence, arousal, context)
    VALUES (?1, ?2, ?3, ?4, ?5, ?6, ?7, ?8)";

pub(crate) const SELECT_STATES_SQL: &'static str =
    "SELECT id, timestamp, focus, stress, confusion, flow, valence, arousal, context
    FROM emotional_states ORDER BY id ASC";

/// Relies on rusqlite's `Connection::open`: opens or creates the database
/// file at `path`. What the file already holds is unknown here; the schema
/// calls below leave existing rows alone.
#[verifier::external_body]
pub(crate) fn open_connection(path: &str) -> (r: Result<rusqlite::Connection, StoreError>)
    ensures
        r matches Err(e) ==> e == StoreError::StorageUnavailable,
{
    match rusqlite::Connection::open(path) {
        Ok(conn) => Ok(conn),
        Err(_) => Err(StoreError::StorageUnavailable),
    }
}

/// Relies on rusqlite's `Connection::execute` running
/// `CREATE TABLE IF NOT EXISTS emotional_states ...`: creating an empty
/// table, or keeping an existing one, leaves the modelled rows as they were.
#[verifier::external_body]
pub(crate) fn create_states_table(conn: &mut rusqlite::Connection) -> (r: Result<
    (),
    StoreError,
>)
    ensures
        db_rows(*final(conn)) == db_rows(*old(conn)),
        r matches Err(e) ==> e == StoreError::StorageUnavailable,
{
    match conn.execute(CREATE_STATES_SQL, ()) {
        Ok(_) => Ok(()),
        Err(_) => Err(StoreError::StorageUnavailable),
    }
}

/// Relies on rusqlite's `Connection::execute` running
/// `CREATE TABLE IF NOT EXISTS sessions ...`. The sessions table is reserved
/// schema with no read or write path; the emotional-state rows are untouched.
#[verifier::external_body]
pub(crate) fn create_sessions_table(conn: &mut rusqlite::Connection) -> (r: Result<
    (),
    StoreError,
>)
    ensures
        db_rows(*final(conn)) == db_rows(*old(conn)),
        r matches Err(e) ==> e == StoreError::StorageUnavailable,
{
    match conn.execute(CREATE_SESSIONS_SQL, ()) {
        Ok(_) => Ok(()),
        Err(_) => Err(StoreError::StorageUnavailable),
    }
}

/// Relies on rusqlite's `Connection::execute` running a single-row `INSERT`,
/// and `Connection::last_insert_rowid`. SQLite appends the row and, with
/// `AUTOINCREMENT`, assigns it a rowid strictly greater than every rowid the
/// table has ever held; a failed insert leaves the table unchanged.
#[verifier::external_body]
pub(crate) fn insert_state_row(
    conn: &mut rusqlite::Connection,
    timestamp_text: String,
    state: &EmotionalState,
) -> (r: Result<i64, StoreError>)
    ensures
        r matches Ok(id) ==> {
            &&& db_rows(*final(conn)) == db_rows(*old(conn)).push(
                (LogRow {
                    id: id,
                    timestamp_text: timestamp_text,
                    focus: state.focus,
                    stress: state.stress,
                    confusion: state.confusion,
                    flow: state.flow,
                    valence: state.valence,
                    arousal: state.arousal,
                    context: state.context,
                }),
            )
            &&& forall|i: int|
                0 <= i < db_rows(*old(conn)).len() ==> db_rows(*old(conn))[i].id < id
        },
        r matches Err(e) ==> db_rows(*final(conn)) == db_rows(*old(conn))
            && e == StoreError::WriteFailed,
{
    let res = conn.execute(INSERT_STATE_SQL, (
        timestamp_text, state.focus, state.stress, state.confusion,
        state.flow, state.valence, state.arousal, state.context.as_deref(),
    ));
    match res {
        Ok(_) => Ok(conn.last_insert_rowid()),
        Err(_) => Err(StoreError::WriteFailed),
    }
}

/// Relies on rusqlite's `Connection::prepare` and `Statement::query_map`
/// running `SELECT ... ORDER BY id ASC`: returns exactly the table's rows in
/// rowid order, each column read back as it was stored.
#[verifier::external_body]
pub(crate) fn select_all_rows(conn: &rusqlite::Connection) -> (r: Result<
    Vec<LogRow>,
    StoreError,
>)
    ensures
        r matches Ok(v) ==> v@ == db_rows(*conn),
        r matches Err(e) ==> e == StoreError::StorageUnavailable,
{
    let res = conn.prepare(SELECT_STATES_SQL).and_then(|mut stmt| {
        stmt.query_map((), |row| Ok(LogRow {
            id: row.get(0)?, timestamp_text: row.get(1)?, focus: row.get(2)?,
            stress: row.get(3)?, confusion: row.get(4)?, flow: row.get(5)?,
            valence: row.get(6)?, arousal: row.get(7)?, context: row.get(8)?,
        }))?.collect::<rusqlite::Result<Vec<LogRow>>>()
    });
    res.map_err(|_| StoreError::StorageUnavailable)
}

} // verus!
