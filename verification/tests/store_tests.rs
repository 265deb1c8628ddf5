//! End-to-end tests of the store against a real SQLite database kept in
//! memory.

use empathos::Cache;
use empathos::Database;
use empathos::EmotionalContext;
use empathos::EmotionalState;
use empathos::Store;
use empathos::StoreError;

fn sample(timestamp: i64, focus: i64, context: Option<&str>) -> EmotionalState {
    EmotionalState {
        timestamp,
        focus,
        stress: 310,
        confusion: 120,
        flow: 640,
        valence: -250,
        arousal: 480,
        context: context.map(|c| c.to_string()),
    }
}

fn memory_store() -> Store {
    let db = Database::new(":memory:").expect("open in-memory database");
    Store::new(Cache::initialize(), db)
}

#[test]
fn default_before_first_write() {
    let store = memory_store();
    let current = store.get_emotional_state();
    assert_eq!(current.focus, 500);
    assert_eq!(current.stress, 300);
    assert_eq!(current.confusion, 200);
    assert_eq!(current.flow, 400);
    assert_eq!(current.valence, 0);
    assert_eq!(current.arousal, 500);
    assert!(current.context.is_none());
}

#[test]
fn write_then_read_coherence() {
    let mut store = memory_store();
    let s = sample(1_700_000_000_123, 720, Some("editor"));
    store.update_emotional_state(s.clone()).expect("append succeeds");
    assert_eq!(store.get_emotional_state(), s);
}

#[test]
fn history_ordering() {
    let mut store = memory_store();
    store.update_emotional_state(sample(3_000, 1, Some("late"))).unwrap();
    store.update_emotional_state(sample(1_000, 2, Some("early"))).unwrap();
    store.update_emotional_state(sample(2_000, 3, Some("middle"))).unwrap();
    let history = store.get_emotional_history(3).expect("history readable");
    assert_eq!(history.len(), 3);
    assert_eq!(history[0], sample(3_000, 1, Some("late")));
    assert_eq!(history[1], sample(2_000, 3, Some("middle")));
    assert_eq!(history[2], sample(1_000, 2, Some("early")));
}

#[test]
fn history_limit_respected() {
    let mut store = memory_store();
    for t in [5_000i64, 1_000, 4_000, 2_000, 3_000] {
        store.update_emotional_state(sample(t, 0, None)).unwrap();
    }
    let two = store.get_emotional_history(2).unwrap();
    assert_eq!(two.len(), 2);
    assert_eq!(two[0].timestamp, 5_000);
    assert_eq!(two[1].timestamp, 4_000);
    let none = store.get_emotional_history(0).unwrap();
    assert!(none.is_empty());
    let all = store.get_emotional_history(100).unwrap();
    assert_eq!(all.len(), 5);
    let timestamps: Vec<i64> = all.iter().map(|s| s.timestamp).collect();
    assert_eq!(timestamps, vec![5_000, 4_000, 3_000, 2_000, 1_000]);
}

#[test]
fn immutability_requery_keeps_prior_records() {
    let mut store = memory_store();
    let first = sample(10_000, 100, Some("one"));
    let second = sample(20_000, 200, None);
    store.update_emotional_state(first.clone()).unwrap();
    store.update_emotional_state(second.clone()).unwrap();
    let before = store.get_emotional_history(10).unwrap();
    store.update_emotional_state(sample(30_000, 300, Some("three"))).unwrap();
    store.update_emotional_state(sample(5_000, 400, None)).unwrap();
    let after = store.get_emotional_history(10).unwrap();
    assert_eq!(after.len(), 4);
    for record in &before {
        assert!(after.iter().filter(|r| *r == record).count() >= 1);
    }
    assert_eq!(after[3], sample(5_000, 400, None));
    assert_eq!(after[1], second);
}

#[test]
fn append_ids_unique() {
    let db = Database::new(":memory:").expect("open in-memory database");
    let mut db = db;
    let mut ids: Vec<i64> = Vec::new();
    for t in 0..8i64 {
        let id = db.log_emotional_state(&sample(1_000 + t, t, None)).unwrap();
        ids.push(id);
    }
    for i in 0..ids.len() {
        for j in 0..ids.len() {
            if i != j {
                assert_ne!(ids[i], ids[j]);
            }
        }
    }
    let history = db.get_emotional_history(8).unwrap();
    assert_eq!(history.len(), 8);
    for i in 0..history.len() {
        for j in 0..history.len() {
            if i != j {
                assert_ne!(history[i].timestamp, history[j].timestamp);
            }
        }
    }
}

#[test]
fn partial_failure_keeps_cache_ahead() {
    let uri = "file:partial_failure_db?mode=memory&cache=shared";
    let keeper = rusqlite::Connection::open(uri).expect("open shared memory db");
    let db = Database::new(uri).expect("initialize shared memory db");
    let mut store = Store::new(Cache::initialize(), db);
    store.update_emotional_state(sample(1_000, 10, None)).expect("first append succeeds");
    keeper.execute("DROP TABLE emotional_states", ()).expect("drop table");
    let failed = sample(2_000, 20, Some("lost"));
    let err = store.update_emotional_state(failed.clone()).unwrap_err();
    assert_eq!(err, StoreError::WriteFailed);
    assert_eq!(store.get_emotional_state(), failed);
    keeper
        .execute(
            "CREATE TABLE emotional_states (
                id INTEGER PRIMARY KEY AUTOINCREMENT,
                timestamp TEXT NOT NULL,
                focus INTEGER NOT NULL,
                stress INTEGER NOT NULL,
                confusion INTEGER NOT NULL,
                flow INTEGER NOT NULL,
                valence INTEGER NOT NULL,
                arousal INTEGER NOT NULL,
                context TEXT
            )",
            (),
        )
        .expect("recreate table");
    let history = store.get_emotional_history(10).expect("history readable again");
    assert!(history.iter().all(|r| r.timestamp != 2_000));
}

#[test]
fn storage_unavailable_on_bad_path() {
    let err = match Database::new("/nonexistent-empathos-dir/empathos.db") {
        Ok(_) => panic!("opening a database under a missing directory should fail"),
        Err(e) => e,
    };
    assert_eq!(err, StoreError::StorageUnavailable);
}

#[test]
fn error_descriptions() {
    assert_eq!(StoreError::StorageUnavailable.describe(), "storage unavailable");
    assert_eq!(StoreError::WriteFailed.describe(), "write failed");
    assert_eq!(StoreError::LockFailure.describe(), "lock failure");
    assert_eq!(StoreError::LockFailure, StoreError::LockFailure);
    assert_ne!(StoreError::WriteFailed, StoreError::StorageUnavailable);
}

#[test]
fn timestamp_survives_storage_exactly() {
    let mut store = memory_store();
    let precise = sample(1_699_999_123_456, 42, Some("precise"));
    store.update_emotional_state(precise.clone()).unwrap();
    let history = store.get_emotional_history(1).unwrap();
    assert_eq!(history[0].timestamp, 1_699_999_123_456);
    assert_eq!(history[0], precise);
}

#[test]
fn malformed_timestamp_tolerated_with_current_time() {
    let uri = "file:malformed_row_db?mode=memory&cache=shared";
    let keeper = rusqlite::Connection::open(uri).expect("open shared memory db");
    let mut db = Database::new(uri).expect("initialize shared memory db");
    db.log_emotional_state(&sample(1_000, 10, None)).unwrap();
    keeper
        .execute(
            "INSERT INTO emotional_states
                (timestamp, focus, stress, confusion, flow, valence, arousal, context)
             VALUES ('not-a-timestamp', 77, 0, 0, 0, 0, 0, 'bad-row')",
            (),
        )
        .expect("insert malformed row");
    let history = db.get_emotional_history(10).expect("one bad row must not break history");
    assert_eq!(history.len(), 2);
    let bad = history
        .iter()
        .find(|r| r.context.as_deref() == Some("bad-row"))
        .expect("malformed row still returned");
    assert_eq!(bad.focus, 77);
    // Its instant was substituted with the query time, which is long after
    // the well-formed record's.
    assert!(bad.timestamp > 1_600_000_000_000);
    assert_eq!(history[0].context.as_deref(), Some("bad-row"));
    assert_eq!(history[1].timestamp, 1_000);
}

#[test]
fn default_sample_has_documented_values() {
    let d = EmotionalState::default();
    assert_eq!(d.focus, 500);
    assert_eq!(d.stress, 300);
    assert_eq!(d.confusion, 200);
    assert_eq!(d.flow, 400);
    assert_eq!(d.valence, 0);
    assert_eq!(d.arousal, 500);
    assert!(d.context.is_none());
}

#[test]
fn context_label_round_trip() {
    let ctx = EmotionalContext {
        app_name: "editor".to_string(),
        activity_type: "writing".to_string(),
        duration_seconds: 90,
    };
    let copy = ctx.clone();
    assert_eq!(copy.app_name, "editor");
    assert_eq!(copy.activity_type, "writing");
    assert_eq!(copy.duration_seconds, 90);
}
