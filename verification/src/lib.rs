//! Store for timestamped emotional-state samples: an in-memory single-slot
//! cache of the latest sample, a durable append-only log backed by SQLite,
//! and a coordinator that keeps the two in step.

pub mod cache;
pub mod errors;
pub mod laws;
pub mod log;
pub mod recent;
pub mod sqlite;
pub mod state;
pub mod store;
pub mod time;

pub use cache::Cache;
pub use errors::StoreError;
pub use log::Database;
pub use state::EmotionalContext;
pub use state::EmotionalState;
pub use store::Store;
