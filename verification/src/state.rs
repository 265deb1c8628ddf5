//! The shared data model: a single timestamped sample of six bounded affect
//! metrics plus an optional context label.
//!
//! Each metric is held as an integer number of thousandths of its nominal
//! unit scale (so `500` stands for the midpoint of a `0`-to-`1` metric), and
//! the timestamp as milliseconds since the Unix epoch, UTC. The store never
//! rejects out-of-range metric values; consumers are expected to keep
//! `focus`, `stress`, `confusion`, `flow` and `arousal` within `0..=1000`
//! and `valence` within `-1000..=1000`.

use vstd::prelude::*;

verus! {

/// Latest timestamp (milliseconds) that the log can format durably:
/// the last instant of year 9999, the top of the four-digit-year range.
pub const MAX_TIMESTAMP_MILLIS: i64 = 253_402_300_799_999;

/// A timestamp the store accepts: non-negative (at or after the Unix epoch)
/// and within the durable text format's four-digit-year range.
pub open spec fn valid_timestamp(t: i64) -> bool {
    0 <= t <= MAX_TIMESTAMP_MILLIS
}

/// One emotional-state sample.
#[derive(Debug)]
pub struct EmotionalState {
    /// Milliseconds since the Unix epoch, UTC.
    pub timestamp: i64,
    /// Thousandths; nominally `0..=1000`.
    pub focus: i64,
    /// Thousandths; nominally `0..=1000`.
    pub stress: i64,
    /// Thousandths; nominally `0..=1000`.
    pub confusion: i64,
    /// Thousandths; nominally `0..=1000`.
    pub flow: i64,
    /// Thousandths; nominally `-1000..=1000` (unpleasant to pleasant).
    pub valence: i64,
    /// Thousandths; nominally `0..=1000` (calm to excited).
    pub arousal: i64,
    /// Free-text label naming the originating activity; `None` when unknown.
    pub context: Option<String>,
}

/// Whether two optional context labels carry the same text.
pub open spec fn same_context(a: Option<String>, b: Option<String>) -> bool {
    match (a, b) {
        (Some(x), Some(y)) => x@ == y@,
        (None, None) => true,
        _ => false,
    }
}

/// Whether two samples agree field by field (context compared by its text).
pub open spec fn same_state(a: EmotionalState, b: EmotionalState) -> bool {
    &&& a.timestamp == b.timestamp
    &&& a.focus == b.focus
    &&& a.stress == b.stress
    &&& a.confusion == b.confusion
    &&& a.flow == b.flow
    &&& a.valence == b.valence
    &&& a.arousal == b.arousal
    &&& same_context(a.context, b.context)
}

impl Clone for EmotionalState {
    fn clone(&self) -> (r: Self)
        ensures
            r == *self,
    {
        EmotionalState {
            timestamp: self.timestamp,
            focus: self.focus,
            stress: self.stress,
            confusion: self.confusion,
            flow: self.flow,
            valence: self.valence,
            arousal: self.arousal,
            context: match &self.context {
                Some(c) => Some(c.clone()),
                None => None,
            },
        }
    }
}

impl PartialEq for EmotionalState {
    fn eq(&self, other: &Self) -> (r: bool) {
        let ctx_eq: bool = match (&self.context, &other.context) {
            (Some(a), Some(b)) => *a == *b,
            (None, None) => true,
            _ => false,
        };
        self.timestamp == other.timestamp && self.focus == other.focus
            && self.stress == other.stress && self.confusion == other.confusion
            && self.flow == other.flow && self.valence == other.valence
            && self.arousal == other.arousal && ctx_eq
    }
}

impl vstd::std_specs::cmp::PartialEqSpecImpl for EmotionalState {
    open spec fn obeys_eq_spec() -> bool {
        true
    }

    open spec fn eq_spec(&self, other: &Self) -> bool {
        same_state(*self, *other)
    }
}

/// The documented default sample served before any explicit write:
/// mid focus, low-mid stress, low confusion, mid-low flow, neutral valence,
/// mid arousal, no context, stamped with the moment of initialization.
pub open spec fn default_state(now: i64) -> EmotionalState {
    EmotionalState {
        timestamp: now,
        focus: 500,
        stress: 300,
        confusion: 200,
        flow: 400,
        valence: 0,
        arousal: 500,
        context: None,
    }
}

/// Builds the documented default sample for the given initialization time.
pub fn make_default_state(now: i64) -> (s: EmotionalState)
    ensures
        s == default_state(now),
{
    EmotionalState {
        timestamp: now,
        focus: 500,
        stress: 300,
        confusion: 200,
        flow: 400,
        valence: 0,
        arousal: 500,
        context: None,
    }
}

impl Default for EmotionalState {
    /// The documented default sample, stamped with the moment of the call.
    fn default() -> (r: Self)
        ensures
            r == default_state(r.timestamp),
    {
        make_default_state(crate::time::now_millis())
    }
}

/// A label for the activity a sample was taken under. Reserved for
/// collaborators that attribute samples to applications; the store itself
/// only carries it.
#[derive(Debug, Clone)]
pub struct EmotionalContext {
    pub app_name: String,
    pub activity_type: String,
    pub duration_seconds: u64,
}

} // verus!
