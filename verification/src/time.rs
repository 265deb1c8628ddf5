//! Timestamp rendering and reading, through chrono. The durable log keeps
//! each sample's instant as RFC 3339 text; in memory an instant is a count
//! of milliseconds since the Unix epoch, UTC.

use vstd::prelude::*;

use crate::state::valid_timestamp;

verus! {

/// The RFC 3339 text chrono renders for the UTC instant `millis`
/// milliseconds after the Unix epoch; a function of the instant alone.
pub uninterp spec fn rfc3339_of(millis: i64) -> Seq<char>;

/// The instant chrono reads out of `text`, in milliseconds since the Unix
/// epoch, or `None` where the text does not name one; a function of the
/// text alone.
pub uninterp spec fn parsed_rfc3339(text: Seq<char>) -> Option<i64>;

/// Relies on chrono's `DateTime::from_timestamp_millis`, which accepts every
/// instant up to year 9999, and `DateTime::to_rfc3339`: the rendering is a
/// pure function of the instant, and chrono's own parser reads the rendering
/// back to the same instant.
#[verifier::external_body]
pub(crate) fn format_rfc3339(millis: i64) -> (r: String)
    requires
        valid_timestamp(millis),
    ensures
        r@ == rfc3339_of(millis),
        parsed_rfc3339(r@) == Some(millis),
{
    let dt = chrono::DateTime::<chrono::Utc>::from_timestamp_millis(millis).unwrap();
    dt.to_rfc3339()
}

/// Relies on chrono's RFC 3339 parser, reached through `str::parse` for
/// `DateTime<Utc>`: the outcome is a pure function of the text.
#[verifier::external_body]
pub(crate) fn parse_rfc3339(text: &str) -> (r: Option<i64>)
    ensures
        r == parsed_rfc3339(text@),
{
    match text.parse::<chrono::DateTime<chrono::Utc>>() {
        Ok(dt) => Some(dt.timestamp_millis()),
        Err(_) => None,
    }
}

/// Relies on chrono's `Utc::now`. Nothing is promised of the clock's
/// reading: callers treat it as an arbitrary instant.
#[verifier::external_body]
pub(crate) fn now_millis() -> i64 {
    chrono::Utc::now().timestamp_millis()
}

} // verus!
