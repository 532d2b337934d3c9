//! Formatting a Unix timestamp as a human-readable UTC date string,
//! through chrono.

use vstd::prelude::*;

verus! {

/// The smallest number of seconds since the Unix epoch that chrono's
/// calendar can represent: 00:00:00 on the first day of its earliest year.
pub const MIN_FORMATTABLE_TS: i64 = -8334601228800;

/// The largest number of seconds since the Unix epoch that chrono's
/// calendar can represent: 23:59:59 on the last day of its latest year.
pub const MAX_FORMATTABLE_TS: i64 = 8210266876799;

/// Whether a timestamp lies in the range chrono can turn into a calendar
/// date and time.
pub open spec fn ts_formattable(ts: int) -> bool {
    MIN_FORMATTABLE_TS <= ts <= MAX_FORMATTABLE_TS
}

/// The text chrono renders for a formattable timestamp, interpreted as UTC
/// at seconds granularity: weekday name, month name, day, year and
/// time-of-day. It is a function of the timestamp alone.
pub uninterp spec fn date_text(ts: int) -> Seq<char>;

/// What `timestamp_to_date_string` returns: the rendered date text for a
/// formattable timestamp, absent for one out of range.
pub open spec fn spec_format(ts: int) -> Option<Seq<char>> {
    if ts_formattable(ts) {
        Some(date_text(ts))
    } else {
        None
    }
}

/// The view of an optional owned string, for stating contracts over results
/// that may be absent.
pub open spec fn opt_string_view(r: Option<String>) -> Option<Seq<char>> {
    match r {
        Some(s) => Some(s@),
        None => None,
    }
}

/// Relies on chrono's `DateTime::<Utc>::from_timestamp` and its strftime-style
/// formatting: `from_timestamp(secs, 0)` returns `Some` exactly when the
/// seconds lie in chrono's representable range (its source rejects precisely
/// the days outside its minimum and maximum calendar dates), and the text
/// rendered with `"%A, %B %d, %Y %H:%M:%S"` depends on the timestamp alone
/// and is never empty.
#[verifier::external_body]
fn chrono_format_utc(ts: i64) -> (r: Option<String>)
    ensures
        r is Some <==> ts_formattable(ts as int),
        r matches Some(s) ==> s@ == date_text(ts as int) && s@.len() > 0,
{
    match chrono::DateTime::<chrono::Utc>::from_timestamp(ts, 0) {
        Some(dt) => Some(dt.naive_utc().format("%A, %B %d, %Y %H:%M:%S").to_string()),
        None => None,
    }
}

/// Format a timestamp (seconds since the Unix epoch, interpreted as UTC) as
/// a human-readable date string. Returns `None` exactly when the timestamp
/// lies outside the representable calendar range; that is not an error but
/// a signal that no date is available.
pub fn timestamp_to_date_string(timestamp: i64) -> (r: Option<String>)
    ensures
        opt_string_view(r) == spec_format(timestamp as int),
        r matches Some(s) ==> s@.len() > 0,
{
    chrono_format_utc(timestamp)
}

} // verus!
