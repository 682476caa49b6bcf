use vstd::prelude::*;

verus! {

/// The earliest instant chrono represents, January 1 of the year -262143 at
/// midnight UTC, in milliseconds since the Unix epoch.
pub open spec fn chrono_min_millis() -> int {
    -8_334_601_228_800_000
}

/// The last millisecond chrono represents, December 31 of the year 262142
/// at 23:59:59.999 UTC, in milliseconds since the Unix epoch.
pub open spec fn chrono_max_millis() -> int {
    8_210_266_876_799_999
}

/// Whether `chrono::DateTime::<Utc>::from_timestamp_millis` accepts the
/// number of milliseconds: it does exactly for the instants of chrono's
/// date range.
pub open spec fn chrono_millis_in_range(millis: i64) -> bool {
    chrono_min_millis() <= millis <= chrono_max_millis()
}

/// Reads the wall clock through `chrono::Utc::now` and returns it as
/// milliseconds since the Unix epoch (`DateTime::timestamp_millis`).
/// Claimed: the reading is not before the epoch (`Utc::now` panics on a
/// clock set earlier) and lies in chrono's range (it builds the instant with
/// `from_timestamp(..).unwrap()`). Which instant it is, is not predictable.
#[verifier::external_body]
pub(crate) fn now_millis() -> (r: i64)
    ensures
        0 <= r,
        chrono_millis_in_range(r),
{
    chrono::Utc::now().timestamp_millis()
}

/// Asks `chrono::DateTime::<Utc>::from_timestamp_millis` whether it can
/// represent the instant. Claimed: the answer is `chrono_millis_in_range`.
/// The bounds follow from chrono's source: the day count of the instant
/// must name a date between `NaiveDate::MIN` (January 1, -262143) and
/// `NaiveDate::MAX` (December 31, 262142); the time of day is always valid.
#[verifier::external_body]
fn chrono_accepts_millis(millis: i64) -> (r: bool)
    ensures
        r == chrono_millis_in_range(millis),
{
    chrono::DateTime::<chrono::Utc>::from_timestamp_millis(millis).is_some()
}

/// The instant a stored timestamp reads as: the timestamp itself when
/// chrono can represent it, else the Unix epoch (chrono's default instant).
pub open spec fn readable_millis(millis: i64) -> i64 {
    if chrono_millis_in_range(millis) { millis } else { 0 }
}

/// Normalizes a stored timestamp the way it is read back: unrepresentable
/// instants fall back to the Unix epoch.
pub fn timestamp_or_epoch(millis: i64) -> (r: i64)
    ensures
        r == readable_millis(millis),
{
    if chrono_accepts_millis(millis) {
        millis
    } else {
        0
    }
}

/// `timestamp_or_epoch` applied inside an optional timestamp.
pub fn optional_timestamp_or_epoch(millis: Option<i64>) -> (r: Option<i64>)
    ensures
        r == (match millis {
            Some(m) => Some(readable_millis(m)),
            None => None,
        }),
{
    match millis {
        Some(m) => Some(timestamp_or_epoch(m)),
        None => None,
    }
}

} // verus!
