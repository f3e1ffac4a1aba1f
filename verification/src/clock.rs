//! Time: instants as integers, the wall clock, and RFC 3339 text.
//!
//! An instant is a count of nanoseconds since the Unix epoch, held in an
//! `i64`. The wall clock and the calendar are the `chrono` crate's.

use vstd::prelude::*;

verus! {

pub const NANOS_PER_SECOND: i64 = 1_000_000_000;

/// The RFC 3339 text of the instant `nanos`, as `chrono` writes it.
pub uninterp spec fn rfc3339_text(nanos: int) -> Seq<char>;

/// The instant that lies `subsec_nanos` after the whole second `seconds`,
/// held to the range of an `i64`.
pub open spec fn instant_of(seconds: i64, subsec_nanos: u32) -> i64 {
    let exact = seconds * 1_000_000_000 + subsec_nanos;
    if exact > i64::MAX {
        i64::MAX
    } else if exact < i64::MIN {
        i64::MIN
    } else {
        exact as i64
    }
}

/// The whole seconds since the epoch at the instant `nanos`, rounded down.
pub open spec fn seconds_of(nanos: i64) -> i64 {
    (nanos as int / 1_000_000_000) as i64
}

/// Reads the wall clock through `chrono::Utc::now`: the whole seconds since
/// the Unix epoch (`DateTime::timestamp`) and the nanoseconds into that second
/// (`DateTime::timestamp_subsec_nanos`). Nothing is claimed of the reading.
/// `chrono` panics if the system clock stands before the epoch.
#[verifier::external_body]
pub(crate) fn wall_clock() -> (r: (i64, u32)) {
    let t = chrono::Utc::now();
    (t.timestamp(), t.timestamp_subsec_nanos())
}

/// Writes an instant as RFC 3339 text: `chrono::DateTime::from_timestamp_nanos`,
/// which takes every `i64`, then `DateTime::to_rfc3339`. The text depends on
/// the instant alone; the contract names it and says no more.
#[verifier::external_body]
pub(crate) fn format_rfc3339(nanos: i64) -> (r: String)
    ensures
        r@ == rfc3339_text(nanos as int),
{
    chrono::DateTime::from_timestamp_nanos(nanos).to_rfc3339()
}

/// Joins a clock reading into one instant.
pub fn to_instant(seconds: i64, subsec_nanos: u32) -> (r: i64)
    ensures
        r == instant_of(seconds, subsec_nanos),
{
    let exact: i128 = (seconds as i128) * 1_000_000_000 + (subsec_nanos as i128);
    if exact > i64::MAX as i128 {
        i64::MAX
    } else if exact < i64::MIN as i128 {
        i64::MIN
    } else {
        exact as i64
    }
}

/// The whole seconds of an instant, rounded towards the past.
pub fn to_seconds(nanos: i64) -> (r: i64)
    ensures
        r == seconds_of(nanos),
{
    let q = nanos / NANOS_PER_SECOND;
    if nanos % NANOS_PER_SECOND < 0 {
        q - 1
    } else {
        q
    }
}

/// The present instant, whatever it is.
pub fn now() -> (r: i64) {
    let (seconds, subsec_nanos) = wall_clock();
    to_instant(seconds, subsec_nanos)
}

} // verus!
