//! The local wall clock, read through chrono.

use crate::text::is_digit;
use vstd::prelude::*;

verus! {

/// `s` reads like `%H:%M:%S`: two digits, a colon, two digits, a colon,
/// two digits.
pub open spec fn is_hms(s: Seq<char>) -> bool {
    &&& s.len() == 8
    &&& s[2] == ':' && s[5] == ':'
    &&& is_digit(s[0]) && is_digit(s[1]) && is_digit(s[3])
    &&& is_digit(s[4]) && is_digit(s[6]) && is_digit(s[7])
}

/// Timestamps that chrono turns into a local date and time: well inside
/// the years it can represent, with room for any zone offset.
pub open spec fn timestamp_in_range(ts: int) -> bool {
    -8_000_000_000_000 <= ts <= 8_000_000_000_000
}

/// `chrono::Local::now()`: the current Unix timestamp and the local day
/// (`date_naive().num_days_from_ce()`). Both come from the machine's clock
/// and time zone, so nothing is said of them. chrono panics when the zone
/// data gives no offset; that case is not stated.
#[verifier::external_body]
pub(crate) fn now() -> (r: (i64, i32)) {
    let t = chrono::Local::now();
    (t.timestamp(), chrono::Datelike::num_days_from_ce(&t.date_naive()))
}

/// `chrono::Local.timestamp_opt(ts, 0)`: for a timestamp in range chrono
/// gives one local time; the result is its day (`num_days_from_ce`) and
/// its time of day formatted with `%H:%M:%S`. Which day and time depends
/// on the machine's time zone, so only the shape of the text is stated.
/// chrono panics when the zone data gives no offset; that case is not
/// stated.
#[verifier::external_body]
pub(crate) fn local_time(ts: i64) -> (r: (i32, String))
    requires
        timestamp_in_range(ts as int),
    ensures
        is_hms(r.1@),
{
    let t = chrono::TimeZone::timestamp_opt(&chrono::Local, ts, 0).unwrap();
    (chrono::Datelike::num_days_from_ce(&t.date_naive()), t.format("%H:%M:%S").to_string())
}

} // verus!
