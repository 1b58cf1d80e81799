//! Points in time.
//!
//! A timestamp is a count of microseconds since the Unix epoch, in UTC.
//! The model keeps every stored timestamp inside the years 1 to 9999, so
//! that the RFC 3339 textual form used by the persistence layer always
//! exists and always round-trips. Reading the clock and converting to and
//! from text come from the `chrono` crate through the trusted items below.

use vstd::prelude::*;

verus! {

/// 0001-01-01T00:00:00Z, in microseconds since the Unix epoch.
pub const TS_MIN: i64 = -62_135_596_800_000_000;

/// 9999-12-31T23:59:59.999999Z, in microseconds since the Unix epoch.
pub const TS_MAX: i64 = 253_402_300_799_999_999;

/// A timestamp the model is willing to store.
pub open spec fn ts_in_range(t: i64) -> bool {
    TS_MIN <= t <= TS_MAX
}

/// Decides whether a timestamp is storable.
pub fn ts_ok(t: i64) -> (r: bool)
    ensures
        r == ts_in_range(t),
{
    TS_MIN <= t && t <= TS_MAX
}

/// The RFC 3339 text of the UTC instant that lies `t` microseconds after
/// the Unix epoch, as `chrono`'s `to_rfc3339` writes it. It depends on `t`
/// alone.
pub uninterp spec fn rfc3339_of(t: i64) -> Seq<char>;

/// Relies on `chrono::Utc::now` and `timestamp_micros`: a reading of the
/// system clock. Nothing is promised of the value.
#[verifier::external_body]
fn clock_micros() -> i64 {
    chrono::Utc::now().timestamp_micros()
}

/// The current time, forced into the storable range. Whatever the clock
/// reports, the result is a timestamp every other operation accepts.
pub fn now_timestamp() -> (r: i64)
    ensures
        ts_in_range(r),
{
    let raw = clock_micros();
    if raw < TS_MIN {
        TS_MIN
    } else if raw > TS_MAX {
        TS_MAX
    } else {
        raw
    }
}

/// Relies on `chrono::DateTime::from_timestamp_micros`, which returns
/// `Some` for every count within a few hundred thousand years of the
/// epoch, and on `to_rfc3339`, whose result depends on the instant alone.
#[verifier::external_body]
pub(crate) fn format_timestamp(t: i64) -> (r: String)
    requires
        ts_in_range(t),
    ensures
        r@ == rfc3339_of(t),
{
    match chrono::DateTime::<chrono::Utc>::from_timestamp_micros(t) {
        Some(d) => d.to_rfc3339(),
        None => String::new(),
    }
}

/// Relies on `chrono::DateTime::parse_from_rfc3339`: it parses every
/// string `to_rfc3339` produces and, after `with_timezone(&Utc)` and
/// `timestamp_micros`, recovers the instant that was formatted.
#[verifier::external_body]
pub(crate) fn parse_timestamp(s: &String) -> (r: Option<i64>)
    ensures
        forall|t: i64| ts_in_range(t) && s@ == rfc3339_of(t) ==> r == Some(t),
{
    match chrono::DateTime::parse_from_rfc3339(s.as_str()) {
        Ok(d) => Some(d.with_timezone(&chrono::Utc).timestamp_micros()),
        Err(_) => None,
    }
}

} // verus!
