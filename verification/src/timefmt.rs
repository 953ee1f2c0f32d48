//! Rendering an activity's creation time (seconds since the Unix epoch) as
//! an RFC 3339 / ISO 8601 string. The rendering itself is done by the
//! `chrono` crate; this module pins down exactly when it succeeds and gives
//! its text a name that the formatter's contract can speak of.
use vstd::prelude::*;

verus! {

/// The smallest number of seconds since the epoch that `chrono` can turn
/// into a date (midnight of the first day of year -262143).
pub const RFC3339_MIN_SECS: i64 = -8_334_601_228_800;

/// The largest number of seconds since the epoch that `chrono` can turn
/// into a date (the last second of year 262142).
pub const RFC3339_MAX_SECS: i64 = 8_210_266_876_799;

/// Whether a creation time can be rendered as an RFC 3339 string at all.
pub open spec fn rfc3339_representable(secs: i64) -> bool {
    RFC3339_MIN_SECS <= secs && secs <= RFC3339_MAX_SECS
}

/// The RFC 3339 text of a representable timestamp. The text depends on the
/// number of seconds alone; its exact shape is left to `chrono`.
pub uninterp spec fn rfc3339_of(secs: int) -> Seq<char>;

/// Relies on `chrono::DateTime::<Utc>::from_timestamp` (which returns `Some`
/// exactly for seconds whose date fits chrono's year range, the bounds named
/// above) and on `chrono::DateTime::to_rfc3339` (whose text is a function of
/// the timestamp alone; the offset here is always UTC).
#[verifier::external_body]
pub(crate) fn rfc3339_from_timestamp(secs: i64) -> (r: Option<String>)
    ensures
        r is Some <==> rfc3339_representable(secs),
        r matches Some(s) ==> s@ == rfc3339_of(secs as int),
{
    match chrono::DateTime::from_timestamp(secs, 0) {
        Some(ts) => Some(ts.to_rfc3339()),
        None => None,
    }
}

} // verus!
