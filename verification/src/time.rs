//! Points in time.
//!
//! A timestamp counts microseconds since 1970-01-01T00:00:00 UTC, the
//! resolution at which the relational store keeps them.

use vstd::prelude::*;

verus! {

/// Microseconds since the Unix epoch, UTC.
pub type Timestamp = i64;

/// The epoch itself: the boundaries of a run that has none yet.
pub const EPOCH: i64 = 0;

#[verifier::external_type_specification]
#[verifier::external_body]
pub struct ExParseError(chrono::format::ParseError);

/// The timestamp that `chrono::NaiveDateTime::parse_from_str` reads out of
/// a text under a format, `None` where it rejects the pair.
pub uninterp spec fn parsed_datetime(text: Seq<char>, format: Seq<char>) -> Option<i64>;

/// `chrono::NaiveDateTime::parse_from_str`, with the date and time handed
/// back as microseconds since the epoch (`and_utc().timestamp_micros()`).
///
/// Trusted: the outcome is a function of text and format alone, named
/// [`parsed_datetime`]; a text that does not fit the format is an error.
#[verifier::external_body]
pub(crate) fn parse_naive_datetime(text: &str, format: &str) -> (r: Result<
    i64,
    chrono::format::ParseError,
>)
    ensures
        match r {
            Ok(t) => parsed_datetime(text@, format@) == Some(t),
            Err(_) => parsed_datetime(text@, format@) is None,
        },
{
    match chrono::NaiveDateTime::parse_from_str(text, format) {
        Ok(t) => Ok(t.and_utc().timestamp_micros()),
        Err(e) => Err(e),
    }
}

/// Whole milliseconds since the epoch, rounded towards the past.
pub open spec fn millis_of(t: i64) -> int {
    t as int / 1000
}

/// Whole milliseconds since the epoch, rounded towards the past.
pub fn timestamp_millis(t: Timestamp) -> (ms: i64)
    ensures
        ms == millis_of(t),
        ms * 1000 <= t < ms * 1000 + 1000,
{
    if t >= 0 {
        t / 1000
    } else {
        let q: i64 = t / 1000;
        let r: i64 = t % 1000;
        if r == 0 {
            q
        } else {
            q - 1
        }
    }
}

} // verus!
