//! Timestamps arrive on the wire as RFC 3339 text; the storage layer keys
//! rows by a single integer. This module turns one into the other through
//! chrono, behind a trusted wrapper.

use vstd::prelude::*;

verus! {

/// Why a timestamp was rejected.
#[derive(Clone, Copy, PartialEq, Eq, Structural, Debug)]
pub enum TimeError {
    /// The text is not a timestamp in the wire format.
    Unparseable,
}

/// What chrono yields on these bytes with the fixed wire format, expressed
/// as microseconds since the Unix epoch; `None` where chrono rejects the
/// text or the bytes are not UTF-8.
pub uninterp spec fn rfc3339_micros_of(s: Seq<u8>) -> Option<i64>;

/// Relies on chrono's `NaiveDateTime::parse_from_str` with the format
/// `%Y-%m-%dT%H:%M:%S%.f%Z`, and on `NaiveDateTime::and_utc` together with
/// `DateTime::timestamp_micros` for the integer representation. The result
/// is a function of the input bytes alone.
#[verifier::external_body]
fn parse_rfc3339_micros(ts: &Vec<u8>) -> (r: Option<i64>)
    ensures
        r == rfc3339_micros_of(ts@),
{
    let s = match core::str::from_utf8(ts) {
        Ok(s) => s,
        Err(_) => return None,
    };
    match chrono::NaiveDateTime::parse_from_str(s, "%Y-%m-%dT%H:%M:%S%.f%Z") {
        Ok(dt) => Some(dt.and_utc().timestamp_micros()),
        Err(_) => None,
    }
}

/// Converts a wire timestamp to its storage representation, microseconds
/// since the Unix epoch: `Ok` exactly when the text parses.
pub fn timestamp_to_time(ts: &Vec<u8>) -> (r: Result<i64, TimeError>)
    ensures
        match r {
            Ok(t) => rfc3339_micros_of(ts@) == Some(t),
            Err(_) => rfc3339_micros_of(ts@) is None,
        },
{
    match parse_rfc3339_micros(ts) {
        Some(t) => Ok(t),
        None => Err(TimeError::Unparseable),
    }
}

} // verus!
