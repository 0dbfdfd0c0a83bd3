//! Trusted boundary to the `chrono` crate: validation of the RFC 3339
//! timestamps that exchange sessions carry.

use vstd::prelude::*;

verus! {

/// A moment in time: seconds since the Unix epoch, in UTC, with the
/// sub-second nanoseconds.
#[derive(Debug, PartialEq, Eq, Structural, Clone, Copy)]
pub struct UtcInstant {
    pub seconds: i64,
    pub nanos: u32,
}

/// The instant an RFC 3339 date-and-time string denotes, as a pair of
/// epoch seconds and sub-second nanoseconds, or nothing when the string
/// is not a valid RFC 3339 date-and-time.
pub uninterp spec fn rfc3339_instant(s: Seq<char>) -> Option<(i64, u32)>;

/// Relies on `chrono::DateTime::parse_from_rfc3339`, `DateTime::timestamp`
/// and `DateTime::timestamp_subsec_nanos`: parses an RFC 3339 string into
/// the instant it denotes. The result depends on the characters alone.
#[verifier::external_body]
pub fn parse_rfc3339(s: &str) -> (r: Option<(i64, u32)>)
    ensures
        r == rfc3339_instant(s@),
{
    match chrono::DateTime::parse_from_rfc3339(s) {
        Ok(dt) => Some((dt.timestamp(), dt.timestamp_subsec_nanos())),
        Err(_) => None,
    }
}

/// The instant an RFC 3339 string denotes, as a [`UtcInstant`].
pub fn parse_instant(s: &str) -> (r: Option<UtcInstant>)
    ensures
        match r {
            Some(t) => rfc3339_instant(s@) == Some((t.seconds, t.nanos)),
            None => rfc3339_instant(s@) is None,
        },
{
    match parse_rfc3339(s) {
        Some((seconds, nanos)) => Some(UtcInstant { seconds, nanos }),
        None => None,
    }
}

} // verus!
