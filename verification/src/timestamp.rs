//! Points in time, as an article records them.
//!
//! Reading a timestamp from text is the `chrono` crate's work. A
//! [`Timestamp`] keeps the instant it found, in UTC.

use std::str::FromStr;
use vstd::prelude::*;

verus! {

/// What parsing a text as a `chrono::DateTime<Utc>` gives: nothing where the
/// parser reports an error, otherwise the instant's whole seconds since the
/// Unix epoch and the nanoseconds past that second.
pub uninterp spec fn parsed_utc(input: Seq<char>) -> Option<(i64, u32)>;

/// Calls `<chrono::DateTime<chrono::Utc> as FromStr>::from_str`, then
/// `DateTime::timestamp` and `DateTime::timestamp_subsec_nanos` on what it
/// returns. The contract only names the outcome.
#[verifier::external_body]
fn parse_utc_parts(input: &str) -> (r: Option<(i64, u32)>)
    ensures
        r == parsed_utc(input@),
{
    match chrono::DateTime::<chrono::Utc>::from_str(input) {
        Ok(t) => Some((t.timestamp(), t.timestamp_subsec_nanos())),
        Err(_) => None,
    }
}

/// An instant in UTC.
#[derive(Debug, Clone, Copy, PartialEq, Eq, Structural)]
pub struct Timestamp {
    /// Whole seconds since the Unix epoch.
    pub seconds: i64,
    /// Nanoseconds past that second.
    pub nanos: u32,
}

impl Timestamp {
    /// The timestamp that a text holds, if it holds one.
    pub open spec fn of_text(input: Seq<char>) -> Option<Timestamp> {
        match parsed_utc(input) {
            Some((seconds, nanos)) => Some(Timestamp { seconds, nanos }),
            None => None,
        }
    }

    /// Reads a timestamp in RFC 3339 form, such as `2024-05-01T12:00:00Z`.
    pub fn parse(input: &str) -> (r: Option<Timestamp>)
        ensures
            r == Timestamp::of_text(input@),
    {
        match parse_utc_parts(input) {
            Some(parts) => Some(Timestamp { seconds: parts.0, nanos: parts.1 }),
            None => None,
        }
    }
}

} // verus!
