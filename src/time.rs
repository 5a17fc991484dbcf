//! Offset-aware instants, as read from RFC 3339 text.
use vstd::prelude::*;

verus! {

/// An instant together with the UTC offset it was written in.
#[derive(Debug, Clone, Copy, PartialEq, Eq, Structural)]
pub struct Timestamp {
    /// Whole seconds since 1970-01-01T00:00:00Z.
    pub seconds: i64,
    /// Nanoseconds past `seconds` (above 999_999_999 only within a leap second).
    pub nanos: u32,
    /// Seconds to add to UTC to get the local time of the text.
    pub offset: i32,
}

/// The instant that RFC 3339 text denotes, or `None` where it is not RFC 3339.
pub uninterp spec fn rfc3339_of(text: Seq<char>) -> Option<Timestamp>;

/// Relies on chrono's `DateTime::parse_from_rfc3339`, which reads RFC 3339 text
/// into an offset-aware instant and fails on any other text; the instant is
/// taken apart with `timestamp`, `timestamp_subsec_nanos` and
/// `FixedOffset::local_minus_utc`.
#[verifier::external_body]
pub(crate) fn parse_rfc3339(text: &str) -> (r: Option<Timestamp>)
    ensures
        r == rfc3339_of(text@),
{
    match chrono::DateTime::parse_from_rfc3339(text) {
        Ok(dt) => Some(
            Timestamp {
                seconds: dt.timestamp(),
                nanos: dt.timestamp_subsec_nanos(),
                offset: dt.offset().local_minus_utc(),
            },
        ),
        Err(_) => None,
    }
}

} // verus!
