//! Instants parsed from RFC 3339 text, and the freshness window.
use vstd::prelude::*;

verus! {

/// Nanoseconds in one second.
pub const NANOS_PER_SECOND: i128 = 1_000_000_000;

/// Length of the freshness window: 30 hours, in nanoseconds.
pub const WINDOW_NANOS: i128 = 108_000_000_000_000;

/// An instant on the UTC time line: whole seconds since the Unix epoch and
/// the nanoseconds past that second (above a billion only in a leap second).
#[derive(Debug, Clone, Copy, PartialEq, Eq, Structural)]
pub struct Timestamp {
    pub seconds: i64,
    pub nanos: u32,
}

impl Timestamp {
    /// The instant as a count of nanoseconds since the Unix epoch.
    pub open spec fn nanos_since_epoch(self) -> int {
        self.seconds as int * NANOS_PER_SECOND as int + self.nanos as int
    }
}

/// The UTC instant, as (seconds since the epoch, nanoseconds past the second),
/// that chrono reads from RFC 3339 text, or `None` where it rejects the text.
pub uninterp spec fn rfc3339_instant(s: Seq<char>) -> Option<(i64, u32)>;

/// The instant that `s` names, if it is valid RFC 3339.
pub open spec fn parsed_instant(s: Seq<char>) -> Option<Timestamp> {
    match rfc3339_instant(s) {
        Some((seconds, nanos)) => Some(Timestamp { seconds, nanos }),
        None => None,
    }
}

/// Relies on chrono's `DateTime::parse_from_rfc3339`, then `timestamp` and
/// `timestamp_subsec_nanos` of the result: the instant depends on the text alone.
#[verifier::external_body]
pub fn parse_rfc3339(s: &str) -> (r: Option<Timestamp>)
    ensures
        r is Some <==> rfc3339_instant(s@) is Some,
        r is Some ==> rfc3339_instant(s@) == Some((r->0.seconds, r->0.nanos)),
{
    match chrono::DateTime::parse_from_rfc3339(s) {
        Ok(t) => Some(Timestamp { seconds: t.timestamp(), nanos: t.timestamp_subsec_nanos() }),
        Err(_) => None,
    }
}

/// Relies on chrono's `Utc::now`: the current time, of which nothing is known.
#[verifier::external_body]
pub fn utc_now() -> (r: Timestamp) {
    let t = chrono::Utc::now();
    Timestamp { seconds: t.timestamp(), nanos: t.timestamp_subsec_nanos() }
}

/// Whether an item that ended at `end` is recent enough, seen at `now`, to
/// count towards a rate: strictly less than 30 hours old.
pub open spec fn within_window(now: Timestamp, end: Timestamp) -> bool {
    now.nanos_since_epoch() - end.nanos_since_epoch() < WINDOW_NANOS as int
}

/// Decides `within_window(now, end)`.
pub fn is_recent(now: Timestamp, end: Timestamp) -> (r: bool)
    ensures
        r == within_window(now, end),
{
    let n: i128 = now.seconds as i128 * NANOS_PER_SECOND + now.nanos as i128;
    let e: i128 = end.seconds as i128 * NANOS_PER_SECOND + end.nanos as i128;
    n - e < WINDOW_NANOS
}

} // verus!
