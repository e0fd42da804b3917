//! Instants as the watcher compares them, and the RFC 3339 texts it stores.

use vstd::prelude::*;

verus! {

/// An instant in UTC: whole seconds since the Unix epoch, and nanoseconds
/// within that second (above 999_999_999 only inside a leap second).
#[derive(Clone, Copy, Debug, PartialEq, Eq, Structural)]
pub struct Instant {
    pub secs: i64,
    pub nanos: u32,
}

/// `a` is strictly later than `b`.
pub open spec fn later(a: Instant, b: Instant) -> bool {
    a.secs > b.secs || (a.secs == b.secs && a.nanos > b.nanos)
}

/// Whether `a` is strictly later than `b`.
pub fn is_later(a: &Instant, b: &Instant) -> (r: bool)
    ensures
        r == later(*a, *b),
{
    a.secs > b.secs || (a.secs == b.secs && a.nanos > b.nanos)
}

/// The instant that `chrono::DateTime::parse_from_rfc3339` reads from
/// `text`, as (seconds since the epoch, subsecond nanoseconds) in UTC, or
/// `None` where it refuses the text.
pub uninterp spec fn rfc3339_instant(text: Seq<char>) -> Option<(i64, u32)>;

/// `chrono::DateTime::parse_from_rfc3339`, followed by `timestamp` and
/// `timestamp_subsec_nanos` of the parsed date: the contract says that the
/// call succeeds exactly where the named result is `Some`, and gives that
/// instant.
#[verifier::external_body]
pub(crate) fn parse_rfc3339(text: &str) -> (r: Result<Instant, chrono::ParseError>)
    ensures
        (r is Ok) == (rfc3339_instant(text@) is Some),
        r matches Ok(t) ==> rfc3339_instant(text@) == Some((t.secs, t.nanos)),
{
    match chrono::DateTime::parse_from_rfc3339(text) {
        Ok(d) => Ok(Instant { secs: d.timestamp(), nanos: d.timestamp_subsec_nanos() }),
        Err(e) => Err(e),
    }
}

/// `chrono::Utc::now().timestamp()`: the current time in whole seconds since
/// the epoch.  Nothing is promised of its value, which depends on the clock.
/// chrono panics when the system clock reads before the epoch: a state of the
/// machine, not of any argument, so no `requires` can exclude it.
#[verifier::external_body]
pub(crate) fn current_unix_time() -> (now: i64) {
    chrono::Utc::now().timestamp()
}

} // verus!
