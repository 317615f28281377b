//! The wall clock and RFC 3339 timestamps, from `chrono`.

use vstd::prelude::*;
use chrono::{DateTime, Utc};

verus! {

/// The latest second that `chrono` can represent (the end of year 262142).
pub const CHRONO_MAX_SECS: i64 = 8_210_266_876_799;

/// The last second of year 9999, the latest that RFC 3339 can write with a
/// four-digit year.
pub const RFC3339_MAX_SECS: i64 = 253_402_300_799;

/// An instant: whole seconds since the Unix epoch and the nanoseconds past
/// them.
#[derive(Debug, Clone, Copy, PartialEq, Eq)]
pub struct Instant {
    pub secs: i64,
    pub nanos: u32,
}

/// The seconds and nanoseconds of the instant that an RFC 3339 text denotes,
/// when `DateTime::parse_from_rfc3339` accepts it.
pub uninterp spec fn rfc3339_instant(text: Seq<char>) -> Option<(int, int)>;

/// The RFC 3339 text that `to_rfc3339` writes for the UTC instant
/// `(secs, nanos)`, when `DateTime::from_timestamp` can represent it.
pub uninterp spec fn rfc3339_text(secs: int, nanos: int) -> Option<Seq<char>>;

/// Whether `a` is strictly before `b`.
pub open spec fn before(a: (int, int), b: (int, int)) -> bool {
    a.0 < b.0 || (a.0 == b.0 && a.1 < b.1)
}

/// `Utc::now()`, as seconds and nanoseconds since the epoch. Claimed from
/// chrono's source: `now` fails (panics) before the epoch, the nanoseconds
/// come from `SystemTime` and stay below a second, and every `DateTime` lies
/// within chrono's range. The instant itself is the machine's time and is
/// not stated.
#[verifier::external_body]
pub(crate) fn now() -> (r: Instant)
    ensures
        0 <= r.secs <= CHRONO_MAX_SECS,
        r.nanos < 1_000_000_000,
{
    let now = Utc::now();
    Instant { secs: now.timestamp(), nanos: now.timestamp_subsec_nanos() }
}

/// `DateTime::from_timestamp(secs, nanos)` written by `to_rfc3339`. Claimed
/// from chrono's source: every instant from the epoch to chrono's last
/// second, with fewer than a billion nanoseconds, is representable; and a
/// text written for a year of at most four digits parses back, by
/// `parse_from_rfc3339`, to the same instant.
#[verifier::external_body]
pub(crate) fn format_rfc3339(at: Instant) -> (r: Option<String>)
    ensures
        r.deep_view() == rfc3339_text(at.secs as int, at.nanos as int),
        r.is_none() ==> !(0 <= at.secs <= CHRONO_MAX_SECS && at.nanos < 1_000_000_000),
        r matches Some(t) ==> (0 <= at.secs <= RFC3339_MAX_SECS && at.nanos < 1_000_000_000
            ==> rfc3339_instant(t@) == Some((at.secs as int, at.nanos as int))),
{
    match DateTime::from_timestamp(at.secs, at.nanos) {
        Some(d) => Some(d.to_rfc3339()),
        None => None,
    }
}

/// `DateTime::parse_from_rfc3339(text)`, as the instant it denotes.
#[verifier::external_body]
pub(crate) fn parse_rfc3339(text: &str) -> (r: Option<Instant>)
    ensures
        match r {
            Some(i) => rfc3339_instant(text@) == Some((i.secs as int, i.nanos as int)),
            None => rfc3339_instant(text@) is None,
        },
{
    match DateTime::parse_from_rfc3339(text) {
        Ok(d) => Some(Instant { secs: d.timestamp(), nanos: d.timestamp_subsec_nanos() }),
        Err(_) => None,
    }
}

/// Milliseconds since the epoch of an instant, as chrono's
/// `timestamp_millis` counts them: whole seconds times a thousand plus the
/// whole milliseconds of the fraction.
pub open spec fn millis_of(at: Instant) -> int {
    at.secs * 1000 + at.nanos / 1_000_000
}

/// The milliseconds since the epoch of an instant of the clock.
pub fn timestamp_millis(at: Instant) -> (r: i64)
    requires
        0 <= at.secs <= CHRONO_MAX_SECS,
        at.nanos < 1_000_000_000,
    ensures
        r == millis_of(at),
{
    at.secs * 1000 + (at.nanos / 1_000_000) as i64
}

/// The RFC 3339 text of an instant of the clock.
pub fn text_of_instant(at: Instant) -> (r: String)
    requires
        0 <= at.secs <= CHRONO_MAX_SECS,
        at.nanos < 1_000_000_000,
    ensures
        rfc3339_text(at.secs as int, at.nanos as int) == Some(r@),
        at.secs <= RFC3339_MAX_SECS ==> rfc3339_instant(r@) == Some((at.secs as int, at.nanos as int)),
{
    match format_rfc3339(at) {
        Some(t) => t,
        None => {
            proof {
                assert(false);
            }
            String::new()
        }
    }
}

/// The current time as RFC 3339 text (`Utc::now().to_rfc3339()`).
pub fn now_rfc3339() -> (r: String)
    ensures
        exists|secs: int, nanos: int|
            0 <= secs <= CHRONO_MAX_SECS && 0 <= nanos < 1_000_000_000
            && rfc3339_text(secs, nanos) == Some(r@),
{
    let at = now();
    text_of_instant(at)
}

} // verus!
