//! Instants in UTC, backed by `chrono` for the clock, parsing and durations.
use vstd::prelude::*;
use chrono::{DateTime, Utc};

verus! {

/// An instant in UTC: whole seconds since the Unix epoch and the nanoseconds past them,
/// as `chrono::DateTime<Utc>` reports them through `timestamp()` and `timestamp_subsec_nanos()`.
#[derive(Clone, Copy, Debug, PartialEq, Eq, Structural)]
pub struct Timestamp {
    pub secs: i64,
    pub nanos: u32,
}

/// Nanoseconds per second.
pub open spec fn nanos_per_sec() -> int {
    1_000_000_000
}

/// Nanoseconds per minute.
pub open spec fn nanos_per_minute() -> int {
    60_000_000_000
}

/// Integer division rounding toward zero, as Rust's `/` on integers does.
pub open spec fn div_toward_zero(x: int, d: int) -> int
    recommends
        d > 0,
{
    if x >= 0 {
        x / d
    } else {
        -((-x) / d)
    }
}

impl Timestamp {
    /// The instant in nanoseconds since the epoch.
    pub open spec fn total_nanos(self) -> int {
        self.secs * nanos_per_sec() + self.nanos
    }

    /// The order of `chrono::DateTime<Utc>`: by seconds, then by the nanoseconds past them.
    pub open spec fn at_or_before(self, other: Timestamp) -> bool {
        self.secs < other.secs || (self.secs == other.secs && self.nanos <= other.nanos)
    }

    /// An instant that `chrono::DateTime::from_timestamp` accepts as it is: within some thirty
    /// thousand years of the epoch and not inside a leap second.
    pub open spec fn in_calendar_range(self) -> bool {
        -1_000_000_000_000 <= self.secs <= 1_000_000_000_000 && self.nanos < 1_000_000_000
    }

    /// `self <= other` as `chrono` orders instants.
    pub fn at_or_before_exec(&self, other: &Timestamp) -> (r: bool)
        ensures
            r == self.at_or_before(*other),
    {
        self.secs < other.secs || (self.secs == other.secs && self.nanos <= other.nanos)
    }

    /// The instant `secs` whole seconds after the epoch.
    pub fn from_secs(secs: i64) -> (t: Timestamp)
        ensures
            t.secs == secs,
            t.nanos == 0,
    {
        Timestamp { secs, nanos: 0 }
    }
}

/// What `DateTime::parse_from_rfc3339(s)`, taken to UTC, gives for a string.
pub uninterp spec fn rfc3339_instant(s: Seq<char>) -> Option<Timestamp>;

/// What `(end - start).num_minutes()` of two `DateTime<Utc>` gives, where both instants can be
/// built by `DateTime::from_timestamp`.
pub uninterp spec fn chrono_whole_minutes(end: Timestamp, start: Timestamp) -> Option<i64>;

/// `chrono::Utc::now()`. Claimed: an instant at or after the epoch, with fewer than a billion
/// nanoseconds past its second (it is built from `SystemTime` through `DateTime::from_timestamp`).
/// Which instant comes back depends on the clock and is left unsaid.
#[verifier::external_body]
fn utc_now_outside() -> (t: Timestamp)
    ensures
        t.secs >= 0,
        t.nanos < 1_000_000_000,
{
    let now = Utc::now();
    Timestamp { secs: now.timestamp(), nanos: now.timestamp_subsec_nanos() }
}

/// The current instant.
pub fn now() -> (t: Timestamp)
    ensures
        t.secs >= 0,
        t.nanos < 1_000_000_000,
{
    utc_now_outside()
}

/// `DateTime::parse_from_rfc3339(s)` followed by `with_timezone(&Utc)`. Claimed: the named
/// result, a function of the string alone; the grammar it accepts is left unsaid.
#[verifier::external_body]
fn parse_rfc3339_outside(s: &str) -> (r: Option<Timestamp>)
    ensures
        r == rfc3339_instant(s@),
{
    match DateTime::parse_from_rfc3339(s) {
        Ok(d) => {
            let u = d.with_timezone(&Utc);
            Some(Timestamp { secs: u.timestamp(), nanos: u.timestamp_subsec_nanos() })
        },
        Err(_) => None,
    }
}

/// Parses an RFC 3339 date and time and takes it to UTC; `None` where it does not parse.
pub fn parse_rfc3339(s: &str) -> (r: Option<Timestamp>)
    ensures
        r == rfc3339_instant(s@),
{
    parse_rfc3339_outside(s)
}

/// `(end - start).num_minutes()` on `chrono::DateTime<Utc>`, both built with
/// `DateTime::from_timestamp`; `None` where either instant cannot be built. Claimed: the named
/// result; for instants in calendar range it is the whole minutes between them, rounded toward
/// zero (`TimeDelta::num_seconds` rounds toward zero, then `num_minutes` divides by 60).
#[verifier::external_body]
fn whole_minutes_outside(end: &Timestamp, start: &Timestamp) -> (r: Option<i64>)
    ensures
        r == chrono_whole_minutes(*end, *start),
        (end.in_calendar_range() && start.in_calendar_range()) ==> r == Some(
            div_toward_zero(end.total_nanos() - start.total_nanos(), nanos_per_minute()) as i64,
        ),
{
    match (DateTime::from_timestamp(end.secs, end.nanos), DateTime::from_timestamp(start.secs, start.nanos)) {
        (Some(e), Some(s)) => Some((e - s).num_minutes()),
        _ => None,
    }
}

/// The whole minutes from `start` to `end`, rounded toward zero, as `chrono` counts them.
pub fn whole_minutes_between(end: &Timestamp, start: &Timestamp) -> (r: Option<i64>)
    ensures
        r == chrono_whole_minutes(*end, *start),
        (end.in_calendar_range() && start.in_calendar_range()) ==> r == Some(
            div_toward_zero(end.total_nanos() - start.total_nanos(), nanos_per_minute()) as i64,
        ),
{
    whole_minutes_outside(end, start)
}

} // verus!
