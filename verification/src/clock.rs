//! Points in time, read and rendered through chrono.

use chrono::{DateTime, SecondsFormat, Utc};
use vstd::prelude::*;

verus! {

/// The first second that chrono's calendar can hold: the start of the year -262143.
pub const MIN_SECONDS: i64 = -8_334_601_228_800;

/// The last second that chrono's calendar can hold: the end of the year 262142.
pub const MAX_SECONDS: i64 = 8_210_266_876_799;

/// Nanoseconds in a second.
pub const NANOS_PER_SECOND: u32 = 1_000_000_000;

/// A point in time in UTC, outside leap seconds and within chrono's calendar.
#[derive(Clone, Copy, Debug, PartialEq, Eq, Structural)]
pub struct Timestamp {
    secs: i64,
    nanos: u32,
}

/// Whether chrono's calendar holds the point `nanos` nanoseconds past the second `secs`.
pub open spec fn in_calendar(secs: i64, nanos: u32) -> bool {
    &&& MIN_SECONDS <= secs <= MAX_SECONDS
    &&& nanos < NANOS_PER_SECOND
}

/// The milliseconds from the first point to the second, rounded towards zero.
pub open spec fn elapsed_millis(
    from_secs: int,
    from_nanos: int,
    to_secs: int,
    to_nanos: int,
) -> int {
    let nanos = (to_secs - from_secs) * 1_000_000_000 + (to_nanos - from_nanos);
    if nanos >= 0 {
        nanos / 1_000_000
    } else {
        -((-nanos) / 1_000_000)
    }
}

/// What chrono's `DateTime::<Utc>::to_rfc3339_opts` writes for a point in time, with milliseconds
/// and a `Z`.
pub uninterp spec fn rfc3339_millis(secs: i64, nanos: u32) -> Seq<char>;

/// What chrono's `DateTime::<Utc>::format` writes for a point in time under `%Y%m%dT%H%M%SZ`.
pub uninterp spec fn compact_stamp(secs: i64, nanos: u32) -> Seq<char>;

/// `Utc::now` of chrono: the system clock, which never yields a leap second. Nothing is promised
/// of the value but that it lies at or after the Unix epoch and within the calendar; a clock that
/// is set before the epoch makes chrono panic.
#[verifier::external_body]
fn system_now() -> (parts: (i64, u32))
    ensures
        in_calendar(parts.0, parts.1),
        parts.0 >= 0,
{
    let now = Utc::now();
    (now.timestamp(), now.timestamp_subsec_nanos())
}

/// `DateTime::to_rfc3339_opts` of chrono, with milliseconds and a `Z` for UTC. The text depends
/// on the point in time alone; its layout is not stated.
#[verifier::external_body]
fn format_rfc3339(secs: i64, nanos: u32) -> (text: String)
    requires
        in_calendar(secs, nanos),
    ensures
        text@ == rfc3339_millis(secs, nanos),
{
    let point = DateTime::<Utc>::from_timestamp(secs, nanos).unwrap();
    point.to_rfc3339_opts(SecondsFormat::Millis, true)
}

/// `DateTime::format` of chrono under `%Y%m%dT%H%M%SZ`. The text depends on the point in time
/// alone; its layout is not stated.
#[verifier::external_body]
fn format_compact(secs: i64, nanos: u32) -> (text: String)
    requires
        in_calendar(secs, nanos),
    ensures
        text@ == compact_stamp(secs, nanos),
{
    let point = DateTime::<Utc>::from_timestamp(secs, nanos).unwrap();
    point.format("%Y%m%dT%H%M%SZ").to_string()
}

/// `DateTime::timestamp_millis` of chrono: whole milliseconds since the Unix epoch, rounded down.
#[verifier::external_body]
fn millis_since_epoch(secs: i64, nanos: u32) -> (millis: i64)
    requires
        in_calendar(secs, nanos),
    ensures
        millis == secs * 1000 + nanos as int / 1_000_000,
{
    DateTime::<Utc>::from_timestamp(secs, nanos).unwrap().timestamp_millis()
}

/// The difference of two `DateTime`s of chrono in whole milliseconds (`signed_duration_since`,
/// then `TimeDelta::num_milliseconds`), rounded towards zero.
#[verifier::external_body]
fn millis_between(from: (i64, u32), to: (i64, u32)) -> (millis: i64)
    requires
        in_calendar(from.0, from.1),
        in_calendar(to.0, to.1),
    ensures
        millis == elapsed_millis(from.0 as int, from.1 as int, to.0 as int, to.1 as int),
{
    let start = DateTime::<Utc>::from_timestamp(from.0, from.1).unwrap();
    let end = DateTime::<Utc>::from_timestamp(to.0, to.1).unwrap();
    (end - start).num_milliseconds()
}

impl Timestamp {
    #[verifier::type_invariant]
    spec fn inv(self) -> bool {
        in_calendar(self.secs, self.nanos)
    }

    /// Seconds since the Unix epoch, rounded down.
    pub closed spec fn seconds(self) -> i64 {
        self.secs
    }

    /// Nanoseconds past [`Timestamp::seconds`].
    pub closed spec fn subsec_nanos(self) -> u32 {
        self.nanos
    }

    /// Whole milliseconds since the Unix epoch, rounded down.
    pub open spec fn epoch_millis(self) -> int {
        self.seconds() * 1000 + self.subsec_nanos() as int / 1_000_000
    }

    /// Whole milliseconds from `earlier` to this point, rounded towards zero.
    pub open spec fn millis_after(self, earlier: Timestamp) -> int {
        elapsed_millis(
            earlier.seconds() as int,
            earlier.subsec_nanos() as int,
            self.seconds() as int,
            self.subsec_nanos() as int,
        )
    }

    /// The RFC 3339 rendering with milliseconds.
    pub open spec fn iso(self) -> Seq<char> {
        rfc3339_millis(self.seconds(), self.subsec_nanos())
    }

    /// The compact rendering that run identifiers carry.
    pub open spec fn compact(self) -> Seq<char> {
        compact_stamp(self.seconds(), self.subsec_nanos())
    }

    /// The point `nanos` nanoseconds past the second `secs`, if the calendar holds it.
    pub fn new(secs: i64, nanos: u32) -> (point: Option<Timestamp>)
        ensures
            point is Some <==> in_calendar(secs, nanos),
            point matches Some(t) ==> t.seconds() == secs && t.subsec_nanos() == nanos,
    {
        if MIN_SECONDS <= secs && secs <= MAX_SECONDS && nanos < NANOS_PER_SECOND {
            Some(Timestamp { secs, nanos })
        } else {
            None
        }
    }

    /// The current time.
    pub fn now() -> (point: Timestamp)
        ensures
            point.seconds() >= 0,
    {
        let (secs, nanos) = system_now();
        Timestamp { secs, nanos }
    }

    /// Whole milliseconds since the Unix epoch, rounded down.
    pub fn timestamp_millis(self) -> (millis: i64)
        ensures
            millis == self.epoch_millis(),
    {
        proof {
            use_type_invariant(&self);
        }
        millis_since_epoch(self.secs, self.nanos)
    }

    /// Whole milliseconds from `earlier` to this point, rounded towards zero.
    pub fn millis_since(self, earlier: Timestamp) -> (millis: i64)
        ensures
            millis == self.millis_after(earlier),
    {
        proof {
            use_type_invariant(&self);
            use_type_invariant(&earlier);
        }
        millis_between((earlier.secs, earlier.nanos), (self.secs, self.nanos))
    }

    /// The compact rendering that run identifiers carry.
    pub fn compact_text(self) -> (text: String)
        ensures
            text@ == self.compact(),
    {
        proof {
            use_type_invariant(&self);
        }
        format_compact(self.secs, self.nanos)
    }
}

/// The RFC 3339 rendering of a point in time, with milliseconds.
pub fn isoformat_utc(value: Timestamp) -> (text: String)
    ensures
        text@ == value.iso(),
{
    proof {
        use_type_invariant(&value);
    }
    format_rfc3339(value.secs, value.nanos)
}

/// Milliseconds from `start` to `end`, or zero where `end` comes first.
pub open spec fn latency(start: Timestamp, end: Timestamp) -> int {
    let elapsed = end.millis_after(start);
    if elapsed < 0 {
        0
    } else {
        elapsed
    }
}

/// Milliseconds from `start` to `end`, or zero where `end` comes first.
pub fn latency_ms(start: Timestamp, end: Timestamp) -> (millis: i64)
    ensures
        millis == latency(start, end),
{
    let elapsed = end.millis_since(start);
    if elapsed < 0 {
        0
    } else {
        elapsed
    }
}

} // verus!
