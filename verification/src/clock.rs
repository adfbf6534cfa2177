//! Points in time.
use vstd::prelude::*;
use crate::status::StreamStatus;

verus! {

/// Time since the Unix epoch in nanoseconds; negative before it.
pub type UnixNanos = i128;

/// Nanoseconds of a second.
pub const NANOS_PER_SEC: u128 = 1_000_000_000;

/// The date and time text of RFC 3339 in UTC for seconds and nanoseconds since the Unix epoch;
/// for a time that has none, that of the epoch.
pub uninterp spec fn rfc3339(secs: i64, nanos: u32) -> Seq<char>;

/// `chrono::DateTime::from_timestamp` makes a date of seconds and nanoseconds, the epoch stands
/// in where it makes none, and `chrono::DateTime::to_rfc3339` writes it. The text depends on
/// the two numbers alone.
#[verifier::external_body]
fn write_rfc3339(secs: i64, nanos: u32) -> (r: String)
    ensures
        r@ == rfc3339(secs, nanos),
{
    chrono::DateTime::from_timestamp(secs, nanos).unwrap_or_default().to_rfc3339()
}

/// The text for a point in time.
pub open spec fn time_text(t: UnixNanos) -> Seq<char> {
    if t < 0 {
        "unknown"@
    } else {
        let secs = t as int / 1_000_000_000;
        rfc3339(
            if secs > i64::MAX {
                i64::MAX
            } else {
                secs as i64
            },
            (t as int % 1_000_000_000) as u32,
        )
    }
}

/// The text for a point in time; times before the epoch have none.
pub fn time_to_text(t: UnixNanos) -> (r: String)
    ensures
        r@ == time_text(t),
{
    if t < 0 {
        return "unknown".to_owned();
    }
    let secs: u128 = t as u128 / NANOS_PER_SEC;
    let nanos: u32 = (t as u128 % NANOS_PER_SEC) as u32;
    let whole: i64 = if secs > 0x7fff_ffff_ffff_ffff {
        0x7fff_ffff_ffff_ffff
    } else {
        secs as i64
    };
    write_rfc3339(whole, nanos)
}

/// Time from one point to a later one.
pub open spec fn elapsed(from: UnixNanos, now: UnixNanos) -> Option<u128> {
    if from <= now {
        Some((now - from) as u128)
    } else {
        None
    }
}

/// Time from one point to a later one; none where the clock went back.
pub fn elapsed_nanos(from: UnixNanos, now: UnixNanos) -> (r: Option<u128>)
    ensures
        r == elapsed(from, now),
{
    if from > now {
        None
    } else if from >= 0 || now < 0 {
        Some((now - from) as u128)
    } else {
        let back: u128 = (-(from + 1)) as u128;
        Some(now as u128 + back + 1)
    }
}

/// Whole seconds of a time span, at most what the type holds.
pub open spec fn whole_seconds(nanos: u128) -> u64 {
    let secs = nanos as int / 1_000_000_000;
    if secs > u64::MAX {
        u64::MAX
    } else {
        secs as u64
    }
}

fn to_seconds(nanos: u128) -> (r: u64)
    ensures
        r == whole_seconds(nanos),
{
    let secs: u128 = nanos / NANOS_PER_SEC;
    if secs > 0xffff_ffff_ffff_ffff {
        0xffff_ffff_ffff_ffff
    } else {
        secs as u64
    }
}

/// Seconds since a connection was made.
pub open spec fn uptime(connected_at: Option<UnixNanos>, now: UnixNanos) -> Option<u64> {
    match connected_at {
        Some(t) => match elapsed(t, now) {
            Some(d) => Some(whole_seconds(d)),
            None => None,
        },
        None => None,
    }
}

/// Seconds since a connection was made, where the stream is connected.
pub open spec fn connection_uptime(
    status: StreamStatus,
    connected_at: Option<UnixNanos>,
    now: UnixNanos,
) -> Option<u64> {
    if status.connected() {
        uptime(connected_at, now)
    } else {
        None
    }
}

/// Seconds since a connection was made.
pub fn calculate_uptime_seconds(connected_at: Option<UnixNanos>, now: UnixNanos) -> (r: Option<
    u64,
>)
    ensures
        r == uptime(connected_at, now),
{
    match connected_at {
        Some(t) => match elapsed_nanos(t, now) {
            Some(d) => Some(to_seconds(d)),
            None => None,
        },
        None => None,
    }
}

/// Seconds since a connection was made, for connected streams only.
pub fn calculate_connection_uptime(
    status: &StreamStatus,
    connected_at: Option<UnixNanos>,
    now: UnixNanos,
) -> (r: Option<u64>)
    ensures
        r == connection_uptime(*status, connected_at, now),
{
    if status.is_connected() {
        calculate_uptime_seconds(connected_at, now)
    } else {
        None
    }
}

} // verus!
