//! How old a conversation is: the relative age shown in the table and the
//! recency bucket that colours it.
use vstd::prelude::*;
use vstd::string::StringExecFns;

use crate::text::{decimal_text, push_decimal};

verus! {

/// How recent a conversation is.
#[derive(Debug, Clone, Copy, PartialEq, Eq, Structural)]
pub enum RecencyBucket {
    /// Updated within the last 72 hours.
    Recent,
    /// Updated within the last 7 days.
    ThisWeek,
    /// Older, or with an unusable timestamp.
    Stale,
}

/// A point in time: whole milliseconds since the Unix epoch plus the
/// nanoseconds into the next millisecond.
#[derive(Debug, Clone, Copy, PartialEq, Eq, Structural)]
pub struct Instant {
    pub millis: i64,
    pub nanos: u32,
}

/// A signed span of time: `millis` milliseconds plus `nanos` nanoseconds
/// (`nanos` below one million).
#[derive(Debug, Clone, Copy, PartialEq, Eq, Structural)]
pub struct Elapsed {
    pub millis: i128,
    pub nanos: u32,
}

pub const MINUTE_MS: i128 = 60_000;

pub const HOUR_MS: i128 = 3_600_000;

pub const DAY_MS: i128 = 86_400_000;

/// The span is at most `limit_ms` milliseconds.
pub open spec fn at_most(d: Elapsed, limit_ms: int) -> bool {
    d.millis < limit_ms || (d.millis == limit_ms && d.nanos == 0)
}

/// The bucket of a span since the last update.
pub open spec fn bucket_of(d: Elapsed) -> RecencyBucket {
    if at_most(d, 72 * HOUR_MS) {
        RecencyBucket::Recent
    } else if at_most(d, 7 * DAY_MS) {
        RecencyBucket::ThisWeek
    } else {
        RecencyBucket::Stale
    }
}

/// The relative age of a span: "just now" under a minute, else whole
/// minutes, hours or days followed by "m ago", "h ago" or "d ago".
pub open spec fn relative_text(d: Elapsed) -> Seq<char> {
    if d.millis < MINUTE_MS {
        "just now"@
    } else if d.millis < HOUR_MS {
        decimal_text((d.millis / MINUTE_MS) as nat) + "m ago"@
    } else if d.millis < DAY_MS {
        decimal_text((d.millis / HOUR_MS) as nat) + "h ago"@
    } else {
        decimal_text((d.millis / DAY_MS) as nat) + "d ago"@
    }
}

/// The span from the moment `ms` to `now`.
pub open spec fn elapsed_since(now: Instant, ms: i64) -> Elapsed {
    Elapsed { millis: (now.millis - ms) as i128, nanos: now.nanos }
}

/// The earliest moment chrono represents (`DateTime::<Utc>::MIN_UTC`,
/// January 1 of year -262143, 00:00:00.000), in milliseconds since the
/// Unix epoch.
pub const EARLIEST_UTC_MS: i64 = -8_334_601_228_800_000;

/// The latest moment chrono represents (`DateTime::<Utc>::MAX_UTC`,
/// December 31 of year 262142, 23:59:59.999), in milliseconds since the
/// Unix epoch.
pub const LATEST_UTC_MS: i64 = 8_210_266_876_799_999;

/// `DateTime::<Utc>::from_timestamp_millis` accepts this number of
/// milliseconds: it lies between chrono's earliest and latest moments.
pub open spec fn utc_millis_representable(ms: i64) -> bool {
    EARLIEST_UTC_MS <= ms <= LATEST_UTC_MS
}

/// `DateTime::<Utc>::from_timestamp_millis(ms).is_some()`: chrono splits
/// the milliseconds into whole days since the epoch and the time of day,
/// and succeeds exactly when that day lies between its earliest and latest
/// dates (years -262143 to 262142), that is for the milliseconds from
/// `EARLIEST_UTC_MS` to `LATEST_UTC_MS`.
#[verifier::external_body]
fn utc_millis_in_range(ms: i64) -> (r: bool)
    ensures
        r == utc_millis_representable(ms),
{
    chrono::DateTime::<chrono::Utc>::from_timestamp_millis(ms).is_some()
}

impl Elapsed {
    /// A span of whole milliseconds.
    pub fn from_millis(ms: i64) -> (r: Self)
        ensures
            r == (Elapsed { millis: ms as i128, nanos: 0 }),
    {
        Elapsed { millis: ms as i128, nanos: 0 }
    }
}

/// The bucket of a span since the last update.
pub fn recency_bucket_from_delta(delta: Elapsed) -> (r: RecencyBucket)
    ensures
        r == bucket_of(delta),
{
    if delta.millis < 72 * HOUR_MS || (delta.millis == 72 * HOUR_MS && delta.nanos == 0) {
        RecencyBucket::Recent
    } else if delta.millis < 7 * DAY_MS || (delta.millis == 7 * DAY_MS && delta.nanos == 0) {
        RecencyBucket::ThisWeek
    } else {
        RecencyBucket::Stale
    }
}

/// The bucket of a conversation updated at `timestamp_ms`, seen at `now`;
/// timestamps chrono cannot represent count as stale.
pub fn recency_bucket_at(now: Instant, timestamp_ms: i64) -> (r: RecencyBucket)
    ensures
        r == if utc_millis_representable(timestamp_ms) {
            bucket_of(elapsed_since(now, timestamp_ms))
        } else {
            RecencyBucket::Stale
        },
{
    if !utc_millis_in_range(timestamp_ms) {
        return RecencyBucket::Stale;
    }
    let delta = Elapsed { millis: now.millis as i128 - timestamp_ms as i128, nanos: now.nanos };
    recency_bucket_from_delta(delta)
}

/// The relative age of a span.
pub fn format_relative_delta(delta: Elapsed) -> (r: String)
    ensures
        r@ == relative_text(delta),
{
    if delta.millis < MINUTE_MS {
        return String::from_str("just now");
    }
    let mut s = String::new();
    if delta.millis < HOUR_MS {
        push_decimal(&mut s, (delta.millis / MINUTE_MS) as u128);
        s.append("m ago");
    } else if delta.millis < DAY_MS {
        push_decimal(&mut s, (delta.millis / HOUR_MS) as u128);
        s.append("h ago");
    } else {
        push_decimal(&mut s, (delta.millis / DAY_MS) as u128);
        s.append("d ago");
    }
    proof {
        assert(Seq::<char>::empty() + decimal_text((delta.millis / MINUTE_MS) as nat) =~= decimal_text(
            (delta.millis / MINUTE_MS) as nat,
        ));
        assert(Seq::<char>::empty() + decimal_text((delta.millis / HOUR_MS) as nat) =~= decimal_text(
            (delta.millis / HOUR_MS) as nat,
        ));
        assert(Seq::<char>::empty() + decimal_text((delta.millis / DAY_MS) as nat) =~= decimal_text(
            (delta.millis / DAY_MS) as nat,
        ));
    }
    s
}

/// The relative age of a conversation updated at `timestamp_ms`, seen at
/// `now`; "unknown" for timestamps chrono cannot represent.
pub fn format_relative_time_at(now: Instant, timestamp_ms: i64) -> (r: String)
    ensures
        r@ == if utc_millis_representable(timestamp_ms) {
            relative_text(elapsed_since(now, timestamp_ms))
        } else {
            "unknown"@
        },
{
    if !utc_millis_in_range(timestamp_ms) {
        return String::from_str("unknown");
    }
    let delta = Elapsed { millis: now.millis as i128 - timestamp_ms as i128, nanos: now.nanos };
    format_relative_delta(delta)
}

} // verus!
