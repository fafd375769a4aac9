use vstd::prelude::*;

verus! {

/// The last whole second that `chrono::DateTime<Utc>` can represent
/// (the end of year 262142).
pub const LATEST_TIMESTAMP: i64 = 8210266876799i64;

/// The first second that `chrono::DateTime<Utc>` can represent
/// (the start of year -262143).
pub const EARLIEST_TIMESTAMP: i64 = -8334601315200i64;

/// `t` is a reading of the clock in whole seconds since the Unix epoch. Outside
/// this module only the readings `now_timestamp` hands out are known to be
/// readings; every reading lies between the epoch and the last second a
/// date-time can hold (`clock_reading_range`).
pub closed spec fn is_clock_reading(t: int) -> bool {
    0 <= t <= LATEST_TIMESTAMP
}

/// `t` is a reading of the clock in microseconds since the Unix epoch; as
/// `is_clock_reading`, known only of what `now_timestamp_micros` hands out.
pub closed spec fn is_clock_reading_micros(t: int) -> bool {
    0 <= t <= LATEST_TIMESTAMP * 1_000_000 + 999_999
}

/// Every clock reading lies between the Unix epoch and the end of the range of dates.
pub proof fn clock_reading_range(t: int)
    requires
        is_clock_reading(t),
    ensures
        0 <= t <= LATEST_TIMESTAMP,
{
}

/// Every clock reading in microseconds lies between the Unix epoch and the end
/// of the range of dates.
pub proof fn clock_reading_micros_range(t: int)
    requires
        is_clock_reading_micros(t),
    ensures
        0 <= t <= LATEST_TIMESTAMP * 1_000_000 + 999_999,
{
}

/// Reads the clock through `chrono::Utc::now()`, in whole seconds since the
/// Unix epoch (`timestamp()`). Claimed: the value is a clock reading, that is,
/// it lies between the epoch and the last second a date-time can hold
/// (`Utc::now` stops the program on a system clock before the epoch, and a
/// `DateTime` never leaves its range). Which second it is, is the time.
#[verifier::external_body]
pub(crate) fn now_timestamp() -> (t: i64)
    ensures
        is_clock_reading(t as int),
{
    chrono::Utc::now().timestamp()
}

/// Reads the clock through `chrono::Utc::now()`, in microseconds since the
/// Unix epoch (`timestamp_micros()`). Claimed: the value is a clock reading
/// (between the epoch and the end of the last second a date-time can hold).
#[verifier::external_body]
pub(crate) fn now_timestamp_micros() -> (t: i64)
    ensures
        is_clock_reading_micros(t as int),
{
    chrono::Utc::now().timestamp_micros()
}

/// The second `lifetime` seconds after `now`, where a date-time can hold it:
/// what `checked_add_signed` followed by `timestamp()` gives for a whole number
/// of seconds.
pub open spec fn spec_expiry(now: int, lifetime: int) -> Option<int> {
    if EARLIEST_TIMESTAMP <= now + lifetime <= LATEST_TIMESTAMP {
        Some(now + lifetime)
    } else {
        None
    }
}

/// The second `lifetime` seconds after `now`, or `None` past the range of dates.
pub fn expiry(now: i64, lifetime: i64) -> (r: Option<i64>)
    ensures
        match spec_expiry(now as int, lifetime as int) {
            Some(t) => r == Some(t as i64),
            None => r is None,
        },
{
    let sum: i128 = now as i128 + lifetime as i128;
    if EARLIEST_TIMESTAMP as i128 <= sum && sum <= LATEST_TIMESTAMP as i128 {
        Some(sum as i64)
    } else {
        None
    }
}

/// Microseconds in twelve hours.
pub const TWELVE_HOURS_MICROS: i64 = 43_200_000_000i64;

/// Whole hours in `delta` microseconds, rounded toward zero: what
/// `TimeDelta::num_hours` gives.
pub open spec fn whole_hours(delta: int) -> int {
    if delta >= 0 {
        delta / 3_600_000_000
    } else {
        -((-delta) / 3_600_000_000)
    }
}

/// Whether at least twelve whole hours lie between `since` and `now`
/// (microsecond timestamps).
pub fn twelve_hours_passed(since: i64, now: i64) -> (r: bool)
    ensures
        r == (whole_hours(now - since) >= 12),
{
    let delta: i128 = now as i128 - since as i128;
    proof {
        let d = now - since;
        if d >= 0 {
            assert((d >= 43_200_000_000) == (d / 3_600_000_000 >= 12)) by (nonlinear_arith)
                requires d >= 0;
        } else {
            assert((-d) / 3_600_000_000 >= 0) by (nonlinear_arith)
                requires -d > 0;
        }
    }
    delta >= TWELVE_HOURS_MICROS as i128
}

} // verus!
