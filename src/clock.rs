//! Moments in time as whole seconds since 1970-01-01 00:00:00 UTC, leap
//! seconds not counted.
use vstd::prelude::*;

verus! {

pub const SECONDS_PER_DAY: i64 = 86400;

/// No moment that chrono can represent lies this many seconds after the
/// epoch: its calendar ends in the year 262142.
pub const TIMESTAMP_LIMIT: i64 = 10_000_000_000_000;

/// The widest shift, in days, that `days_before` accepts: chrono's calendar
/// spans fewer days than this on either side of the epoch.
pub const MAX_SHIFT_DAYS: i64 = 100_000_000;

/// Relies on chrono's `Utc::now` and `DateTime::timestamp`: the current time
/// in seconds since the epoch. `Utc::now` panics on a clock set before the
/// epoch and its result never passes chrono's last representable year.
#[verifier::external_body]
pub(crate) fn now_timestamp() -> (r: i64)
    ensures
        0 <= r < TIMESTAMP_LIMIT,
{
    chrono::Utc::now().timestamp()
}

/// Whole days from `start` to `now`, rounded down; none when `now` is not
/// after `start`.
pub open spec fn elapsed_days(start: int, now: int) -> nat {
    if now > start {
        ((now - start) / (SECONDS_PER_DAY as int)) as nat
    } else {
        0
    }
}

/// Whole days from `start_at` to `now`, with a start in the future counting
/// as no time at all.
pub fn days_elapsed(start_at: i64, now: i64) -> (r: u64)
    ensures
        r == elapsed_days(start_at as int, now as int),
{
    if now > start_at {
        let span: u64 = (now as i128 - start_at as i128) as u64;
        span / (SECONDS_PER_DAY as u64)
    } else {
        0
    }
}

/// The moment `days` whole days before `moment`.
pub fn days_before(moment: i64, days: i64) -> (r: i64)
    requires
        -TIMESTAMP_LIMIT < moment < TIMESTAMP_LIMIT,
        -MAX_SHIFT_DAYS <= days <= MAX_SHIFT_DAYS,
    ensures
        r == moment - days * SECONDS_PER_DAY,
{
    assert(-MAX_SHIFT_DAYS * SECONDS_PER_DAY <= days * SECONDS_PER_DAY <= MAX_SHIFT_DAYS
        * SECONDS_PER_DAY) by (nonlinear_arith)
        requires
            -MAX_SHIFT_DAYS <= days <= MAX_SHIFT_DAYS,
    ;
    moment - days * SECONDS_PER_DAY
}

/// The moment `days` whole days before now: the result, moved `days` days
/// on, is a moment that the clock can show.
pub fn past_date(days: i64) -> (r: i64)
    requires
        -MAX_SHIFT_DAYS <= days <= MAX_SHIFT_DAYS,
    ensures
        0 <= r + days * SECONDS_PER_DAY < TIMESTAMP_LIMIT,
{
    let current = now_timestamp();
    days_before(current, days)
}

} // verus!
