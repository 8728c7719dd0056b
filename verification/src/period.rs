//! Calendar-aware expiry computation: a period token plus the creation time
//! yields the absolute end of the buying window, with proper month lengths,
//! leap years, Sunday-anchored weeks, and year-end rollover.

use vstd::prelude::*;
use crate::state::LotteryPeriod;
use crate::types::Timestamp;

verus! {

pub const SECS_PER_DAY: u64 = 86400;

pub const SECS_PER_HOUR: u64 = 3600;

/// Seconds from midnight to 22:00, the hour at which calendar periods end.
pub const SECS_AT_HOUR_22: u64 = 79200;

/// The largest creation time (in whole seconds) the expiry computation
/// accepts: far enough below the largest representable timestamp that every
/// period's expiry still fits in 64-bit nanoseconds.
pub const MAX_CREATION_SECS: u64 = 18_000_000_000;

/// The largest year the day-number conversions accept.
pub const MAX_YEAR: u64 = 300_000;

/// A calendar date in the proleptic Gregorian calendar, UTC.
#[derive(Clone, Copy, Debug, PartialEq, Eq, Structural)]
pub struct Date {
    pub year: u64,
    pub month: u64,
    pub day: u64,
}

pub open spec fn is_leap_year(y: int) -> bool {
    (y % 4 == 0 && y % 100 != 0) || y % 400 == 0
}

pub open spec fn days_in_year(y: int) -> int {
    if is_leap_year(y) {
        366
    } else {
        365
    }
}

pub open spec fn days_in_month_of(y: int, m: int) -> int {
    if m == 2 {
        if is_leap_year(y) {
            29
        } else {
            28
        }
    } else if m == 4 || m == 6 || m == 9 || m == 11 {
        30
    } else {
        31
    }
}

/// Days from 1970-01-01 to the first day of year `y`.
pub open spec fn days_before_year(y: int) -> int
    decreases y - 1970,
{
    if y <= 1970 {
        0
    } else {
        days_before_year(y - 1) + days_in_year(y - 1)
    }
}

/// Days from the first day of year `y` to the first day of its month `m`.
pub open spec fn days_before_month(y: int, m: int) -> int
    decreases m,
{
    if m <= 1 {
        0
    } else {
        days_before_month(y, m - 1) + days_in_month_of(y, m - 1)
    }
}

/// The day number (days since 1970-01-01) of a calendar date.
pub open spec fn days_of_date(y: int, m: int, d: int) -> int {
    days_before_year(y) + days_before_month(y, m) + (d - 1)
}

pub open spec fn valid_date(dt: Date) -> bool {
    &&& 1970 <= dt.year
    &&& 1 <= dt.month <= 12
    &&& 1 <= dt.day <= days_in_month_of(dt.year as int, dt.month as int)
}

/// The day number of a date value.
pub open spec fn day_number(dt: Date) -> int {
    days_of_date(dt.year as int, dt.month as int, dt.day as int)
}

/// The year reached, and the days left over, after stepping whole years
/// forward from `y`.
pub open spec fn year_step(y: int, rem: int) -> (int, int)
    decreases rem,
{
    if rem >= days_in_year(y) && rem >= 0 {
        year_step(y + 1, rem - days_in_year(y))
    } else {
        (y, rem)
    }
}

/// The month reached, and the days left over, after stepping whole months
/// forward from `m` inside year `y`.
pub open spec fn month_step(y: int, m: int, rem: int) -> (int, int)
    decreases 13 - m,
{
    if 1 <= m <= 12 && rem >= days_in_month_of(y, m) {
        month_step(y, m + 1, rem - days_in_month_of(y, m))
    } else {
        (m, rem)
    }
}

/// The calendar date of a day number.
pub open spec fn date_of_days(days: int) -> Date {
    let (y, rem) = year_step(1970, days);
    let (m, rem2) = month_step(y, 1, rem);
    Date { year: y as u64, month: m as u64, day: (rem2 + 1) as u64 }
}

/// The day of week of a day number, with 0 standing for Sunday.
pub open spec fn day_of_week(days: int) -> int {
    (days + 4) % 7
}

proof fn lemma_year_step(y: int, rem: int)
    requires
        rem >= 0,
        y >= 1970,
    ensures
        ({
            let (y2, r2) = year_step(y, rem);
            &&& y2 >= y
            &&& 0 <= r2 < days_in_year(y2)
            &&& days_before_year(y2) + r2 == days_before_year(y) + rem
        }),
    decreases rem,
{
    if rem >= days_in_year(y) {
        lemma_year_step(y + 1, rem - days_in_year(y));
    }
}

proof fn lemma_month_step(y: int, m: int, rem: int)
    requires
        0 <= rem,
        1 <= m <= 12,
        rem + days_before_month(y, m) < days_in_year(y),
    ensures
        ({
            let (m2, r2) = month_step(y, m, rem);
            &&& m <= m2 <= 12
            &&& 0 <= r2 < days_in_month_of(y, m2)
            &&& days_before_month(y, m2) + r2 == days_before_month(y, m) + rem
        }),
    decreases 13 - m,
{
    lemma_months_sum(y);
    if rem >= days_in_month_of(y, m) {
        if m == 12 {
            assert(days_before_month(y, 13) == days_before_month(y, 12) + days_in_month_of(
                y,
                12,
            ));
        } else {
            lemma_month_step(y, m + 1, rem - days_in_month_of(y, m));
        }
    }
}

/// The months of a year sum to its length.
proof fn lemma_months_sum(y: int)
    ensures
        days_before_month(y, 13) == days_in_year(y),
{
    reveal_with_fuel(days_before_month, 14);
}

/// `days_before_month` grows with the month.
proof fn lemma_days_before_month_le(y: int, m1: int, m2: int)
    requires
        1 <= m1 <= m2,
    ensures
        days_before_month(y, m1) <= days_before_month(y, m2),
    decreases m2 - m1,
{
    if m1 < m2 {
        lemma_days_before_month_le(y, m1, m2 - 1);
    }
}

/// `days_before_year` grows with the year, between 365 and 366 days a year.
proof fn lemma_days_before_year_bounds(y: int)
    requires
        y >= 1970,
    ensures
        365 * (y - 1970) <= days_before_year(y) <= 366 * (y - 1970),
    decreases y - 1970,
{
    if y > 1970 {
        lemma_days_before_year_bounds(y - 1);
    }
}

proof fn lemma_days_before_year_le(y1: int, y2: int)
    requires
        y1 <= y2,
    ensures
        days_before_year(y1) <= days_before_year(y2),
    decreases y2 - y1,
{
    if y1 < y2 {
        lemma_days_before_year_le(y1, y2 - 1);
    }
}

/// A valid date's day lies within its year: at least the start of its year,
/// and strictly before the start of the next.
proof fn lemma_day_number_in_year(dt: Date)
    requires
        valid_date(dt),
    ensures
        days_before_year(dt.year as int) <= day_number(dt) < days_before_year(dt.year as int + 1),
{
    let y = dt.year as int;
    let m = dt.month as int;
    lemma_months_sum(y);
    lemma_days_before_month_le(y, 1, m);
    lemma_days_before_month_le(y, m + 1, 13);
    assert(days_before_month(y, m + 1) == days_before_month(y, m) + days_in_month_of(y, m));
    assert(days_before_year(y + 1) == days_before_year(y) + days_in_year(y));
}

/// The day number determines the date: converting a valid date to its day
/// number and back yields the same date.
pub proof fn lemma_date_roundtrip(dt: Date)
    requires
        valid_date(dt),
    ensures
        date_of_days(day_number(dt)) == dt,
{
    let days = day_number(dt);
    let y = dt.year as int;
    let m = dt.month as int;
    lemma_day_number_in_year(dt);
    lemma_days_before_year_bounds(y);
    let (y2, rem) = year_step(1970, days);
    lemma_year_step(1970, days);
    // years below and above `y` are impossible
    if y2 < y {
        lemma_days_before_year_le(y2 + 1, y);
        assert(days < days_before_year(y2 + 1));
    }
    if y2 > y {
        lemma_days_before_year_le(y + 1, y2);
        assert(days >= days_before_year(y2));
    }
    assert(y2 == y);
    assert(rem == days_before_month(y, m) + (dt.day - 1));
    lemma_months_sum(y);
    lemma_days_before_month_le(y, m + 1, 13);
    assert(rem < days_in_year(y));
    let (m2, rem2) = month_step(y, 1, rem);
    lemma_month_step(y, 1, rem);
    if m2 < m {
        lemma_days_before_month_le(y, m2 + 1, m);
        assert(days_before_month(y, m2 + 1) == days_before_month(y, m2) + days_in_month_of(
            y,
            m2,
        ));
        assert(rem >= days_before_month(y, m2 + 1));
    }
    if m2 > m {
        lemma_days_before_month_le(y, m + 1, m2);
        assert(days_before_month(y, m + 1) == days_before_month(y, m) + days_in_month_of(y, m));
        assert(rem < days_before_month(y, m2));
    }
    assert(m2 == m);
    assert(rem2 == dt.day - 1);
}

fn is_leap(y: u64) -> (r: bool)
    ensures
        r == is_leap_year(y as int),
{
    (y % 4 == 0 && y % 100 != 0) || y % 400 == 0
}

fn days_in_year_of(y: u64) -> (r: u64)
    ensures
        r == days_in_year(y as int),
{
    if is_leap(y) {
        366
    } else {
        365
    }
}

/// The number of days of month `m` of year `y`.
pub fn days_in_month(y: u64, m: u64) -> (r: u64)
    requires
        1 <= m <= 12,
    ensures
        r == days_in_month_of(y as int, m as int),
{
    if m == 2 {
        if is_leap(y) {
            29
        } else {
            28
        }
    } else if m == 4 || m == 6 || m == 9 || m == 11 {
        30
    } else {
        31
    }
}

/// The calendar date of a day number.
pub fn date_from_days(days: u64) -> (dt: Date)
    requires
        days <= 150_000_000,
    ensures
        dt == date_of_days(days as int),
        valid_date(dt),
        day_number(dt) == days,
{
    let mut y: u64 = 1970;
    let mut rem: u64 = days;
    loop
        invariant
            1970 <= y,
            rem <= days,
            days <= 150_000_000,
            365 * (y - 1970) <= days - rem,
            year_step(1970, days as int) == year_step(y as int, rem as int),
            days_before_year(y as int) + rem == days,
        ensures
            1970 <= y,
            rem <= days,
            rem < days_in_year(y as int),
            365 * (y - 1970) <= days - rem,
            year_step(1970, days as int) == year_step(y as int, rem as int),
            days_before_year(y as int) + rem == days,
        decreases rem,
    {
        let diy = days_in_year_of(y);
        if rem < diy {
            break ;
        }
        rem = rem - diy;
        y = y + 1;
    }
    proof {
        assert(year_step(y as int, rem as int) == (y as int, rem as int));
    }
    let ghost rem0 = rem as int;
    let mut m: u64 = 1;
    loop
        invariant
            1 <= m <= 12,
            rem + days_before_month(y as int, m as int) == rem0,
            rem0 < days_in_year(y as int),
            month_step(y as int, 1, rem0) == month_step(y as int, m as int, rem as int),
            days_before_year(y as int) + days_before_month(y as int, m as int) + rem == days,
        ensures
            1 <= m <= 12,
            rem < days_in_month_of(y as int, m as int),
            month_step(y as int, 1, rem0) == month_step(y as int, m as int, rem as int),
            days_before_year(y as int) + days_before_month(y as int, m as int) + rem == days,
        decreases 12 - m,
    {
        let dim = days_in_month(y, m);
        if rem < dim {
            break ;
        }
        proof {
            lemma_months_sum(y as int);
            lemma_days_before_month_le(y as int, m as int + 1, 13);
            assert(days_before_month(y as int, m as int + 1) == days_before_month(
                y as int,
                m as int,
            ) + days_in_month_of(y as int, m as int));
            assert(m < 12);
        }
        rem = rem - dim;
        m = m + 1;
    }
    proof {
        assert(month_step(y as int, m as int, rem as int) == (m as int, rem as int));
    }
    let dt = Date { year: y, month: m, day: rem + 1 };
    proof {
        assert(valid_date(dt));
        assert(date_of_days(days as int) == dt);
        lemma_date_roundtrip(dt);
    }
    dt
}

/// The day number of a calendar date.
pub fn days_from_date(dt: &Date) -> (days: u64)
    requires
        valid_date(*dt),
        dt.year <= MAX_YEAR,
    ensures
        days == day_number(*dt),
{
    let mut y: u64 = 1970;
    let mut acc: u64 = 0;
    while y < dt.year
        invariant
            1970 <= y <= dt.year,
            dt.year <= MAX_YEAR,
            acc == days_before_year(y as int),
            acc <= 366 * (y - 1970),
        decreases dt.year - y,
    {
        proof {
            lemma_days_before_year_bounds(y as int);
        }
        acc = acc + days_in_year_of(y);
        y = y + 1;
    }
    proof {
        lemma_days_before_year_bounds(dt.year as int);
    }
    let mut m: u64 = 1;
    while m < dt.month
        invariant
            1 <= m <= dt.month <= 12,
            valid_date(*dt),
            dt.year <= MAX_YEAR,
            acc == days_before_year(dt.year as int) + days_before_month(dt.year as int, m as int),
            acc <= 366 * (dt.year - 1970) + 31 * (m - 1),
        decreases dt.month - m,
    {
        acc = acc + days_in_month(dt.year, m);
        m = m + 1;
    }
    acc + (dt.day - 1)
}

/// The calendar date holding a timestamp, UTC.
pub fn timestamp_to_utc(ts: Timestamp) -> (dt: Date)
    ensures
        dt == date_of_days(ts.spec_seconds() as int / (SECS_PER_DAY as int)),
        valid_date(dt),
        day_number(dt) == ts.spec_seconds() as int / (SECS_PER_DAY as int),
{
    let secs = ts.seconds();
    let days = secs / SECS_PER_DAY;
    date_from_days(days)
}

/// The last day of the Sunday-anchored week holding `dt`: the Saturday at or
/// after it.
pub fn get_last_day_week(dt: Date) -> (r: Date)
    requires
        valid_date(dt),
        dt.year <= MAX_YEAR,
    ensures
        r == date_of_days(day_number(dt) + 6 - day_of_week(day_number(dt))),
        valid_date(r),
        day_number(r) == day_number(dt) + 6 - day_of_week(day_number(dt)),
{
    let days = days_from_date(&dt);
    proof {
        lemma_day_number_in_year(dt);
        lemma_days_before_year_bounds(dt.year as int + 1);
    }
    let dow = (days + 4) % 7;
    date_from_days(days + 6 - dow)
}

/// The last day of the month holding `dt`.
pub fn get_last_day_month(dt: Date) -> (r: Date)
    requires
        valid_date(dt),
    ensures
        r.year == dt.year,
        r.month == dt.month,
        r.day == days_in_month_of(dt.year as int, dt.month as int),
        valid_date(r),
{
    Date { year: dt.year, month: dt.month, day: days_in_month(dt.year, dt.month) }
}

/// The last day of the year holding `dt`: its December 31.
pub fn get_last_day_year(dt: Date) -> (r: Date)
    requires
        valid_date(dt),
    ensures
        r.year == dt.year,
        r.month == 12,
        r.day == 31,
        valid_date(r),
{
    Date { year: dt.year, month: 12, day: 31 }
}

/// The timestamp, in whole seconds, of 22:00 UTC on the given date.
pub fn get_secs_of_hour_22(nd: Date) -> (r: u64)
    requires
        valid_date(nd),
        nd.year <= MAX_YEAR,
    ensures
        r == day_number(nd) * SECS_PER_DAY + SECS_AT_HOUR_22,
{
    let days = days_from_date(&nd);
    proof {
        lemma_day_number_in_year(nd);
        lemma_days_before_year_bounds(nd.year as int + 1);
    }
    days * SECS_PER_DAY + SECS_AT_HOUR_22
}

/// The day number a timestamp falls on.
pub open spec fn spec_day_of(ts: Timestamp) -> int {
    ts.spec_seconds() as int / (SECS_PER_DAY as int)
}

/// The whole seconds of 22:00 UTC on a day number.
pub open spec fn spec_secs_at_22(days: int) -> int {
    days * (SECS_PER_DAY as int) + (SECS_AT_HOUR_22 as int)
}

/// The absolute end of the buying window: one hour after creation, or
/// 22:00 UTC on the last day of the calendar period holding the creation
/// time.
pub fn compute_expiry(period: &LotteryPeriod, created_at: Timestamp) -> (r: Timestamp)
    requires
        created_at.spec_seconds() <= MAX_CREATION_SECS,
    ensures
        *period == (LotteryPeriod::Hour {}) ==> r.nanos == created_at.nanos + SECS_PER_HOUR
            * 1_000_000_000,
        *period == (LotteryPeriod::Day {}) ==> r.spec_seconds() == spec_secs_at_22(
            spec_day_of(created_at),
        ),
        *period == (LotteryPeriod::Week {}) ==> r.spec_seconds() == spec_secs_at_22(
            spec_day_of(created_at) + 6 - day_of_week(spec_day_of(created_at)),
        ),
        *period == (LotteryPeriod::Month {}) ==> ({
            let dt = date_of_days(spec_day_of(created_at));
            r.spec_seconds() == spec_secs_at_22(
                days_of_date(
                    dt.year as int,
                    dt.month as int,
                    days_in_month_of(dt.year as int, dt.month as int),
                ),
            )
        }),
        *period == (LotteryPeriod::Year {}) ==> ({
            let dt = date_of_days(spec_day_of(created_at));
            r.spec_seconds() == spec_secs_at_22(days_of_date(dt.year as int, 12, 31))
        }),
{
    let secs = created_at.seconds();
    match period {
        LotteryPeriod::Hour {} => {
            proof {
                assert(created_at.nanos <= MAX_CREATION_SECS * 1_000_000_000 + 999_999_999);
            }
            Timestamp::from_nanos(created_at.nanos + SECS_PER_HOUR * 1_000_000_000)
        },
        LotteryPeriod::Day {} => {
            let days = secs / SECS_PER_DAY;
            Timestamp::from_seconds(days * SECS_PER_DAY + SECS_AT_HOUR_22)
        },
        LotteryPeriod::Week {} => {
            let days = secs / SECS_PER_DAY;
            let dow = (days + 4) % 7;
            Timestamp::from_seconds((days + 6 - dow) * SECS_PER_DAY + SECS_AT_HOUR_22)
        },
        LotteryPeriod::Month {} => {
            let days = secs / SECS_PER_DAY;
            let dt = date_from_days(days);
            proof {
                lemma_days_before_year_bounds(dt.year as int);
                lemma_days_before_month_le(dt.year as int, 1, dt.month as int);
            }
            let last = Date { year: dt.year, month: dt.month, day: days_in_month(dt.year, dt.month) };
            let end_secs = get_secs_of_hour_22(last);
            proof {
                lemma_day_number_in_year(last);
                lemma_days_before_year_bounds(dt.year as int + 1);
            }
            Timestamp::from_seconds(end_secs)
        },
        LotteryPeriod::Year {} => {
            let days = secs / SECS_PER_DAY;
            let dt = date_from_days(days);
            proof {
                lemma_days_before_year_bounds(dt.year as int);
                lemma_days_before_month_le(dt.year as int, 1, dt.month as int);
            }
            let last = Date { year: dt.year, month: 12, day: 31 };
            let end_secs = get_secs_of_hour_22(last);
            proof {
                lemma_day_number_in_year(last);
                lemma_days_before_year_bounds(dt.year as int + 1);
            }
            Timestamp::from_seconds(end_secs)
        },
    }
}

/// Period boundary at the year's end: for a creation day in December, the
/// month period ends on December 31 of the same year — the last day of the
/// month never rolls over into the next January.
pub proof fn lemma_month_expiry_december(days: int)
    requires
        0 <= days <= 150_000_000,
        date_of_days(days).month == 12,
    ensures
        ({
            let dt = date_of_days(days);
            let last = days_in_month_of(dt.year as int, 12);
            &&& last == 31
            &&& date_of_days(days_of_date(dt.year as int, 12, last)) == (Date {
                year: dt.year,
                month: 12,
                day: 31,
            })
        }),
{
    let dt = date_of_days(days);
    lemma_year_step(1970, days);
    let (y, rem) = year_step(1970, days);
    lemma_days_before_year_bounds(y);
    lemma_month_step(y, 1, rem);
    assert(valid_date(dt));
    lemma_date_roundtrip(Date { year: dt.year, month: 12, day: 31 });
}

} // verus!
