use chrono::{Datelike, TimeZone, Utc};
use lottery::period::{
    compute_expiry, date_from_days, days_from_date, days_in_month, get_last_day_month,
    get_last_day_week, get_last_day_year, get_secs_of_hour_22, timestamp_to_utc, Date,
};
use lottery::state::LotteryPeriod;
use lottery::types::Timestamp;

fn date_of_chrono(dt: chrono::DateTime<Utc>) -> Date {
    timestamp_to_utc(Timestamp::from_seconds(dt.timestamp() as u64))
}

#[test]
fn get_last_day_year_should_works() {
    let dt = Utc::now();

    let last_day = get_last_day_year(date_of_chrono(dt));

    assert_eq!(last_day.month, 12);
    assert_eq!(last_day.year as i32, dt.year());
    assert_eq!(last_day.day, 31);

    let dt = Utc.with_ymd_and_hms(2023, 2, 20, 0, 0, 0).unwrap();

    let last_day = get_last_day_year(date_of_chrono(dt));

    assert_eq!(last_day.month, 12);
    assert_eq!(last_day.year, 2023);
    assert_eq!(last_day.day, 31);

    let dt = Utc.with_ymd_and_hms(2023, 12, 20, 0, 0, 0).unwrap();

    let last_day = get_last_day_year(date_of_chrono(dt));

    assert_eq!(last_day.month, 12);
    assert_eq!(last_day.year as i32, dt.year());
    assert_eq!(last_day.day, 31);
}

#[test]
fn get_last_day_month_should_works() {
    // for Febuary
    let dt = Utc.with_ymd_and_hms(2023, 2, 20, 0, 0, 0).unwrap();

    let last_day = get_last_day_month(date_of_chrono(dt));

    assert_eq!(last_day.month, dt.month() as u64);
    assert_eq!(last_day.year as i32, dt.year());
    assert_eq!(last_day.day, 28);

    // for August
    let dt = Utc.with_ymd_and_hms(2023, 8, 20, 0, 0, 0).unwrap();

    let last_day = get_last_day_month(date_of_chrono(dt));

    assert_eq!(last_day.month, dt.month() as u64);
    assert_eq!(last_day.year as i32, dt.year());
    assert_eq!(last_day.day, 31);

    // for December
    let dt = Utc.with_ymd_and_hms(2023, 12, 20, 0, 0, 0).unwrap();

    let last_day = get_last_day_month(date_of_chrono(dt));

    assert_eq!(last_day.month, dt.month() as u64);
    assert_eq!(last_day.year as i32, dt.year());
    assert_eq!(last_day.day, 31);
}

#[test]
fn day_number_conversions_should_works() {
    let d = date_from_days(19408);
    assert_eq!(d, Date { year: 2023, month: 2, day: 20 });
    assert_eq!(days_from_date(&d), 19408);

    assert_eq!(date_from_days(0), Date { year: 1970, month: 1, day: 1 });
    assert_eq!(days_from_date(&Date { year: 1970, month: 1, day: 1 }), 0);

    // leap-year February
    assert_eq!(days_in_month(2024, 2), 29);
    assert_eq!(days_in_month(2023, 2), 28);
    assert_eq!(days_in_month(1900, 2), 28);
    assert_eq!(days_in_month(2000, 2), 29);

    assert_eq!(get_secs_of_hour_22(Date { year: 2023, month: 12, day: 31 }), 1704060000);
}

#[test]
fn compute_expiry_hour_should_works() {
    let created = Timestamp::from_seconds(1_676_851_300);
    let expiry = compute_expiry(&LotteryPeriod::Hour {}, created);
    assert_eq!(expiry.seconds(), 1_676_851_300 + 3600);
}

#[test]
fn compute_expiry_day_can_lie_before_creation() {
    // created 2023-08-20 23:30 UTC, already past 22:00: the computed expiry
    // is 22:00 of the same day, which lies before the creation time
    let created = Timestamp::from_seconds(1_692_574_200);
    let expiry = compute_expiry(&LotteryPeriod::Day {}, created);
    assert_eq!(expiry.seconds(), 1_692_568_800);
    assert!(expiry.seconds() < created.seconds());
}

#[test]
fn compute_expiry_week_should_works() {
    // created Wednesday 2023-08-16 05:00 UTC; the Sunday-anchored week ends
    // on Saturday 2023-08-19 at 22:00 UTC
    let created = Timestamp::from_seconds(1_692_162_000);
    let expiry = compute_expiry(&LotteryPeriod::Week {}, created);
    assert_eq!(expiry.seconds(), 1_692_482_400);
}

#[test]
fn compute_expiry_month_should_works() {
    // created 2023-02-20: February 2023 ends on the 28th
    let created = Timestamp::from_seconds(1_676_851_300);
    let expiry = compute_expiry(&LotteryPeriod::Month {}, created);
    assert_eq!(expiry.seconds(), 1_677_621_600);
}

#[test]
fn compute_expiry_month_december_rollover() {
    // created 2023-12-20: the month expiry falls on December 31 of 2023,
    // not on any day of the following January
    let created = Timestamp::from_seconds(1_703_031_399);
    let expiry = compute_expiry(&LotteryPeriod::Month {}, created);
    assert_eq!(expiry.seconds(), 1_704_060_000);
    let end = timestamp_to_utc(expiry);
    assert_eq!(end, Date { year: 2023, month: 12, day: 31 });
}

#[test]
fn compute_expiry_year_should_works() {
    // created 2023-06-01: the year ends on December 31 at 22:00 UTC
    let created = Timestamp::from_seconds(1_685_577_600);
    let expiry = compute_expiry(&LotteryPeriod::Year {}, created);
    assert_eq!(expiry.seconds(), 1_704_060_000);
}

#[test]
fn get_last_day_week_should_works() {
    let last = get_last_day_week(Date { year: 2023, month: 8, day: 16 });
    assert_eq!(last, Date { year: 2023, month: 8, day: 19 });

    // a Saturday maps to itself
    let last = get_last_day_week(Date { year: 2023, month: 8, day: 19 });
    assert_eq!(last, Date { year: 2023, month: 8, day: 19 });

    // a Sunday starts its own week, ending six days later
    let last = get_last_day_week(Date { year: 2023, month: 8, day: 20 });
    assert_eq!(last, Date { year: 2023, month: 8, day: 26 });
}
