//! Calendar arithmetic and instant rounding.

use salati::calendar::Date;
use salati::instant::{adjust_time, nearest_minute};

fn date(year: i64, month: i64, day: i64) -> Date {
    Date::new(year, month, day).unwrap()
}

#[test]
fn calculate_nearest_minute() {
    let time_1 = date(2015, 7, 13).timestamp_at(4, 37, 30);
    let time_2 = date(2015, 7, 13).timestamp_at(5, 59, 20);

    assert_eq!(nearest_minute(time_1), date(2015, 7, 13).timestamp_at(4, 38, 0));
    assert_eq!(nearest_minute(time_2), date(2015, 7, 13).timestamp_at(5, 59, 0));
}

#[test]
fn adjusting_by_minutes() {
    let t = date(2015, 7, 13).timestamp_at(4, 37, 30);
    assert_eq!(adjust_time(t, 2), date(2015, 7, 13).timestamp_at(4, 39, 30));
    assert_eq!(adjust_time(t, -40), date(2015, 7, 13).timestamp_at(3, 57, 30));
}

#[test]
fn epoch_day_counts() {
    assert_eq!(date(1970, 1, 1).epoch_days(), 0);
    assert_eq!(date(1969, 12, 31).epoch_days(), -1);
    assert_eq!(date(2000, 3, 1).epoch_days(), 11_017);
    assert_eq!(date(2022, 8, 1).epoch_days(), 19_205);
    assert_eq!(date(2022, 8, 1).timestamp_at(0, 0, 0), 1_659_312_000);
}

#[test]
fn day_of_year_ordinals() {
    assert_eq!(date(2015, 1, 1).day_of_year(), 1);
    assert_eq!(date(2015, 12, 31).day_of_year(), 365);
    assert_eq!(date(2000, 12, 31).day_of_year(), 366);
    assert_eq!(date(2022, 8, 1).day_of_year(), 213);
}

#[test]
fn rejects_invalid_dates() {
    assert_eq!(Date::new(2015, 2, 29), None);
    assert_eq!(Date::new(2016, 2, 29), Some(date(2016, 2, 29)));
    assert_eq!(Date::new(2015, 13, 1), None);
    assert_eq!(Date::new(2015, 0, 1), None);
    assert_eq!(Date::new(0, 1, 1), None);
}

#[test]
fn test_tomorrow_cases() {
    let cases = [
        ((2015, 1, 15), (2015, 1, 16)),
        ((1995, 3, 3), (1995, 3, 4)),
        ((2015, 1, 31), (2015, 2, 1)),
        ((2015, 2, 28), (2015, 3, 1)),
        ((1500, 2, 28), (1500, 3, 1)),
        ((2000, 2, 28), (2000, 2, 29)),
        ((2000, 2, 29), (2000, 3, 1)),
        ((2006, 12, 31), (2007, 1, 1)),
    ];
    for ((y, m, d), (ey, em, ed)) in cases {
        assert_eq!(date(y, m, d).tomorrow(), date(ey, em, ed));
    }
}

#[test]
fn test_yesterday_cases() {
    let cases = [
        ((2015, 1, 15), (2015, 1, 14)),
        ((2015, 1, 31), (2015, 1, 30)),
        ((2015, 5, 1), (2015, 4, 30)),
        ((2015, 2, 28), (2015, 2, 27)),
        ((2015, 3, 1), (2015, 2, 28)),
        ((2000, 3, 1), (2000, 2, 29)),
        ((2000, 1, 1), (1999, 12, 31)),
        ((1500, 1, 1), (1499, 12, 31)),
        ((1501, 1, 1), (1500, 12, 31)),
    ];
    for ((y, m, d), (ey, em, ed)) in cases {
        assert_eq!(date(y, m, d).yesterday(), date(ey, em, ed));
    }
}
