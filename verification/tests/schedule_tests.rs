//! Engine scenarios: an end-to-end day computed from real solar
//! positions, the current/next queries, the high-latitude clamp, the
//! night division, and a polar day with no solution.
//!
//! The solar positions are computed here, in the test, with the standard
//! low-precision solar series (Julian centuries, mean longitude and
//! anomaly, obliquity corrections) and a one-step iteration of the
//! equation of time — the same algorithm an application would use to feed
//! the engine.

use salati::calendar::Date;
use salati::coordinates::Coordinates;
use salati::madhab::Madhab;
use salati::method::Method;
use salati::parameters::ParametersBuilder;
use salati::prayer::Prayer;
use salati::prayer_time::PrayerTimeResolution;
use salati::prayer_times::{PrayerTimes, SolarDay};

fn fix360(x: f64) -> f64 {
    x - 360.0 * (x / 360.0).floor()
}

/// Apparent solar declination in degrees and equation of time in minutes
/// at the given Julian day.
fn sun(jd: f64) -> (f64, f64) {
    let t = (jd - 2451545.0) / 36525.0;
    let l0 = fix360(280.46646 + 36000.76983 * t + 0.0003032 * t * t);
    let m = fix360(357.52911 + 35999.05029 * t - 0.0001537 * t * t);
    let e = 0.016708634 - 0.000042037 * t - 0.0000001267 * t * t;
    let mr = m.to_radians();
    let c = (1.914602 - 0.004817 * t - 0.000014 * t * t) * mr.sin()
        + (0.019993 - 0.000101 * t) * (2.0 * mr).sin()
        + 0.000289 * (3.0 * mr).sin();
    let true_longitude = l0 + c;
    let omega = 125.04 - 1934.136 * t;
    let lambda = true_longitude - 0.00569 - 0.00478 * omega.to_radians().sin();
    let e0 = 23.0 + 26.0 / 60.0 + 21.448 / 3600.0
        - (46.8150 * t + 0.00059 * t * t - 0.001813 * t * t * t) / 3600.0;
    let epsilon = e0 + 0.00256 * omega.to_radians().cos();
    let declination =
        (epsilon.to_radians().sin() * lambda.to_radians().sin()).asin().to_degrees();
    let y = (epsilon / 2.0).to_radians().tan().powi(2);
    let l0r = l0.to_radians();
    let eqtime = 4.0
        * (y * (2.0 * l0r).sin() - 2.0 * e * mr.sin()
            + 4.0 * e * y * mr.sin() * (2.0 * l0r).cos()
            - 0.5 * y * y * (4.0 * l0r).sin()
            - 1.25 * e * e * (2.0 * mr).sin())
            .to_degrees();
    (declination, eqtime)
}

/// Solar transit of the day, in minutes after midnight UTC.
fn transit_minutes(jd0: f64, longitude: f64) -> f64 {
    let (_, e) = sun(jd0 + 0.5);
    let t = 720.0 - 4.0 * longitude - e;
    let (_, e) = sun(jd0 + t / 1440.0);
    720.0 - 4.0 * longitude - e
}

fn hour_angle(latitude: f64, declination: f64, altitude: f64) -> Option<f64> {
    let cos_h = (altitude.to_radians().sin()
        - latitude.to_radians().sin() * declination.to_radians().sin())
        / (latitude.to_radians().cos() * declination.to_radians().cos());
    if !(-1.0..=1.0).contains(&cos_h) {
        None
    } else {
        Some(cos_h.acos().to_degrees())
    }
}

/// The minute of the day the sun crosses `altitude` degrees, before or
/// after transit, iterated once to remove first-order error.
fn crossing_minutes(
    jd0: f64,
    latitude: f64,
    longitude: f64,
    altitude: f64,
    after: bool,
    t_transit: f64,
) -> Option<f64> {
    let (d, _) = sun(jd0 + t_transit / 1440.0);
    let h = hour_angle(latitude, d, altitude)?;
    let estimate = if after { t_transit + 4.0 * h } else { t_transit - 4.0 * h };
    let (d, e) = sun(jd0 + estimate / 1440.0);
    let h = hour_angle(latitude, d, altitude)?;
    let t_tr = 720.0 - 4.0 * longitude - e;
    Some(if after { t_tr + 4.0 * h } else { t_tr - 4.0 * h })
}

/// The raw sun events of one day, as the engine takes them.
fn solar_day(
    date: Date,
    latitude: f64,
    longitude: f64,
    fajr_angle: f64,
    isha_angle: f64,
    shadow_ratio: f64,
) -> SolarDay {
    let epoch_days = date.epoch_days();
    let jd0 = epoch_days as f64 + 2440587.5;
    let base = epoch_days * 86_400;
    let seconds = |m: Option<f64>| m.map(|t| base + (t * 60.0).round() as i64);
    let tt = transit_minutes(jd0, longitude);
    let (decl, _) = sun(jd0 + tt / 1440.0);
    let asr_altitude =
        (1.0 / (shadow_ratio + (latitude - decl).abs().to_radians().tan())).atan().to_degrees();
    SolarDay {
        sunrise: seconds(crossing_minutes(jd0, latitude, longitude, -0.8333, false, tt)),
        transit: Some(base + (tt * 60.0).round() as i64),
        sunset: seconds(crossing_minutes(jd0, latitude, longitude, -0.8333, true, tt)),
        fajr_base: seconds(crossing_minutes(jd0, latitude, longitude, -fajr_angle, false, tt)),
        isha_base: seconds(crossing_minutes(jd0, latitude, longitude, -isha_angle, true, tt)),
        asr: seconds(crossing_minutes(jd0, latitude, longitude, asr_altitude, true, tt)),
    }
}

fn assert_close(actual: Option<i64>, reference: i64, label: &str) {
    let t = actual.unwrap_or_else(|| panic!("{label} is absent"));
    assert!(
        (t - reference).abs() <= 60,
        "{label}: {t} differs from reference {reference} by more than a minute"
    );
}

#[test]
fn end_to_end_muslim_world_league_tunis() {
    let date = Date::new(2022, 8, 1).unwrap();
    let tunis = Coordinates::new(36_806, 10_181).unwrap();
    let params = ParametersBuilder::with(Method::MuslimWorldLeague, Madhab::Shafi);

    let (lat, lon) = (36.8065, 10.1815);
    let today = solar_day(date, lat, lon, 18.0, 17.0, 1.0);
    let tomorrow_date = date.tomorrow();
    let tomorrow = solar_day(tomorrow_date, lat, lon, 18.0, 17.0, 1.0);
    let day_after = solar_day(tomorrow_date.tomorrow(), lat, lon, 18.0, 17.0, 1.0);

    let schedule = PrayerTimes::new(date, tunis, &params, &today, &tomorrow, day_after.sunrise);

    // Reference instants for this convention, seconds since the Unix
    // epoch (all on 2022-08-01 UTC; Tunis local time is one hour ahead).
    assert_close(schedule.fajr.instant, 1_659_321_816, "fajr"); // 02:43:36
    assert_close(schedule.sunrise.instant, 1_659_327_885, "sunrise"); // 04:24:45
    assert_close(schedule.dhuhr.instant, 1_659_353_198, "dhuhr"); // 11:26:38
    assert_close(schedule.asr.instant, 1_659_366_850, "asr"); // 15:14:10
    assert_close(schedule.maghrib.instant, 1_659_378_360, "maghrib"); // 18:26:00
    assert_close(schedule.isha.instant, 1_659_384_016, "isha"); // 20:00:16

    for (pt, label) in [
        (&schedule.fajr, "fajr"),
        (&schedule.sunrise, "sunrise"),
        (&schedule.dhuhr, "dhuhr"),
        (&schedule.asr, "asr"),
        (&schedule.maghrib, "maghrib"),
        (&schedule.isha, "isha"),
    ] {
        assert_eq!(pt.code, PrayerTimeResolution::Normal, "{label}");
        assert!(pt.message.is_empty(), "{label}");
    }

    // the day's times are strictly ordered through the night points
    let order = [
        schedule.fajr.instant.unwrap(),
        schedule.sunrise.instant.unwrap(),
        schedule.dhuhr.instant.unwrap(),
        schedule.asr.instant.unwrap(),
        schedule.maghrib.instant.unwrap(),
        schedule.isha.instant.unwrap(),
        schedule.middle_of_the_night.instant.unwrap(),
        schedule.qiyam.instant.unwrap(),
        schedule.fajr_tomorrow.instant.unwrap(),
    ];
    assert!(order.windows(2).all(|w| w[0] < w[1]), "schedule out of order: {order:?}");
}

fn minute(date: Date, hour: i64, min: i64) -> Option<i64> {
    Some(date.timestamp_at(hour, min, 0))
}

/// A synthetic schedule used by the query tests.
fn query_schedule() -> (PrayerTimes, Date) {
    let date = Date::new(2024, 1, 1).unwrap();
    let next = date.tomorrow();
    let location = Coordinates::new(36_806, 10_181).unwrap();
    let params = ParametersBuilder::with(Method::MuslimWorldLeague, Madhab::Shafi);
    let today = SolarDay {
        sunrise: minute(date, 5, 30),
        transit: minute(date, 12, 14),
        sunset: minute(date, 17, 45),
        fajr_base: minute(date, 4, 0),
        isha_base: minute(date, 19, 15),
        asr: minute(date, 15, 0),
    };
    let tomorrow = SolarDay {
        sunrise: minute(next, 5, 30),
        transit: minute(next, 12, 14),
        sunset: minute(next, 17, 45),
        fajr_base: minute(next, 4, 0),
        isha_base: minute(next, 19, 15),
        asr: minute(next, 15, 0),
    };
    let after = minute(next.tomorrow(), 5, 30);
    (PrayerTimes::new(date, location, &params, &today, &tomorrow, after), date)
}

#[test]
fn current_next_and_remaining_at_six() {
    let (schedule, date) = query_schedule();
    // Fajr 04:00, sunrise 05:30, Dhuhr 12:15 (the method adds a minute)
    assert_eq!(schedule.fajr.instant, minute(date, 4, 0));
    assert_eq!(schedule.sunrise.instant, minute(date, 5, 30));
    assert_eq!(schedule.dhuhr.instant, minute(date, 12, 15));

    let six = date.timestamp_at(6, 0, 0);
    assert_eq!(schedule.current(six), Some(Prayer::Sunrise));
    assert_eq!(schedule.next(six), Some(Prayer::Dhuhr));
    assert_eq!(schedule.time_remaining(six), Some((6, 15)));
}

#[test]
fn current_is_absent_before_fajr() {
    let (schedule, date) = query_schedule();
    let early = date.timestamp_at(2, 0, 0);
    assert_eq!(schedule.current(early), None);
    assert_eq!(schedule.next(early), None);
    assert_eq!(schedule.time_remaining(early), None);
}

#[test]
fn current_wraps_to_tomorrow() {
    let (schedule, date) = query_schedule();
    let late = date.tomorrow().timestamp_at(4, 30, 0);
    assert_eq!(schedule.current(late), Some(Prayer::FajrTomorrow));
    assert_eq!(schedule.next(late), Some(Prayer::FajrTomorrow));
}

/// P6-style scenario: the same sun events, clamped at sixty degrees of
/// latitude and untouched at forty.
#[test]
fn high_latitude_clamp_activates_only_at_high_latitude() {
    let date = Date::new(2024, 4, 1).unwrap();
    let next = date.tomorrow();
    let params = ParametersBuilder::with(Method::MuslimWorldLeague, Madhab::Shafi);
    let yesterday = date.yesterday();
    let solar = |d: Date, prev: Date, following: Date| SolarDay {
        sunrise: minute(d, 4, 0),
        transit: minute(d, 12, 0),
        sunset: minute(d, 20, 0),
        // a geometric dawn well before the night-portion floor
        fajr_base: Some(prev.timestamp_at(23, 0, 0)),
        // and a geometric nightfall past the evening ceiling
        isha_base: Some(following.timestamp_at(0, 30, 0)),
        asr: minute(d, 16, 0),
    };
    let today = solar(date, yesterday, next);
    let tomorrow = solar(next, date, next.tomorrow());
    let after = minute(next.tomorrow(), 4, 0);

    // Muslim World League presets use the middle-of-the-night rule, so
    // the floor is sunrise less half the eight-hour night: midnight.
    let high = Coordinates::new(60_000, 10_000).unwrap();
    let clamped = PrayerTimes::new(date, high, &params, &today, &tomorrow, after);
    assert_eq!(clamped.fajr.instant, minute(date, 0, 0));
    assert_eq!(clamped.fajr.code, PrayerTimeResolution::HighLatitudeRule);
    assert!(!clamped.fajr.message.is_empty());
    // Isha past the evening ceiling (sunset plus half the night) is
    // clamped down to it.
    assert_eq!(clamped.isha.instant, minute(next, 0, 0));
    assert_eq!(clamped.isha.code, PrayerTimeResolution::HighLatitudeRule);

    let mid = Coordinates::new(40_000, 10_000).unwrap();
    let untouched = PrayerTimes::new(date, mid, &params, &today, &tomorrow, after);
    assert_eq!(untouched.fajr.instant, Some(yesterday.timestamp_at(23, 0, 0)));
    assert_eq!(untouched.fajr.code, PrayerTimeResolution::Normal);
    assert!(untouched.fajr.message.is_empty());
    assert_eq!(untouched.isha.instant, Some(next.timestamp_at(0, 30, 0)));
    assert_eq!(untouched.isha.code, PrayerTimeResolution::Normal);
}

/// P8-style scenario: a twelve-hour night divides at midnight and at two
/// in the morning.
#[test]
fn night_division_from_maghrib_to_tomorrow_fajr() {
    let date = Date::new(2024, 3, 1).unwrap();
    let next = date.tomorrow();
    let location = Coordinates::new(36_000, 10_000).unwrap();
    let params = ParametersBuilder::with(Method::Kuwait, Madhab::Shafi);
    let solar = |d: Date| SolarDay {
        sunrise: minute(d, 6, 30),
        transit: minute(d, 12, 0),
        sunset: minute(d, 18, 0),
        fajr_base: minute(d, 5, 0),
        isha_base: minute(d, 19, 30),
        asr: minute(d, 15, 30),
    };
    let today = solar(date);
    let mut tomorrow = solar(next);
    tomorrow.fajr_base = minute(next, 6, 0);
    let after = minute(next.tomorrow(), 6, 30);

    let schedule = PrayerTimes::new(date, location, &params, &today, &tomorrow, after);
    assert_eq!(schedule.maghrib.instant, minute(date, 18, 0));
    assert_eq!(schedule.fajr_tomorrow.instant, minute(next, 6, 0));
    assert_eq!(schedule.middle_of_the_night.instant, minute(next, 0, 0));
    assert_eq!(schedule.qiyam.instant, minute(next, 2, 0));
}

/// P11: deep polar winter has no sunrise or sunset; the schedule reports
/// the affected times as explicitly absent instead of failing.
#[test]
fn polar_winter_yields_absent_times() {
    let date = Date::new(2022, 12, 21).unwrap();
    let location = Coordinates::new(70_000, 25_000).unwrap();
    let params = ParametersBuilder::with(Method::MuslimWorldLeague, Madhab::Shafi);

    let (lat, lon) = (70.0, 25.0);
    let today = solar_day(date, lat, lon, 18.0, 17.0, 1.0);
    let tomorrow_date = date.tomorrow();
    let tomorrow = solar_day(tomorrow_date, lat, lon, 18.0, 17.0, 1.0);
    let day_after = solar_day(tomorrow_date.tomorrow(), lat, lon, 18.0, 17.0, 1.0);

    assert_eq!(today.sunrise, None, "the sun does not rise at seventy degrees in December");
    assert_eq!(today.sunset, None);

    let schedule = PrayerTimes::new(date, location, &params, &today, &tomorrow, day_after.sunrise);
    assert_eq!(schedule.solar_sunrise.instant, None);
    assert_eq!(schedule.solar_sunrise.code, PrayerTimeResolution::Invalid);
    assert_eq!(schedule.sunrise.instant, None);
    assert_eq!(schedule.maghrib.instant, None);
    assert_eq!(schedule.maghrib.code, PrayerTimeResolution::Invalid);
    assert_eq!(schedule.fajr.instant, None);
    assert_eq!(schedule.fajr.code, PrayerTimeResolution::Invalid);
    assert_eq!(schedule.isha.instant, None);
    assert_eq!(schedule.isha.code, PrayerTimeResolution::Invalid);
    assert_eq!(schedule.middle_of_the_night.instant, None);
    assert_eq!(schedule.qiyam.instant, None);
    assert_eq!(schedule.qiyam.code, PrayerTimeResolution::Invalid);
    // solar noon still exists
    assert!(schedule.dhuhr.instant.is_some());
}
