//! Parameter construction and the night portions of each rule.

use salati::angle::Angle;
use salati::high_latitude_rule::HighLatitudeRule;
use salati::madhab::Madhab;
use salati::method::Method;
use salati::adjustments::TimeAdjustment;
use salati::parameters::{NightPortion, Parameters, ParametersBuilder};
use salati::prayer::Prayer;

#[test]
fn calculate_parameters_with_fajr_and_isha_angles() {
    let params = Parameters::new(Angle::new(18_000), Angle::new(18_000));

    assert_eq!(params.fajr_angle, Angle::new(18_000));
    assert_eq!(params.isha_angle, Angle::new(18_000));
    assert_eq!(params.isha_interval, 0);
}

#[test]
fn calculated_night_portions_default_to_twilight_angle() {
    let params = Parameters::new(Angle::new(18_000), Angle::new(18_000));

    // eighteen degrees over sixty, as an exact fraction
    assert_eq!(params.night_portions().0, NightPortion { numerator: 18_000, denominator: 60_000 });
    assert_eq!(params.night_portions().1, NightPortion { numerator: 18_000, denominator: 60_000 });
}

#[test]
fn calculated_night_portions_middle_of_the_night() {
    let params = ParametersBuilder::new(Angle::new(18_000), Angle::new(18_000))
        .high_latitude_rule(HighLatitudeRule::MiddleOfTheNight)
        .build();

    assert_eq!(params.night_portions().0, NightPortion { numerator: 1, denominator: 2 });
    assert_eq!(params.night_portions().1, NightPortion { numerator: 1, denominator: 2 });
}

#[test]
fn calculated_night_portions_seventh_of_the_night() {
    let params = ParametersBuilder::new(Angle::new(18_000), Angle::new(18_000))
        .high_latitude_rule(HighLatitudeRule::SeventhOfTheNight)
        .build();

    assert_eq!(params.night_portions().0, NightPortion { numerator: 1, denominator: 7 });
    assert_eq!(params.night_portions().1, NightPortion { numerator: 1, denominator: 7 });
}

#[test]
fn calculated_night_portions_twilight_angle() {
    let params = ParametersBuilder::new(Angle::new(10_000), Angle::new(15_000))
        .high_latitude_rule(HighLatitudeRule::TwilightAngle)
        .build();

    assert_eq!(params.night_portions().0, NightPortion { numerator: 10_000, denominator: 60_000 });
    assert_eq!(params.night_portions().1, NightPortion { numerator: 15_000, denominator: 60_000 });
}

#[test]
fn parameters_using_method_and_madhab() {
    let params = ParametersBuilder::with(Method::NorthAmerica, Madhab::Hanafi);

    assert_eq!(params.method, Method::NorthAmerica);
    assert_eq!(params.fajr_angle, Angle::new(15_000));
    assert_eq!(params.isha_angle, Angle::new(15_000));
    assert_eq!(params.isha_interval, 0);
    assert_eq!(params.madhab, Madhab::Hanafi);
}

#[test]
fn night_portion_scales_a_night() {
    // a ten-hour night
    let night: i64 = 36_000;
    let half = NightPortion { numerator: 1, denominator: 2 };
    let seventh = NightPortion { numerator: 1, denominator: 7 };
    let angle = NightPortion { numerator: 18_000, denominator: 60_000 };
    assert_eq!(half.of(night), 18_000);
    assert_eq!(seventh.of(night), 5_142);
    assert_eq!(angle.of(night), 10_800);
}

#[test]
fn summed_time_adjustments() {
    let mut params = Parameters::new(Angle::new(18_000), Angle::new(17_000));
    params.adjustments = TimeAdjustment::new(2, 0, -1, 0, 4, 0);
    params.method_adjustments = TimeAdjustment::new(1, 0, 5, 0, -1, 0);
    assert_eq!(params.time_adjustments(Prayer::Fajr), 3);
    assert_eq!(params.time_adjustments(Prayer::Dhuhr), 4);
    assert_eq!(params.time_adjustments(Prayer::Maghrib), 3);
    assert_eq!(params.time_adjustments(Prayer::Sunrise), 0);
    assert_eq!(params.time_adjustments(Prayer::Qiyam), 0);
}
