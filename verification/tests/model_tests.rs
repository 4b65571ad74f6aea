//! The small model types: coordinates, rules, resolutions, builders.

use salati::adjustments::{TimeAdjustment, TimeAdjustmentBuilder};
use salati::constants::is_high_latitude;
use salati::coordinates::Coordinates;
use salati::high_latitude_rule::HighLatitudeRule;
use salati::method::Method;
use salati::prayer_time::{PrayerTime, PrayerTimeBuilder, PrayerTimeResolution};

#[test]
fn coordinates_validate_their_ranges() {
    assert!(Coordinates::new(36_806, 10_181).is_some());
    assert!(Coordinates::new(90_000, 180_000).is_some());
    assert_eq!(Coordinates::new(90_001, 0), None);
    assert_eq!(Coordinates::new(0, -180_001), None);
    let c = Coordinates::new(-33_859, 151_211).unwrap();
    assert_eq!(c.latitude_angle().millidegrees, -33_859);
    assert_eq!(c.longitude_angle().millidegrees, 151_211);
}

#[test]
fn high_latitude_thresholds() {
    let just_below = Coordinates::new(47_999, 0).unwrap();
    let at_threshold = Coordinates::new(48_000, 0).unwrap();
    let at_moonsighting = Coordinates::new(55_000, 0).unwrap();
    assert!(!is_high_latitude(just_below, None));
    assert!(is_high_latitude(at_threshold, None));
    // the Moonsighting Committee method keeps geometry up to fifty-five
    assert!(!is_high_latitude(at_threshold, Some(Method::MoonsightingCommittee)));
    assert!(is_high_latitude(at_moonsighting, Some(Method::MoonsightingCommittee)));
    assert!(is_high_latitude(at_threshold, Some(Method::MuslimWorldLeague)));
}

#[test]
fn recommended_rule_by_latitude() {
    let high = Coordinates::new(52_000, 0).unwrap();
    let mid = Coordinates::new(36_000, 0).unwrap();
    assert_eq!(HighLatitudeRule::recommended(high), HighLatitudeRule::SeventhOfTheNight);
    assert_eq!(HighLatitudeRule::recommended(mid), HighLatitudeRule::MiddleOfTheNight);
}

#[test]
fn time_adjustment_builder_collects_fields() {
    let adj = TimeAdjustmentBuilder::new().fajr(2).sunrise(-3).dhuhr(1).asr(4).maghrib(3).isha(
        -5,
    ).build();
    assert_eq!(adj, TimeAdjustment::new(2, -3, 1, 4, 3, -5));
    assert_eq!(TimeAdjustmentBuilder::new().build(), TimeAdjustment::default());
}

#[test]
fn prayer_time_resolves_presence() {
    let present = PrayerTime::new(Some(1_650_000_000));
    assert_eq!(present.code, PrayerTimeResolution::Normal);
    assert!(present.message.is_empty());
    let absent = PrayerTime::new(None);
    assert_eq!(absent.instant, None);
    assert_eq!(absent.code, PrayerTimeResolution::Invalid);
}

#[test]
fn prayer_time_builder_carries_code_and_message() {
    let pt = PrayerTimeBuilder::new(Some(1_650_000_000)).code(
        PrayerTimeResolution::HighLatitudeRule,
    ).message(String::from("moved")).build();
    assert_eq!(pt.instant, Some(1_650_000_000));
    assert_eq!(pt.code, PrayerTimeResolution::HighLatitudeRule);
    assert_eq!(pt.message, "moved");
}
