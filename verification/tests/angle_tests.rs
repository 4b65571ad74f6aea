//! Angle arithmetic and normalization, in thousandths of a degree.

use salati::angle::{normalized_to_scale, Angle};

#[test]
fn normalize_value() {
    assert_eq!(normalized_to_scale(2_000, -5_000), -3_000);
    assert_eq!(normalized_to_scale(-4_000, -5_000), -4_000);
    assert_eq!(normalized_to_scale(-6_000, -5_000), -1_000);

    assert_eq!(normalized_to_scale(-1_000, 24_000), 23_000);
    assert_eq!(normalized_to_scale(1_000, 24_000), 1_000);
    assert_eq!(normalized_to_scale(49_000, 24_000), 1_000);

    assert_eq!(normalized_to_scale(361_000, 360_000), 1_000);
    assert_eq!(normalized_to_scale(360_000, 360_000), 0);
    assert_eq!(normalized_to_scale(259_000, 360_000), 259_000);
    assert_eq!(normalized_to_scale(2_592_000, 360_000), 72_000);
}

#[test]
fn angle_unwound() {
    assert_eq!(Angle::new(-45_000).unwound().millidegrees, 315_000);
    assert_eq!(Angle::new(361_000).unwound().millidegrees, 1_000);
    assert_eq!(Angle::new(360_000).unwound().millidegrees, 0);
    assert_eq!(Angle::new(259_000).unwound().millidegrees, 259_000);
    assert_eq!(Angle::new(2_592_000).unwound().millidegrees, 72_000);
}

#[test]
fn closest_angle() {
    assert_eq!(Angle::new(360_000).quadrant_shifted().millidegrees, 0);
    assert_eq!(Angle::new(361_000).quadrant_shifted().millidegrees, 1_000);
    assert_eq!(Angle::new(1_000).quadrant_shifted().millidegrees, 1_000);
    assert_eq!(Angle::new(-1_000).quadrant_shifted().millidegrees, -1_000);
    assert_eq!(Angle::new(-181_000).quadrant_shifted().millidegrees, 179_000);
    assert_eq!(Angle::new(180_000).quadrant_shifted().millidegrees, 180_000);
    assert_eq!(Angle::new(359_000).quadrant_shifted().millidegrees, -1_000);
    assert_eq!(Angle::new(-359_000).quadrant_shifted().millidegrees, 1_000);
    assert_eq!(Angle::new(1_261_000).quadrant_shifted().millidegrees, -179_000);
}

#[test]
fn adding_angles() {
    let angle_a = Angle::new(45_000);
    let angle_b = Angle::new(45_000);

    assert_eq!(angle_a.plus(angle_b).millidegrees, 90_000);
}

#[test]
fn subtracting_and_scaling_angles() {
    assert_eq!(Angle::new(45_000).minus(Angle::new(90_000)).millidegrees, -45_000);
    // 1.5 degrees times 2 degrees is 3 degrees
    assert_eq!(Angle::new(1_500).times(Angle::new(2_000)).millidegrees, 3_000);
}

#[test]
fn dividing_angles() {
    // 90 degrees over 2 degrees is 45 degrees
    let r = Angle::new(90_000).divided_by(Angle::new(2_000));
    assert_eq!(r, Some(Angle::new(45_000)));
    // division by an exactly zero angle is an invalid operation
    assert_eq!(Angle::new(90_000).divided_by(Angle::new(0)), None);
}

#[test]
fn normalization_is_idempotent() {
    let once = Angle::new(2_592_000).unwound();
    assert_eq!(once.unwound(), once);
    let shifted = Angle::new(1_261_000).quadrant_shifted();
    assert_eq!(shifted.quadrant_shifted(), shifted);
}
