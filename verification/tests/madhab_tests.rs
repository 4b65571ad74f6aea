//! Shadow-length ratios of the two schools.

use salati::madhab::Madhab;

#[test]
fn shafi_shadow_length_ratio() {
    let shafi = Madhab::Shafi;

    assert_eq!(shafi.shadow_length_ratio(), 1);
}

#[test]
fn hanafi_shadow_length_ratio() {
    let hanafi = Madhab::Hanafi;

    assert_eq!(hanafi.shadow_length_ratio(), 2);
}
