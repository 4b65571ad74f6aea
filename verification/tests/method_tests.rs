//! Preset parameter tables, angle values in thousandths of a degree.

use salati::angle::Angle;
use salati::method::Method;

#[test]
fn parameters_for_muslim_world_league() {
    let method = Method::MuslimWorldLeague;
    let params = method.parameters();

    assert_eq!(params.method, Method::MuslimWorldLeague);
    assert_eq!(params.fajr_angle, Angle::new(18_000));
    assert_eq!(params.isha_angle, Angle::new(17_000));
    assert_eq!(params.isha_interval, 0);
}

#[test]
fn parameters_for_egyptian() {
    let method = Method::Egyptian;
    let params = method.parameters();

    assert_eq!(params.method, Method::Egyptian);
    assert_eq!(params.fajr_angle, Angle::new(19_500));
    assert_eq!(params.isha_angle, Angle::new(17_500));
    assert_eq!(params.isha_interval, 0);
}

#[test]
fn parameters_for_karachi() {
    let method = Method::Karachi;
    let params = method.parameters();

    assert_eq!(params.method, Method::Karachi);
    assert_eq!(params.fajr_angle, Angle::new(18_000));
    assert_eq!(params.isha_angle, Angle::new(18_000));
    assert_eq!(params.isha_interval, 0);
}

#[test]
fn parameters_for_umm_al_qura() {
    let method = Method::UmmAlQura;
    let params = method.parameters();

    assert_eq!(params.method, Method::UmmAlQura);
    assert_eq!(params.fajr_angle, Angle::new(18_500));
    assert_eq!(params.isha_angle, Angle::new(0));
    assert_eq!(params.isha_interval, 90);
}

#[test]
fn parameters_for_dubai() {
    let method = Method::Dubai;
    let params = method.parameters();

    assert_eq!(params.method, Method::Dubai);
    assert_eq!(params.fajr_angle, Angle::new(18_200), "Parameters: {:?}", params);
    assert_eq!(params.isha_angle, Angle::new(18_200));
    assert_eq!(params.isha_interval, 0);
}

#[test]
fn parameters_for_moonsighting_committee() {
    let method = Method::MoonsightingCommittee;
    let params = method.parameters();

    assert_eq!(params.method, Method::MoonsightingCommittee);
    assert_eq!(params.fajr_angle, Angle::new(18_000));
    assert_eq!(params.isha_angle, Angle::new(18_000));
    assert_eq!(params.isha_interval, 0);
}

#[test]
fn parameters_for_north_america() {
    let method = Method::NorthAmerica;
    let params = method.parameters();

    assert_eq!(params.method, Method::NorthAmerica);
    assert_eq!(params.fajr_angle, Angle::new(15_000));
    assert_eq!(params.isha_angle, Angle::new(15_000));
    assert_eq!(params.isha_interval, 0);
}

#[test]
fn parameters_for_kuwait() {
    let method = Method::Kuwait;
    let params = method.parameters();

    assert_eq!(params.method, Method::Kuwait);
    assert_eq!(params.fajr_angle, Angle::new(18_000));
    assert_eq!(params.isha_angle, Angle::new(17_500));
    assert_eq!(params.isha_interval, 0);
}

#[test]
fn parameters_for_qatar() {
    let method = Method::Qatar;
    let params = method.parameters();

    assert_eq!(params.method, Method::Qatar);
    assert_eq!(params.fajr_angle, Angle::new(18_000));
    assert_eq!(params.isha_angle, Angle::new(0));
    assert_eq!(params.isha_interval, 90);
}

#[test]
fn parameters_for_singapore() {
    let method = Method::Singapore;
    let params = method.parameters();

    assert_eq!(params.method, Method::Singapore);
    assert_eq!(params.fajr_angle, Angle::new(20_000));
    assert_eq!(params.isha_angle, Angle::new(18_000));
    assert_eq!(params.isha_interval, 0);
}

#[test]
fn parameters_for_other() {
    let method = Method::Other;
    let params = method.parameters();

    assert_eq!(params.method, Method::Other);
    assert_eq!(params.fajr_angle, Angle::new(0));
    assert_eq!(params.isha_angle, Angle::new(0));
    assert_eq!(params.isha_interval, 0);
}
