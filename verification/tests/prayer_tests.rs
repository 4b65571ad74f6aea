//! Prayer names; whether the reference day is a Friday is passed in
//! explicitly.

use salati::prayer::Prayer;

#[test]
fn prayer_name_for_fajr_en_transliteration() {
    assert_eq!(Prayer::Fajr.name(false), "Fajr");
    assert_eq!(Prayer::Sunrise.name(false), "Sunrise");

    assert_eq!(Prayer::Dhuhr.name(true), "Jumua");
    assert_eq!(Prayer::Dhuhr.name(false), "Dhuhr");

    assert_eq!(Prayer::Asr.name(false), "Asr");
    assert_eq!(Prayer::Maghrib.name(false), "Maghrib");
    assert_eq!(Prayer::Isha.name(false), "Isha");
    assert_eq!(Prayer::MiddleOfTheNight.name(false), "Middle Of The Night");
    assert_eq!(Prayer::Qiyam.name(false), "Qiyam");
    assert_eq!(Prayer::FajrTomorrow.name(false), "Fajr");
}
