//! The prayers and night points a daily schedule contains.

use vstd::prelude::*;

verus! {

broadcast use vstd::string::to_string_from_display_ensures_for_str;

/// Names of all obligatory prayers, sunrise, and the night points.
#[derive(Clone, Copy, Debug, PartialEq, Eq, Structural)]
pub enum Prayer {
    Fajr,
    Sunrise,
    Dhuhr,
    Asr,
    Maghrib,
    Isha,
    MiddleOfTheNight,
    Qiyam,
    FajrTomorrow,
}

/// The transliterated name of the prayer; the midday prayer is called
/// Jumua on Fridays.
pub open spec fn name_spec(p: Prayer, friday: bool) -> Seq<char> {
    match p {
        Prayer::Fajr => "Fajr"@,
        Prayer::FajrTomorrow => "Fajr"@,
        Prayer::Sunrise => "Sunrise"@,
        Prayer::Dhuhr => if friday {
            "Jumua"@
        } else {
            "Dhuhr"@
        },
        Prayer::Asr => "Asr"@,
        Prayer::Maghrib => "Maghrib"@,
        Prayer::Isha => "Isha"@,
        Prayer::MiddleOfTheNight => "Middle Of The Night"@,
        Prayer::Qiyam => "Qiyam"@,
    }
}

impl Prayer {
    /// The transliterated name of the prayer. Whether the reference day
    /// is a Friday is passed in by the caller, so that the crate never
    /// reads a clock of its own.
    pub fn name(&self, friday: bool) -> (r: String)
        ensures
            r@ == name_spec(*self, friday),
    {
        match self {
            Prayer::Fajr => "Fajr".to_string(),
            Prayer::FajrTomorrow => "Fajr".to_string(),
            Prayer::Sunrise => "Sunrise".to_string(),
            Prayer::Dhuhr => if friday {
                "Jumua".to_string()
            } else {
                "Dhuhr".to_string()
            },
            Prayer::Asr => "Asr".to_string(),
            Prayer::Maghrib => "Maghrib".to_string(),
            Prayer::Isha => "Isha".to_string(),
            Prayer::MiddleOfTheNight => "Middle Of The Night".to_string(),
            Prayer::Qiyam => "Qiyam".to_string(),
        }
    }
}

} // verus!
