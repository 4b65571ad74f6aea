//! Fallback strategies for latitudes where the twilight angles become
//! unreliable.

use vstd::prelude::*;
use crate::constants::{is_high_latitude_spec, is_high_latitude};
use crate::coordinates::Coordinates;

verus! {

/// How the night-based safety bound on Fajr and Isha is derived.
#[derive(Clone, Copy, Debug, PartialEq, Eq, Structural)]
pub enum HighLatitudeRule {
    MiddleOfTheNight,
    SeventhOfTheNight,
    TwilightAngle,
}

impl Default for HighLatitudeRule {
    fn default() -> (r: Self)
        ensures
            r == HighLatitudeRule::TwilightAngle,
    {
        HighLatitudeRule::TwilightAngle
    }
}

impl HighLatitudeRule {
    /// The rule recommended for a location: a seventh of the night at
    /// high latitudes, half the night elsewhere.
    pub fn recommended(coordinates: Coordinates) -> (r: Self)
        ensures
            r == if is_high_latitude_spec(coordinates, None) {
                HighLatitudeRule::SeventhOfTheNight
            } else {
                HighLatitudeRule::MiddleOfTheNight
            },
    {
        if is_high_latitude(coordinates, None) {
            HighLatitudeRule::SeventhOfTheNight
        } else {
            HighLatitudeRule::MiddleOfTheNight
        }
    }
}

} // verus!
