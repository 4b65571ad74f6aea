//! Latitude thresholds of the high-latitude fallback, and the advisory
//! message attached when it fires.

use vstd::prelude::*;
use crate::coordinates::Coordinates;
use crate::method::Method;

verus! {

broadcast use vstd::string::to_string_from_display_ensures_for_str;

/// Latitude, in thousandths of a degree, from which the generic
/// high-latitude clamp applies.
pub const HIGH_LATITUDE_THRESHOLD: i64 = 48_000;

/// The Moonsighting Committee method keeps the geometric times up to a
/// higher latitude before overriding them.
pub const MOONSIGHTING_COMMITTEE_HIGH_LATITUDE: i64 = 55_000;

/// Whether the location counts as high latitude: at or above fifty-five
/// degrees for the Moonsighting Committee method, at or above forty-eight
/// degrees otherwise.
pub open spec fn is_high_latitude_spec(coordinates: Coordinates, method: Option<Method>) -> bool {
    match method {
        Some(Method::MoonsightingCommittee) => coordinates.latitude
            >= MOONSIGHTING_COMMITTEE_HIGH_LATITUDE,
        _ => coordinates.latitude >= HIGH_LATITUDE_THRESHOLD,
    }
}

/// Whether the location counts as high latitude for the given method.
pub fn is_high_latitude(coordinates: Coordinates, method: Option<Method>) -> (r: bool)
    ensures
        r == is_high_latitude_spec(coordinates, method),
{
    match method {
        Some(Method::MoonsightingCommittee) => coordinates.latitude
            >= MOONSIGHTING_COMMITTEE_HIGH_LATITUDE,
        _ => coordinates.latitude >= HIGH_LATITUDE_THRESHOLD,
    }
}

/// The advisory message a schedule carries on a prayer time that the
/// high-latitude fallback moved.
pub open spec fn high_latitude_message_spec() -> Seq<char> {
    "At higher latitudes, where Fajr and Isha times are very close to each other, we fallback to high latitude resolution strategy."@
}

/// The advisory message as an owned string.
pub fn high_latitude_message() -> (r: String)
    ensures
        r@ == high_latitude_message_spec(),
{
    "At higher latitudes, where Fajr and Isha times are very close to each other, we fallback to high latitude resolution strategy.".to_string()
}

} // verus!
