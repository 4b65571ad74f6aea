//! Geographic coordinates, in thousandths of a degree.

use vstd::prelude::*;
use crate::angle::Angle;

verus! {

/// The latitude and longitude of a location, each in thousandths of a
/// degree (positive north and east).
#[derive(Clone, Copy, Debug, PartialEq, Eq, Structural)]
pub struct Coordinates {
    pub latitude: i64,
    pub longitude: i64,
}

impl Coordinates {
    /// Latitude within ninety degrees of the equator, longitude within a
    /// half turn of the prime meridian.
    pub open spec fn valid(self) -> bool {
        &&& -90_000 <= self.latitude <= 90_000
        &&& -180_000 <= self.longitude <= 180_000
    }

    /// The coordinates `(latitude, longitude)` when both lie in range,
    /// and nothing otherwise.
    pub fn new(latitude: i64, longitude: i64) -> (r: Option<Coordinates>)
        ensures
            r is Some <==> (Coordinates { latitude, longitude }).valid(),
            r is Some ==> r == Some(Coordinates { latitude, longitude }),
    {
        if -90_000 <= latitude && latitude <= 90_000 && -180_000 <= longitude && longitude
            <= 180_000 {
            Some(Coordinates { latitude, longitude })
        } else {
            None
        }
    }

    /// The latitude as an angle.
    pub fn latitude_angle(&self) -> (r: Angle)
        ensures
            r.millidegrees == self.latitude,
    {
        Angle { millidegrees: self.latitude }
    }

    /// The longitude as an angle.
    pub fn longitude_angle(&self) -> (r: Angle)
        ensures
            r.millidegrees == self.longitude,
    {
        Angle { millidegrees: self.longitude }
    }
}

} // verus!
