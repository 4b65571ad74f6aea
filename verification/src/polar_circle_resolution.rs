//! Strategy for dates and places where the sun neither rises nor sets.
//!
//! The strategy is carried in the parameter set but not consulted by the
//! engine: when the geometry of a day has no solution the schedule
//! reports the affected times as absent, and the caller decides policy.

use vstd::prelude::*;

verus! {

/// How a caller wishes unsolvable polar-circle geometry to be resolved.
#[derive(Clone, Copy, Debug, PartialEq, Eq, Structural)]
pub enum PolarCircleResolution {
    NearestTown,
    NearestDay,
    UmmAlQura,
    Unresolved,
}

impl Default for PolarCircleResolution {
    fn default() -> (r: Self)
        ensures
            r == PolarCircleResolution::UmmAlQura,
    {
        PolarCircleResolution::UmmAlQura
    }
}

} // verus!
