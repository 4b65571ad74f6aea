//! Preset parameter tables of the calculation authorities.

use vstd::prelude::*;
use crate::adjustments::{TimeAdjustment, TimeAdjustmentBuilder};
use crate::angle::Angle;
use crate::high_latitude_rule::HighLatitudeRule;
use crate::madhab::Madhab;
use crate::parameters::{Parameters, ParametersBuilder};
use crate::polar_circle_resolution::PolarCircleResolution;
use crate::twilight::Twilight;

verus! {

/// Preset configurations of a few authorities for calculating prayer
/// times.
#[derive(Clone, Copy, Debug, PartialEq, Eq, Structural)]
pub enum Method {
    /// Muslim World League
    MuslimWorldLeague,
    /// Egyptian General Authority of Survey
    Egyptian,
    /// University of Islamic Sciences, Karachi
    Karachi,
    /// Umm al-Qura University, Makkah
    UmmAlQura,
    /// The Gulf Region
    Dubai,
    /// Moonsighting Committee
    MoonsightingCommittee,
    /// ISNA
    NorthAmerica,
    /// Kuwait
    Kuwait,
    /// Qatar
    Qatar,
    /// Singapore
    Singapore,
    /// Other
    Other,
}

/// A method adjustment set, stated in full.
pub open spec fn adj_spec(
    fajr: int,
    sunrise: int,
    dhuhr: int,
    asr: int,
    maghrib: int,
    isha: int,
) -> TimeAdjustment {
    TimeAdjustment {
        fajr: fajr as i64,
        sunrise: sunrise as i64,
        dhuhr: dhuhr as i64,
        asr: asr as i64,
        maghrib: maghrib as i64,
        isha: isha as i64,
    }
}

/// A preset: the two angles in thousandths of a degree, the Isha
/// interval in minutes, the high-latitude rule, and the method's own
/// adjustments; every other field at the builder's starting value.
pub open spec fn preset_spec(
    method: Method,
    fajr_milli: int,
    isha_milli: int,
    isha_interval: int,
    high_latitude_rule: HighLatitudeRule,
    method_adjustments: TimeAdjustment,
) -> Parameters {
    Parameters {
        method,
        fajr_angle: Angle { millidegrees: fajr_milli as i64 },
        isha_angle: Angle { millidegrees: isha_milli as i64 },
        isha_interval: isha_interval as i32,
        madhab: Madhab::Shafi,
        twilight: Twilight::Red,
        high_latitude_rule,
        polar_circle_resolution: PolarCircleResolution::Unresolved,
        adjustments: adj_spec(0, 0, 0, 0, 0, 0),
        method_adjustments,
    }
}

/// The preset parameter table: the exact angle pair, interval and
/// adjustments of each authority.
pub open spec fn method_parameters_spec(m: Method) -> Parameters {
    match m {
        Method::MuslimWorldLeague => preset_spec(
            m,
            18_000,
            17_000,
            0,
            HighLatitudeRule::MiddleOfTheNight,
            adj_spec(0, 0, 1, 0, 0, 0),
        ),
        Method::Egyptian => preset_spec(
            m,
            19_500,
            17_500,
            0,
            HighLatitudeRule::MiddleOfTheNight,
            adj_spec(0, 0, 1, 0, 0, 0),
        ),
        Method::Karachi => preset_spec(
            m,
            18_000,
            18_000,
            0,
            HighLatitudeRule::MiddleOfTheNight,
            adj_spec(0, 0, 1, 0, 0, 0),
        ),
        Method::UmmAlQura => preset_spec(
            m,
            18_500,
            0,
            90,
            HighLatitudeRule::MiddleOfTheNight,
            adj_spec(0, 0, 0, 0, 0, 0),
        ),
        Method::Dubai => preset_spec(
            m,
            18_200,
            18_200,
            0,
            HighLatitudeRule::MiddleOfTheNight,
            adj_spec(0, -3, 3, 3, 3, 0),
        ),
        Method::MoonsightingCommittee => preset_spec(
            m,
            18_000,
            18_000,
            0,
            HighLatitudeRule::SeventhOfTheNight,
            adj_spec(0, 0, 5, 0, 3, 0),
        ),
        Method::NorthAmerica => preset_spec(
            m,
            15_000,
            15_000,
            0,
            HighLatitudeRule::MiddleOfTheNight,
            adj_spec(0, 0, 1, 0, 0, 0),
        ),
        Method::Kuwait => preset_spec(
            m,
            18_000,
            17_500,
            0,
            HighLatitudeRule::MiddleOfTheNight,
            adj_spec(0, 0, 0, 0, 0, 0),
        ),
        Method::Qatar => preset_spec(
            m,
            18_000,
            0,
            90,
            HighLatitudeRule::MiddleOfTheNight,
            adj_spec(0, 0, 0, 0, 0, 0),
        ),
        Method::Singapore => preset_spec(
            m,
            20_000,
            18_000,
            0,
            HighLatitudeRule::MiddleOfTheNight,
            adj_spec(0, 0, 1, 0, 0, 0),
        ),
        Method::Other => preset_spec(
            m,
            0,
            0,
            0,
            HighLatitudeRule::MiddleOfTheNight,
            adj_spec(0, 0, 0, 0, 0, 0),
        ),
    }
}

impl Method {
    /// The preset parameters of the authority: its exact twilight angle
    /// pair, Isha interval, high-latitude rule and minute adjustments.
    pub fn parameters(&self) -> (r: Parameters)
        ensures
            r == method_parameters_spec(*self),
            r.wf(),
    {
        match self {
            Method::MuslimWorldLeague => ParametersBuilder::new(
                Angle::new(18_000),
                Angle::new(17_000),
            ).method(*self).method_adjustments(TimeAdjustmentBuilder::new().dhuhr(1).build()).build(),
            Method::Egyptian => ParametersBuilder::new(
                Angle::new(19_500),
                Angle::new(17_500),
            ).method(*self).method_adjustments(TimeAdjustmentBuilder::new().dhuhr(1).build()).build(),
            Method::Karachi => ParametersBuilder::new(
                Angle::new(18_000),
                Angle::new(18_000),
            ).method(*self).method_adjustments(TimeAdjustmentBuilder::new().dhuhr(1).build()).build(),
            Method::UmmAlQura => ParametersBuilder::new(Angle::new(18_500), Angle::new(0)).method(
                *self,
            ).isha_interval(90).build(),
            Method::Dubai => ParametersBuilder::new(
                Angle::new(18_200),
                Angle::new(18_200),
            ).method(*self).method_adjustments(
                TimeAdjustmentBuilder::new().sunrise(-3).dhuhr(3).asr(3).maghrib(3).build(),
            ).build(),
            Method::MoonsightingCommittee => ParametersBuilder::new(
                Angle::new(18_000),
                Angle::new(18_000),
            ).method(*self).high_latitude_rule(
                HighLatitudeRule::SeventhOfTheNight,
            ).method_adjustments(TimeAdjustmentBuilder::new().dhuhr(5).maghrib(3).build()).build(),
            Method::NorthAmerica => ParametersBuilder::new(
                Angle::new(15_000),
                Angle::new(15_000),
            ).method(*self).method_adjustments(TimeAdjustmentBuilder::new().dhuhr(1).build()).build(),
            Method::Kuwait => ParametersBuilder::new(Angle::new(18_000), Angle::new(17_500)).method(
                *self,
            ).build(),
            Method::Qatar => ParametersBuilder::new(Angle::new(18_000), Angle::new(0)).method(
                *self,
            ).isha_interval(90).build(),
            Method::Singapore => ParametersBuilder::new(
                Angle::new(20_000),
                Angle::new(18_000),
            ).method(*self).method_adjustments(TimeAdjustmentBuilder::new().dhuhr(1).build()).build(),
            Method::Other => ParametersBuilder::new(Angle::new(0), Angle::new(0)).method(
                *self,
            ).build(),
        }
    }
}

} // verus!
