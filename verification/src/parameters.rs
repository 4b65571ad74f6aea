//! The full configuration of one schedule computation.

use vstd::prelude::*;
use crate::adjustments::TimeAdjustment;
use crate::angle::Angle;
use crate::high_latitude_rule::HighLatitudeRule;
use crate::instant::{ADJUSTMENT_BOUND, INSTANT_BOUND};
use crate::madhab::Madhab;
use crate::method::Method;
use crate::num::{div_trunc, trunc_div, NUM_BOUND};
use crate::polar_circle_resolution::PolarCircleResolution;
use crate::prayer::Prayer;
use crate::twilight::Twilight;

verus! {

/// Parameters of one computation: twilight angles, Isha interval, school,
/// twilight convention, high-latitude rule, polar strategy, and the two
/// independent adjustment sets (the caller's and the method's).
#[derive(Clone, Copy, Debug, PartialEq, Eq, Structural)]
pub struct Parameters {
    pub method: Method,
    pub fajr_angle: Angle,
    pub isha_angle: Angle,
    pub isha_interval: i32,
    pub madhab: Madhab,
    pub twilight: Twilight,
    pub high_latitude_rule: HighLatitudeRule,
    pub polar_circle_resolution: PolarCircleResolution,
    pub adjustments: TimeAdjustment,
    pub method_adjustments: TimeAdjustment,
}

/// One share of the night, as an exact fraction.
#[derive(Clone, Copy, Debug, PartialEq, Eq, Structural)]
pub struct NightPortion {
    pub numerator: i64,
    pub denominator: i64,
}

/// The two night portions a rule prescribes: half the night for the
/// middle-of-the-night rule, a seventh for the seventh-of-the-night rule,
/// and the twilight angle over sixty degrees otherwise.
pub open spec fn night_portions_spec(p: Parameters) -> (NightPortion, NightPortion) {
    match p.high_latitude_rule {
        HighLatitudeRule::MiddleOfTheNight => (
            NightPortion { numerator: 1, denominator: 2 },
            NightPortion { numerator: 1, denominator: 2 },
        ),
        HighLatitudeRule::SeventhOfTheNight => (
            NightPortion { numerator: 1, denominator: 7 },
            NightPortion { numerator: 1, denominator: 7 },
        ),
        HighLatitudeRule::TwilightAngle => (
            NightPortion { numerator: p.fajr_angle.millidegrees, denominator: 60_000 },
            NightPortion { numerator: p.isha_angle.millidegrees, denominator: 60_000 },
        ),
    }
}

/// The summed minute adjustment applied to the prayer: the caller's and
/// the method's, added; the night points take none.
pub open spec fn time_adjustments_spec(p: Parameters, prayer: Prayer) -> int {
    match prayer {
        Prayer::Fajr => p.adjustments.fajr + p.method_adjustments.fajr,
        Prayer::Sunrise => p.adjustments.sunrise + p.method_adjustments.sunrise,
        Prayer::Dhuhr => p.adjustments.dhuhr + p.method_adjustments.dhuhr,
        Prayer::Asr => p.adjustments.asr + p.method_adjustments.asr,
        Prayer::Maghrib => p.adjustments.maghrib + p.method_adjustments.maghrib,
        Prayer::Isha => p.adjustments.isha + p.method_adjustments.isha,
        _ => 0,
    }
}

impl NightPortion {
    /// Acceptable fractions: a positive denominator and a numerator small
    /// enough that scaling a night length cannot overflow.
    pub open spec fn bounded(self) -> bool {
        &&& 0 < self.denominator <= 100_000
        &&& -100_000 <= self.numerator <= 100_000
    }

    /// The portion's share of a night of `night` seconds, the spare
    /// fraction of a second dropped toward zero.
    pub fn of(&self, night: i64) -> (r: i64)
        requires
            self.bounded(),
            -2 * INSTANT_BOUND <= night <= 2 * INSTANT_BOUND,
        ensures
            r == trunc_div(night * self.numerator, self.denominator as int),
            crate::num::abs_int(self.numerator as int) <= 2 * self.denominator
                ==> -2 * crate::num::abs_int(night as int) <= r <= 2 * crate::num::abs_int(
                night as int,
            ),
    {
        proof {
            assert(-NUM_BOUND <= night * self.numerator <= NUM_BOUND) by (nonlinear_arith)
                requires
                    -8_000_000_000_000 <= night <= 8_000_000_000_000,
                    -100_000 <= self.numerator <= 100_000,
            ;
            if crate::num::abs_int(self.numerator as int) <= 2 * self.denominator {
                lemma_portion_magnitude(night as int, self.numerator as int,
                    self.denominator as int);
            }
        }
        div_trunc(night * self.numerator, self.denominator)
    }
}

/// A fraction whose numerator is at most twice its denominator scales a
/// night to at most twice the night.
proof fn lemma_portion_magnitude(night: int, num: int, den: int)
    requires
        0 < den,
        crate::num::abs_int(num) <= 2 * den,
    ensures
        -2 * crate::num::abs_int(night) <= trunc_div(night * num, den) <= 2 * crate::num::abs_int(
            night,
        ),
{
    let x = night * num;
    let ax = crate::num::abs_int(x);
    let an = crate::num::abs_int(night);
    let q = ax / den;
    assert(ax <= 2 * den * an) by (nonlinear_arith)
        requires
            crate::num::abs_int(num) <= 2 * den,
            x == night * num,
            ax == crate::num::abs_int(x),
            an == crate::num::abs_int(night),
            0 < den,
    ;
    vstd::arithmetic::div_mod::lemma_fundamental_div_mod(ax, den);
    vstd::arithmetic::div_mod::lemma_mod_bound(ax, den);
    assert(0 <= q <= 2 * an) by (nonlinear_arith)
        requires
            ax == den * q + ax % den,
            0 <= ax % den < den,
            0 <= ax <= 2 * den * an,
            0 < den,
            0 <= an,
    ;
    assert(trunc_div(x, den) == q || trunc_div(x, den) == -q);
}

impl Parameters {
    /// A parameter set with the two twilight angles and every other field
    /// at its default.
    pub fn new(fajr_angle: Angle, isha_angle: Angle) -> (r: Parameters)
        ensures
            r == (Parameters {
                method: Method::Other,
                fajr_angle,
                isha_angle,
                isha_interval: 0,
                madhab: Madhab::Shafi,
                twilight: Twilight::Red,
                high_latitude_rule: HighLatitudeRule::TwilightAngle,
                polar_circle_resolution: PolarCircleResolution::Unresolved,
                adjustments: TimeAdjustment { fajr: 0, sunrise: 0, dhuhr: 0, asr: 0, maghrib: 0,
                    isha: 0 },
                method_adjustments: TimeAdjustment { fajr: 0, sunrise: 0, dhuhr: 0, asr: 0,
                    maghrib: 0, isha: 0 },
            }),
    {
        Parameters {
            fajr_angle,
            isha_angle,
            method: Method::Other,
            isha_interval: 0,
            madhab: Madhab::Shafi,
            twilight: Twilight::Red,
            high_latitude_rule: HighLatitudeRule::TwilightAngle,
            polar_circle_resolution: PolarCircleResolution::Unresolved,
            adjustments: TimeAdjustment::default(),
            method_adjustments: TimeAdjustment::default(),
        }
    }

    /// Whether the numeric fields are within the ranges the engine's
    /// arithmetic accepts: twilight angles within ninety degrees,
    /// adjustments and interval within a million minutes.
    pub open spec fn wf(self) -> bool {
        &&& -90_000 <= self.fajr_angle.millidegrees <= 90_000
        &&& -90_000 <= self.isha_angle.millidegrees <= 90_000
        &&& 0 <= self.isha_interval <= 1_000_000
        &&& self.adjustments.bounded()
        &&& self.method_adjustments.bounded()
    }

    /// The night portions of the configured high-latitude rule.
    pub fn night_portions(&self) -> (r: (NightPortion, NightPortion))
        ensures
            r == night_portions_spec(*self),
    {
        match self.high_latitude_rule {
            HighLatitudeRule::MiddleOfTheNight => (
                NightPortion { numerator: 1, denominator: 2 },
                NightPortion { numerator: 1, denominator: 2 },
            ),
            HighLatitudeRule::SeventhOfTheNight => (
                NightPortion { numerator: 1, denominator: 7 },
                NightPortion { numerator: 1, denominator: 7 },
            ),
            HighLatitudeRule::TwilightAngle => (
                NightPortion { numerator: self.fajr_angle.millidegrees, denominator: 60_000 },
                NightPortion { numerator: self.isha_angle.millidegrees, denominator: 60_000 },
            ),
        }
    }

    /// The summed minute adjustment for one prayer.
    pub fn time_adjustments(&self, prayer: Prayer) -> (r: i64)
        requires
            self.adjustments.bounded(),
            self.method_adjustments.bounded(),
        ensures
            r == time_adjustments_spec(*self, prayer),
            -2 * ADJUSTMENT_BOUND <= r <= 2 * ADJUSTMENT_BOUND,
    {
        match prayer {
            Prayer::Fajr => self.adjustments.fajr + self.method_adjustments.fajr,
            Prayer::Sunrise => self.adjustments.sunrise + self.method_adjustments.sunrise,
            Prayer::Dhuhr => self.adjustments.dhuhr + self.method_adjustments.dhuhr,
            Prayer::Asr => self.adjustments.asr + self.method_adjustments.asr,
            Prayer::Maghrib => self.adjustments.maghrib + self.method_adjustments.maghrib,
            Prayer::Isha => self.adjustments.isha + self.method_adjustments.isha,
            _ => 0,
        }
    }
}

/// Builder for a parameter set.
#[derive(Clone, Copy, Debug)]
pub struct ParametersBuilder {
    method: Method,
    fajr_angle: Angle,
    isha_angle: Angle,
    isha_interval: i32,
    madhab: Madhab,
    pub twilight: Twilight,
    pub high_latitude_rule: HighLatitudeRule,
    pub polar_circle_resolution: PolarCircleResolution,
    adjustments: TimeAdjustment,
    method_adjustments: TimeAdjustment,
}

impl ParametersBuilder {
    /// The parameters the builder currently holds.
    pub closed spec fn as_parameters(self) -> Parameters {
        Parameters {
            method: self.method,
            fajr_angle: self.fajr_angle,
            isha_angle: self.isha_angle,
            isha_interval: self.isha_interval,
            madhab: self.madhab,
            twilight: self.twilight,
            high_latitude_rule: self.high_latitude_rule,
            polar_circle_resolution: self.polar_circle_resolution,
            adjustments: self.adjustments,
            method_adjustments: self.method_adjustments,
        }
    }

    /// A builder with the two twilight angles and every other field at
    /// its starting value.
    pub fn new(fajr_angle: Angle, isha_angle: Angle) -> (r: ParametersBuilder)
        ensures
            r.as_parameters() == (Parameters {
                method: Method::Other,
                fajr_angle,
                isha_angle,
                isha_interval: 0,
                madhab: Madhab::Shafi,
                twilight: Twilight::Red,
                high_latitude_rule: HighLatitudeRule::MiddleOfTheNight,
                polar_circle_resolution: PolarCircleResolution::Unresolved,
                adjustments: TimeAdjustment { fajr: 0, sunrise: 0, dhuhr: 0, asr: 0, maghrib: 0,
                    isha: 0 },
                method_adjustments: TimeAdjustment { fajr: 0, sunrise: 0, dhuhr: 0, asr: 0,
                    maghrib: 0, isha: 0 },
            }),
    {
        ParametersBuilder {
            fajr_angle,
            isha_angle,
            method: Method::Other,
            isha_interval: 0,
            madhab: Madhab::Shafi,
            twilight: Twilight::Red,
            high_latitude_rule: HighLatitudeRule::MiddleOfTheNight,
            polar_circle_resolution: PolarCircleResolution::Unresolved,
            adjustments: TimeAdjustment::default(),
            method_adjustments: TimeAdjustment::default(),
        }
    }

    /// The preset parameters of `method`, with the school replaced.
    pub fn with(method: Method, madhab: Madhab) -> (r: Parameters)
        ensures
            r == (Parameters { madhab, ..crate::method::method_parameters_spec(method) }),
    {
        let params = method.parameters();
        Parameters { madhab, ..params }
    }

    /// Sets the method.
    pub fn method(self, method: Method) -> (r: Self)
        ensures
            r.as_parameters() == (Parameters { method, ..self.as_parameters() }),
    {
        ParametersBuilder { method, ..self }
    }

    /// Sets the method's own adjustment set.
    pub fn method_adjustments(self, method_adjustments: TimeAdjustment) -> (r: Self)
        ensures
            r.as_parameters() == (Parameters { method_adjustments, ..self.as_parameters() }),
    {
        ParametersBuilder { method_adjustments, ..self }
    }

    /// Sets the polar-circle strategy.
    pub fn polar_circle_resolution(self, polar_circle_resolution: PolarCircleResolution) -> (r:
        Self)
        ensures
            r.as_parameters() == (Parameters {
                polar_circle_resolution,
                ..self.as_parameters()
            }),
    {
        ParametersBuilder { polar_circle_resolution, ..self }
    }

    /// Sets the high-latitude rule.
    pub fn high_latitude_rule(self, high_latitude_rule: HighLatitudeRule) -> (r: Self)
        ensures
            r.as_parameters() == (Parameters { high_latitude_rule, ..self.as_parameters() }),
    {
        ParametersBuilder { high_latitude_rule, ..self }
    }

    /// Sets the school.
    pub fn madhab(self, madhab: Madhab) -> (r: Self)
        ensures
            r.as_parameters() == (Parameters { madhab, ..self.as_parameters() }),
    {
        ParametersBuilder { madhab, ..self }
    }

    /// Sets the twilight convention.
    pub fn twilight(self, twilight: Twilight) -> (r: Self)
        ensures
            r.as_parameters() == (Parameters { twilight, ..self.as_parameters() }),
    {
        ParametersBuilder { twilight, ..self }
    }

    /// Sets a fixed Isha interval after sunset, which zeroes the Isha
    /// angle: the two are mutually exclusive.
    pub fn isha_interval(self, isha_interval: i32) -> (r: Self)
        ensures
            r.as_parameters() == (Parameters {
                isha_interval,
                isha_angle: Angle { millidegrees: 0 },
                ..self.as_parameters()
            }),
    {
        ParametersBuilder { isha_interval, isha_angle: Angle { millidegrees: 0 }, ..self }
    }

    /// The finished parameter set.
    pub fn build(&self) -> (r: Parameters)
        ensures
            r == self.as_parameters(),
    {
        Parameters {
            fajr_angle: self.fajr_angle,
            isha_angle: self.isha_angle,
            method: self.method,
            isha_interval: self.isha_interval,
            madhab: self.madhab,
            twilight: self.twilight,
            high_latitude_rule: self.high_latitude_rule,
            polar_circle_resolution: self.polar_circle_resolution,
            adjustments: self.adjustments,
            method_adjustments: self.method_adjustments,
        }
    }
}

} // verus!
