//! Per-prayer time adjustments, in minutes.

use vstd::prelude::*;

verus! {

/// A minute adjustment for each prayer time, positive or negative.
#[derive(Clone, Copy, Debug, PartialEq, Eq, Structural)]
pub struct TimeAdjustment {
    pub fajr: i64,
    pub sunrise: i64,
    pub dhuhr: i64,
    pub asr: i64,
    pub maghrib: i64,
    pub isha: i64,
}

impl TimeAdjustment {
    /// An adjustment with the given minutes for each prayer.
    pub fn new(fajr: i64, sunrise: i64, dhuhr: i64, asr: i64, maghrib: i64, isha: i64) -> (r: Self)
        ensures
            r == (TimeAdjustment { fajr, sunrise, dhuhr, asr, maghrib, isha }),
    {
        TimeAdjustment { fajr, sunrise, dhuhr, asr, maghrib, isha }
    }

    /// Whether every field is small enough that summing two adjustments
    /// and scaling to seconds stays far inside `i64`.
    pub open spec fn bounded(self) -> bool {
        &&& -crate::instant::ADJUSTMENT_BOUND <= self.fajr <= crate::instant::ADJUSTMENT_BOUND
        &&& -crate::instant::ADJUSTMENT_BOUND <= self.sunrise <= crate::instant::ADJUSTMENT_BOUND
        &&& -crate::instant::ADJUSTMENT_BOUND <= self.dhuhr <= crate::instant::ADJUSTMENT_BOUND
        &&& -crate::instant::ADJUSTMENT_BOUND <= self.asr <= crate::instant::ADJUSTMENT_BOUND
        &&& -crate::instant::ADJUSTMENT_BOUND <= self.maghrib <= crate::instant::ADJUSTMENT_BOUND
        &&& -crate::instant::ADJUSTMENT_BOUND <= self.isha <= crate::instant::ADJUSTMENT_BOUND
    }
}

impl Default for TimeAdjustment {
    /// No adjustment for any prayer.
    fn default() -> (r: Self)
        ensures
            r == (TimeAdjustment { fajr: 0, sunrise: 0, dhuhr: 0, asr: 0, maghrib: 0, isha: 0 }),
    {
        TimeAdjustment { fajr: 0, sunrise: 0, dhuhr: 0, asr: 0, maghrib: 0, isha: 0 }
    }
}

/// Builder for a `TimeAdjustment`; every field starts at zero.
#[derive(Clone, Copy, Debug)]
pub struct TimeAdjustmentBuilder {
    fajr: i64,
    sunrise: i64,
    dhuhr: i64,
    asr: i64,
    maghrib: i64,
    isha: i64,
}

impl TimeAdjustmentBuilder {
    /// A builder with every adjustment at zero minutes.
    pub fn new() -> (r: Self)
        ensures
            r.as_adjustment() == (TimeAdjustment {
                fajr: 0,
                sunrise: 0,
                dhuhr: 0,
                asr: 0,
                maghrib: 0,
                isha: 0,
            }),
    {
        TimeAdjustmentBuilder { fajr: 0, sunrise: 0, dhuhr: 0, asr: 0, maghrib: 0, isha: 0 }
    }

    /// The adjustment the builder currently holds.
    pub closed spec fn as_adjustment(self) -> TimeAdjustment {
        TimeAdjustment {
            fajr: self.fajr,
            sunrise: self.sunrise,
            dhuhr: self.dhuhr,
            asr: self.asr,
            maghrib: self.maghrib,
            isha: self.isha,
        }
    }

    /// Sets the Fajr adjustment.
    pub fn fajr(self, fajr: i64) -> (r: Self)
        ensures
            r.as_adjustment() == (TimeAdjustment { fajr, ..self.as_adjustment() }),
    {
        TimeAdjustmentBuilder { fajr, ..self }
    }

    /// Sets the sunrise adjustment.
    pub fn sunrise(self, sunrise: i64) -> (r: Self)
        ensures
            r.as_adjustment() == (TimeAdjustment { sunrise, ..self.as_adjustment() }),
    {
        TimeAdjustmentBuilder { sunrise, ..self }
    }

    /// Sets the Dhuhr adjustment.
    pub fn dhuhr(self, dhuhr: i64) -> (r: Self)
        ensures
            r.as_adjustment() == (TimeAdjustment { dhuhr, ..self.as_adjustment() }),
    {
        TimeAdjustmentBuilder { dhuhr, ..self }
    }

    /// Sets the Asr adjustment.
    pub fn asr(self, asr: i64) -> (r: Self)
        ensures
            r.as_adjustment() == (TimeAdjustment { asr, ..self.as_adjustment() }),
    {
        TimeAdjustmentBuilder { asr, ..self }
    }

    /// Sets the Maghrib adjustment.
    pub fn maghrib(self, maghrib: i64) -> (r: Self)
        ensures
            r.as_adjustment() == (TimeAdjustment { maghrib, ..self.as_adjustment() }),
    {
        TimeAdjustmentBuilder { maghrib, ..self }
    }

    /// Sets the Isha adjustment.
    pub fn isha(self, isha: i64) -> (r: Self)
        ensures
            r.as_adjustment() == (TimeAdjustment { isha, ..self.as_adjustment() }),
    {
        TimeAdjustmentBuilder { isha, ..self }
    }

    /// The finished adjustment.
    pub fn build(&self) -> (r: TimeAdjustment)
        ensures
            r == self.as_adjustment(),
    {
        TimeAdjustment {
            fajr: self.fajr,
            sunrise: self.sunrise,
            dhuhr: self.dhuhr,
            asr: self.asr,
            maghrib: self.maghrib,
            isha: self.isha,
        }
    }
}

} // verus!
