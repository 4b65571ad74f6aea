//! One computed prayer instant, with how it was resolved.

use vstd::prelude::*;

verus! {

/// How a prayer instant was arrived at.
#[derive(Clone, Copy, Debug, PartialEq, Eq, Structural)]
pub enum PrayerTimeResolution {
    /// No correction was applied.
    Normal,
    /// The time was moved by the high-latitude safety rule.
    HighLatitudeRule,
    /// The day's geometry gave no solution for this time.
    Invalid,
    /// Reserved for a polar-circle substitution; not produced today.
    PolarCircle,
}

impl Default for PrayerTimeResolution {
    fn default() -> (r: Self)
        ensures
            r == PrayerTimeResolution::Normal,
    {
        PrayerTimeResolution::Normal
    }
}

/// A computed prayer time: the instant in seconds since the Unix epoch
/// when it exists, the resolution code, and an advisory message, empty
/// unless a fallback fired.
#[derive(Clone, Debug, PartialEq, Eq)]
pub struct PrayerTime {
    pub instant: Option<i64>,
    pub code: PrayerTimeResolution,
    pub message: String,
}

impl PrayerTime {
    /// A prayer time with no correction: normal when the instant exists,
    /// invalid when it does not, with an empty message.
    pub fn new(instant: Option<i64>) -> (r: Self)
        ensures
            r.instant == instant,
            r.code == match instant {
                Some(_) => PrayerTimeResolution::Normal,
                None => PrayerTimeResolution::Invalid,
            },
            r.message@ == Seq::<char>::empty(),
    {
        PrayerTime {
            instant,
            code: match instant {
                Some(_) => PrayerTimeResolution::Normal,
                None => PrayerTimeResolution::Invalid,
            },
            message: String::new(),
        }
    }
}

/// Builder for a `PrayerTime`.
#[derive(Clone, Debug)]
pub struct PrayerTimeBuilder {
    pub instant: Option<i64>,
    pub code: PrayerTimeResolution,
    pub message: String,
}

impl PrayerTimeBuilder {
    /// A builder primed as `PrayerTime::new` would resolve the instant.
    pub fn new(instant: Option<i64>) -> (r: Self)
        ensures
            r.instant == instant,
            r.code == match instant {
                Some(_) => PrayerTimeResolution::Normal,
                None => PrayerTimeResolution::Invalid,
            },
            r.message@ == Seq::<char>::empty(),
    {
        PrayerTimeBuilder {
            instant,
            code: match instant {
                Some(_) => PrayerTimeResolution::Normal,
                None => PrayerTimeResolution::Invalid,
            },
            message: String::new(),
        }
    }

    /// Sets the resolution code.
    pub fn code(self, code: PrayerTimeResolution) -> (r: Self)
        ensures
            r.instant == self.instant,
            r.code == code,
            r.message == self.message,
    {
        PrayerTimeBuilder { code, ..self }
    }

    /// Sets the advisory message.
    pub fn message(self, message: String) -> (r: Self)
        ensures
            r.instant == self.instant,
            r.code == self.code,
            r.message == message,
    {
        PrayerTimeBuilder { message, ..self }
    }

    /// The finished prayer time.
    pub fn build(self) -> (r: PrayerTime)
        ensures
            r.instant == self.instant,
            r.code == self.code,
            r.message == self.message,
    {
        PrayerTime { instant: self.instant, code: self.code, message: self.message }
    }
}

} // verus!
