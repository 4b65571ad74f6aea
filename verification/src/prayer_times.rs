//! The orchestration engine: from one day's raw sun events to the full
//! prayer schedule, and the queries on it.
//!
//! The raw events — sunrise, transit, sunset, the twilight-angle crossings
//! for Fajr and Isha, and the afternoon shadow instant — come from an
//! astronomy provider outside the crate (they are trigonometric work); an
//! absent event marks a day and place where the sun never crosses the
//! angle. Everything from there on is decided here: the Moonsighting
//! Committee overrides, the night-portion safety bounds and the
//! high-latitude clamp, the minute adjustments, the night points, and the
//! current/next queries.

use vstd::prelude::*;
use crate::calendar::{is_leap_year, tomorrow_spec, Date, YEAR_MAX};
use crate::constants::{
    high_latitude_message, high_latitude_message_spec, is_high_latitude, HIGH_LATITUDE_THRESHOLD,
    MOONSIGHTING_COMMITTEE_HIGH_LATITUDE,
};
use crate::coordinates::Coordinates;
use crate::instant::{adjust_time, nearest_minute, nearest_minute_spec, INSTANT_BOUND};
use crate::method::Method;
use crate::moonsighting::{
    days_since_solstice_spec, evening_seconds_spec, morning_seconds_spec,
    season_adjusted_evening_twilight, season_adjusted_morning_twilight,
};
use crate::num::{div_trunc, trunc_div};
use crate::parameters::{night_portions_spec, time_adjustments_spec, NightPortion, Parameters};
use crate::prayer::Prayer;
use crate::prayer_time::{PrayerTime, PrayerTimeBuilder, PrayerTimeResolution};

verus! {

/// The raw sun events of one date at one location, in seconds since the
/// Unix epoch; an absent event has no solution on that day.
#[derive(Clone, Copy, Debug, PartialEq, Eq)]
pub struct SolarDay {
    /// The sun's upper limb at the horizon, rising.
    pub sunrise: Option<i64>,
    /// Solar noon.
    pub transit: Option<i64>,
    /// The sun's upper limb at the horizon, setting.
    pub sunset: Option<i64>,
    /// The sun at the configured Fajr depression angle, before transit.
    pub fajr_base: Option<i64>,
    /// The sun at the configured Isha depression angle, after transit.
    pub isha_base: Option<i64>,
    /// The afternoon instant for the configured shadow ratio.
    pub asr: Option<i64>,
}

/// Whether an optional instant lies within the supported range.
pub open spec fn opt_in_bound(o: Option<i64>) -> bool {
    match o {
        Some(t) => -INSTANT_BOUND <= t <= INSTANT_BOUND,
        None => true,
    }
}

impl SolarDay {
    /// Every present instant lies within the supported range.
    pub open spec fn bounded(self) -> bool {
        &&& opt_in_bound(self.sunrise)
        &&& opt_in_bound(self.transit)
        &&& opt_in_bound(self.sunset)
        &&& opt_in_bound(self.fajr_base)
        &&& opt_in_bound(self.isha_base)
        &&& opt_in_bound(self.asr)
    }
}

/// The optional instant as a mathematical integer.
pub open spec fn opt_int(o: Option<i64>) -> Option<int> {
    match o {
        Some(t) => Some(t as int),
        None => None,
    }
}

/// Whether a computed optional instant equals its specification.
pub open spec fn opt_matches(a: Option<i64>, b: Option<int>) -> bool {
    match (a, b) {
        (Some(x), Some(y)) => x == y,
        (None, None) => true,
        _ => false,
    }
}

/// The instant shifted by a minute adjustment, when present.
pub open spec fn shifted_spec(o: Option<i64>, minutes: int) -> Option<int> {
    match o {
        Some(t) => Some(t + minutes * 60),
        None => None,
    }
}

/// Normal for a present instant, invalid for an absent one.
pub open spec fn plain_code(o: Option<i64>) -> PrayerTimeResolution {
    match o {
        Some(_) => PrayerTimeResolution::Normal,
        None => PrayerTimeResolution::Invalid,
    }
}

/// Tonight's length: next sunrise less this sunset.
pub open spec fn night_spec(today: SolarDay, tomorrow: SolarDay) -> Option<int> {
    match (tomorrow.sunrise, today.sunset) {
        (Some(sr), Some(ss)) => Some(sr - ss),
        _ => None,
    }
}

/// Tomorrow night's length: the following sunrise less tomorrow's
/// sunset.
pub open spec fn night2_spec(tomorrow: SolarDay, sunrise_day_after: Option<i64>) -> Option<int> {
    match (sunrise_day_after, tomorrow.sunset) {
        (Some(sr), Some(ss)) => Some(sr - ss),
        _ => None,
    }
}

/// A night portion applied to a night length, the spare fraction of a
/// second dropped toward zero.
pub open spec fn portion_scaled(portion: NightPortion, night: int) -> int {
    trunc_div(night * portion.numerator, portion.denominator as int)
}

/// The geometric Fajr instant the engine starts from: the twilight-angle
/// crossing, except that the Moonsighting Committee method at or above
/// fifty-five degrees uses a seventh of the night before sunrise.
pub open spec fn fajr_base_spec(
    p: Parameters,
    solar: SolarDay,
    night: Option<int>,
    latitude: int,
) -> Option<int> {
    if p.method == Method::MoonsightingCommittee && latitude
        >= MOONSIGHTING_COMMITTEE_HIGH_LATITUDE {
        match (solar.sunrise, night) {
            (Some(sr), Some(n)) => Some(sr - trunc_div(n, 7)),
            _ => None,
        }
    } else {
        opt_int(solar.fajr_base)
    }
}

/// The latest acceptable Fajr: the seasonal morning twilight for the
/// Moonsighting Committee method, the configured night portion before
/// sunrise otherwise.
pub open spec fn safe_fajr_spec(
    p: Parameters,
    solar: SolarDay,
    night: Option<int>,
    latitude: int,
    day_of_year: int,
    leap: bool,
) -> Option<int> {
    if p.method == Method::MoonsightingCommittee {
        match solar.sunrise {
            Some(sr) => Some(
                sr - morning_seconds_spec(
                    latitude,
                    days_since_solstice_spec(day_of_year, leap, latitude < 0),
                ),
            ),
            None => None,
        }
    } else {
        match (solar.sunrise, night) {
            (Some(sr), Some(n)) => Some(sr - portion_scaled(night_portions_spec(p).0, n)),
            _ => None,
        }
    }
}

/// The resolved Fajr instant and code: the base, raised to the safety
/// bound when the location is at high latitude and the base falls
/// before it, then shifted by the Fajr adjustment. Absence of any needed
/// sun event makes the time invalid.
pub open spec fn fajr_time_spec(
    p: Parameters,
    solar: SolarDay,
    night: Option<int>,
    latitude: int,
    day_of_year: int,
    leap: bool,
) -> (Option<int>, PrayerTimeResolution) {
    let base = fajr_base_spec(p, solar, night, latitude);
    let safe = safe_fajr_spec(p, solar, night, latitude, day_of_year, leap);
    match (base, safe) {
        (Some(b), Some(s)) => {
            let adj = time_adjustments_spec(p, Prayer::Fajr);
            if latitude >= HIGH_LATITUDE_THRESHOLD && b < s {
                (Some(s + adj * 60), PrayerTimeResolution::HighLatitudeRule)
            } else {
                (Some(b + adj * 60), PrayerTimeResolution::Normal)
            }
        },
        _ => (None, PrayerTimeResolution::Invalid),
    }
}

/// The geometric Isha instant the engine starts from, mirroring
/// `fajr_base_spec` after sunset.
pub open spec fn isha_base_spec(
    p: Parameters,
    solar: SolarDay,
    night: Option<int>,
    latitude: int,
) -> Option<int> {
    if p.method == Method::MoonsightingCommittee && latitude
        >= MOONSIGHTING_COMMITTEE_HIGH_LATITUDE {
        match (solar.sunset, night) {
            (Some(ss), Some(n)) => Some(ss + trunc_div(n, 7)),
            _ => None,
        }
    } else {
        opt_int(solar.isha_base)
    }
}

/// The earliest acceptable end of Isha's window, mirroring
/// `safe_fajr_spec` after sunset.
pub open spec fn safe_isha_spec(
    p: Parameters,
    solar: SolarDay,
    night: Option<int>,
    latitude: int,
    day_of_year: int,
    leap: bool,
) -> Option<int> {
    if p.method == Method::MoonsightingCommittee {
        match solar.sunset {
            Some(ss) => Some(
                ss + evening_seconds_spec(
                    latitude,
                    days_since_solstice_spec(day_of_year, leap, latitude < 0),
                ),
            ),
            None => None,
        }
    } else {
        match (solar.sunset, night) {
            (Some(ss), Some(n)) => Some(ss + portion_scaled(night_portions_spec(p).1, n)),
            _ => None,
        }
    }
}

/// The resolved Isha instant and code: a fixed interval after sunset
/// when one is configured, otherwise the twilight base, lowered to the
/// safety ceiling at high latitude when it falls after it; in either
/// branch the Isha adjustment is applied last.
pub open spec fn isha_time_spec(
    p: Parameters,
    solar: SolarDay,
    night: Option<int>,
    latitude: int,
    day_of_year: int,
    leap: bool,
) -> (Option<int>, PrayerTimeResolution) {
    let adj = time_adjustments_spec(p, Prayer::Isha);
    if p.isha_interval > 0 {
        match solar.sunset {
            Some(ss) => (
                Some(ss + p.isha_interval * 60 + adj * 60),
                PrayerTimeResolution::Normal,
            ),
            None => (None, PrayerTimeResolution::Invalid),
        }
    } else {
        let base = isha_base_spec(p, solar, night, latitude);
        let safe = safe_isha_spec(p, solar, night, latitude, day_of_year, leap);
        match (base, safe) {
            (Some(b), Some(s)) => {
                if latitude >= HIGH_LATITUDE_THRESHOLD && b > s {
                    (Some(s + adj * 60), PrayerTimeResolution::HighLatitudeRule)
                } else {
                    (Some(b + adj * 60), PrayerTimeResolution::Normal)
                }
            },
            _ => (None, PrayerTimeResolution::Invalid),
        }
    }
}

/// The night's two division points, each rounded to the nearest minute:
/// half way from Maghrib to the next Fajr, and two thirds of the way
/// (the start of the night's last third).
pub open spec fn night_points_spec(maghrib: Option<int>, tomorrow_fajr: Option<int>) -> (
    Option<int>,
    Option<int>,
) {
    match (maghrib, tomorrow_fajr) {
        (Some(m), Some(tf)) => {
            let n = tf - m;
            (
                Some(nearest_minute_spec(m + trunc_div(n, 2))),
                Some(nearest_minute_spec(m + trunc_div(2 * n, 3))),
            )
        },
        _ => (None, None),
    }
}

/// A prayer time's message is the high-latitude advisory exactly when
/// its code says the rule fired, and empty otherwise.
pub open spec fn message_matches(pt: PrayerTime) -> bool {
    pt.message@ == if pt.code == PrayerTimeResolution::HighLatitudeRule {
        high_latitude_message_spec()
    } else {
        Seq::<char>::empty()
    }
}

/// The schedule's Fajr for the given day, as instant and code.
pub open spec fn sched_fajr(
    p: Parameters,
    solar: SolarDay,
    night: Option<int>,
    latitude: int,
    date: Date,
) -> (Option<int>, PrayerTimeResolution) {
    fajr_time_spec(p, solar, night, latitude, date.day_of_year_spec(), is_leap_year(
        date.year as int,
    ))
}

/// The schedule's Isha for the given day, as instant and code.
pub open spec fn sched_isha(
    p: Parameters,
    solar: SolarDay,
    night: Option<int>,
    latitude: int,
    date: Date,
) -> (Option<int>, PrayerTimeResolution) {
    isha_time_spec(p, solar, night, latitude, date.day_of_year_spec(), is_leap_year(
        date.year as int,
    ))
}

/// The schedule's entry for a named prayer; `Sunrise` names the adjusted
/// sunrise, the raw one is kept separately.
pub open spec fn sched_entry(s: PrayerTimes, prayer: Prayer) -> PrayerTime {
    match prayer {
        Prayer::Fajr => s.fajr,
        Prayer::Sunrise => s.sunrise,
        Prayer::Dhuhr => s.dhuhr,
        Prayer::Asr => s.asr,
        Prayer::Maghrib => s.maghrib,
        Prayer::Isha => s.isha,
        Prayer::MiddleOfTheNight => s.middle_of_the_night,
        Prayer::Qiyam => s.qiyam,
        Prayer::FajrTomorrow => s.fajr_tomorrow,
    }
}

/// The prayer whose interval `time` falls in: the first prayer, scanning
/// from the end of the day backward, whose instant has passed. The scan
/// stops with no answer as soon as a needed instant is absent, or when
/// `time` precedes the day's Fajr.
pub open spec fn current_spec(s: PrayerTimes, time: int) -> Option<Prayer> {
    match s.fajr_tomorrow.instant {
        None => None,
        Some(t_ft) => if t_ft <= time {
            Some(Prayer::FajrTomorrow)
        } else {
            match s.qiyam.instant {
                None => None,
                Some(t_q) => if t_q <= time {
                    Some(Prayer::Qiyam)
                } else {
                    match s.middle_of_the_night.instant {
                        None => None,
                        Some(t_m) => if t_m <= time {
                            Some(Prayer::MiddleOfTheNight)
                        } else {
                            match s.isha.instant {
                                None => None,
                                Some(t_i) => if t_i <= time {
                                    Some(Prayer::Isha)
                                } else {
                                    match s.maghrib.instant {
                                        None => None,
                                        Some(t_mg) => if t_mg <= time {
                                            Some(Prayer::Maghrib)
                                        } else {
                                            match s.asr.instant {
                                                None => None,
                                                Some(t_a) => if t_a <= time {
                                                    Some(Prayer::Asr)
                                                } else {
                                                    match s.dhuhr.instant {
                                                        None => None,
                                                        Some(t_d) => if t_d <= time {
                                                            Some(Prayer::Dhuhr)
                                                        } else {
                                                            match s.sunrise.instant {
                                                                None => None,
                                                                Some(t_sr) => if t_sr <= time {
                                                                    Some(Prayer::Sunrise)
                                                                } else {
                                                                    match s.fajr.instant {
                                                                        None => None,
                                                                        Some(t_f) => if t_f
                                                                            <= time {
                                                                            Some(Prayer::Fajr)
                                                                        } else {
                                                                            None
                                                                        },
                                                                    }
                                                                },
                                                            }
                                                        },
                                                    }
                                                },
                                            }
                                        },
                                    }
                                },
                            }
                        },
                    }
                },
            }
        },
    }
}

/// The prayer that follows, in the day's fixed forward order; the night's
/// last entry wraps to the next day's schedule.
pub open spec fn successor_spec(p: Prayer) -> Prayer {
    match p {
        Prayer::Fajr => Prayer::Sunrise,
        Prayer::Sunrise => Prayer::Dhuhr,
        Prayer::Dhuhr => Prayer::Asr,
        Prayer::Asr => Prayer::Maghrib,
        Prayer::Maghrib => Prayer::Isha,
        Prayer::Isha => Prayer::MiddleOfTheNight,
        Prayer::MiddleOfTheNight => Prayer::Qiyam,
        Prayer::Qiyam => Prayer::FajrTomorrow,
        Prayer::FajrTomorrow => Prayer::FajrTomorrow,
    }
}

/// The prayer after the current one, when there is a current one.
pub open spec fn next_spec(s: PrayerTimes, time: int) -> Option<Prayer> {
    match current_spec(s, time) {
        Some(p) => Some(successor_spec(p)),
        None => None,
    }
}

/// A nonnegative duration split into whole hours and rounded minutes;
/// a negative one reports zero. Hours saturate at the widest `u32`.
pub open spec fn remaining_spec(secs: int) -> (u32, u32) {
    if secs < 0 {
        (0u32, 0u32)
    } else {
        let hours = secs / 3600;
        let minutes = (secs % 3600 + 30) / 60;
        (
            if hours > 0xffff_ffff {
                0xffff_ffffu32
            } else {
                hours as u32
            },
            minutes as u32,
        )
    }
}

/// Hours and rounded minutes until the next prayer, when a current
/// prayer and the next one's instant both exist.
pub open spec fn time_remaining_spec(s: PrayerTimes, time: int) -> Option<(u32, u32)> {
    match next_spec(s, time) {
        Some(p) => match sched_entry(s, p).instant {
            Some(t) => Some(remaining_spec(t - time)),
            None => None,
        },
        None => None,
    }
}

/// The high-latitude clamp fires only at or above forty-eight degrees of
/// latitude, and only when the geometric time violates the safety bound;
/// below the threshold the geometric time is used unmodified, however it
/// compares with the bound. The Moonsighting Committee night-seventh
/// override likewise replaces the geometric base only at or above
/// fifty-five degrees.
pub proof fn lemma_high_latitude_clamp(
    p: Parameters,
    solar: SolarDay,
    night: Option<int>,
    latitude: int,
    day_of_year: int,
    leap: bool,
)
    ensures
        fajr_time_spec(p, solar, night, latitude, day_of_year, leap).1
            == PrayerTimeResolution::HighLatitudeRule ==> latitude >= HIGH_LATITUDE_THRESHOLD,
        isha_time_spec(p, solar, night, latitude, day_of_year, leap).1
            == PrayerTimeResolution::HighLatitudeRule ==> latitude >= HIGH_LATITUDE_THRESHOLD,
        !(p.method == Method::MoonsightingCommittee && latitude
            >= MOONSIGHTING_COMMITTEE_HIGH_LATITUDE) ==> fajr_base_spec(p, solar, night, latitude)
            == opt_int(solar.fajr_base),
        !(p.method == Method::MoonsightingCommittee && latitude
            >= MOONSIGHTING_COMMITTEE_HIGH_LATITUDE) ==> isha_base_spec(p, solar, night, latitude)
            == opt_int(solar.isha_base),
        fajr_base_spec(p, solar, night, latitude) is Some && safe_fajr_spec(
            p,
            solar,
            night,
            latitude,
            day_of_year,
            leap,
        ) is Some ==> fajr_time_spec(p, solar, night, latitude, day_of_year, leap) == ({
            let b = fajr_base_spec(p, solar, night, latitude)->0;
            let s = safe_fajr_spec(p, solar, night, latitude, day_of_year, leap)->0;
            if latitude >= HIGH_LATITUDE_THRESHOLD && b < s {
                (
                    Some(s + time_adjustments_spec(p, Prayer::Fajr) * 60),
                    PrayerTimeResolution::HighLatitudeRule,
                )
            } else {
                (
                    Some(b + time_adjustments_spec(p, Prayer::Fajr) * 60),
                    PrayerTimeResolution::Normal,
                )
            }
        }),
        p.isha_interval <= 0 && isha_base_spec(p, solar, night, latitude) is Some && safe_isha_spec(
            p,
            solar,
            night,
            latitude,
            day_of_year,
            leap,
        ) is Some ==> isha_time_spec(p, solar, night, latitude, day_of_year, leap) == ({
            let b = isha_base_spec(p, solar, night, latitude)->0;
            let s = safe_isha_spec(p, solar, night, latitude, day_of_year, leap)->0;
            if latitude >= HIGH_LATITUDE_THRESHOLD && b > s {
                (
                    Some(s + time_adjustments_spec(p, Prayer::Isha) * 60),
                    PrayerTimeResolution::HighLatitudeRule,
                )
            } else {
                (
                    Some(b + time_adjustments_spec(p, Prayer::Isha) * 60),
                    PrayerTimeResolution::Normal,
                )
            }
        }),
{
}

/// Given a Maghrib instant and the next day's Fajr instant, the night
/// points are exactly the night's half and its last third, measured from
/// Maghrib, each rounded to the nearest minute.
pub proof fn lemma_night_division(maghrib: int, tomorrow_fajr: int)
    ensures
        night_points_spec(Some(maghrib), Some(tomorrow_fajr)) == (
            Some(nearest_minute_spec(maghrib + trunc_div(tomorrow_fajr - maghrib, 2))),
            Some(nearest_minute_spec(maghrib + trunc_div(2 * (tomorrow_fajr - maghrib), 3))),
        ),
{
}

/// For a mid-latitude day — below the high-latitude threshold, with every
/// sun event present and the adjusted events in their natural order, and
/// a night of at least an hour — the schedule's times exist and are
/// strictly ordered: Fajr, sunrise, Dhuhr, Asr, Maghrib, Isha, the middle
/// of the night, its last third, and the next day's Fajr.
pub proof fn lemma_schedule_ordering(
    p: Parameters,
    today: SolarDay,
    tomorrow: SolarDay,
    sunrise_day_after: Option<i64>,
    latitude: int,
    date: Date,
)
    requires
        p.wf(),
        latitude < HIGH_LATITUDE_THRESHOLD,
        today.sunrise is Some,
        today.transit is Some,
        today.sunset is Some,
        today.fajr_base is Some,
        today.asr is Some,
        p.isha_interval <= 0 ==> today.isha_base is Some,
        tomorrow.sunrise is Some,
        tomorrow.sunset is Some,
        tomorrow.fajr_base is Some,
        sunrise_day_after is Some,
        ({
            let adj_f = time_adjustments_spec(p, Prayer::Fajr) * 60;
            let adj_sr = time_adjustments_spec(p, Prayer::Sunrise) * 60;
            let adj_d = time_adjustments_spec(p, Prayer::Dhuhr) * 60;
            let adj_a = time_adjustments_spec(p, Prayer::Asr) * 60;
            let adj_m = time_adjustments_spec(p, Prayer::Maghrib) * 60;
            let adj_i = time_adjustments_spec(p, Prayer::Isha) * 60;
            let maghrib = today.sunset->0 + adj_m;
            let isha = if p.isha_interval > 0 {
                today.sunset->0 + p.isha_interval * 60 + adj_i
            } else {
                today.isha_base->0 + adj_i
            };
            let tomorrow_fajr = tomorrow.fajr_base->0 + adj_f;
            let night = tomorrow_fajr - maghrib;
            &&& today.fajr_base->0 + adj_f < today.sunrise->0 + adj_sr
            &&& today.sunrise->0 + adj_sr < today.transit->0 + adj_d
            &&& today.transit->0 + adj_d < today.asr->0 + adj_a
            &&& today.asr->0 + adj_a < maghrib
            &&& maghrib < isha
            &&& isha + 31 <= maghrib + trunc_div(night, 2)
            &&& night >= 3600
        }),
    ensures
        ({
            let adj_f = time_adjustments_spec(p, Prayer::Fajr) * 60;
            let adj_i = time_adjustments_spec(p, Prayer::Isha) * 60;
            let night1 = night_spec(today, tomorrow);
            let night2 = night2_spec(tomorrow, sunrise_day_after);
            let fajr = sched_fajr(p, today, night1, latitude, date);
            let isha = sched_isha(p, today, night1, latitude, date);
            let tomorrow_fajr = sched_fajr(p, tomorrow, night2, latitude, tomorrow_spec(date));
            let maghrib = today.sunset->0 + time_adjustments_spec(p, Prayer::Maghrib) * 60;
            let points = night_points_spec(Some(maghrib), tomorrow_fajr.0);
            &&& fajr == (
                Some(today.fajr_base->0 + adj_f),
                PrayerTimeResolution::Normal,
            )
            &&& isha.0 == Some(
                if p.isha_interval > 0 {
                    today.sunset->0 + p.isha_interval * 60 + adj_i
                } else {
                    today.isha_base->0 + adj_i
                },
            )
            &&& isha.1 == PrayerTimeResolution::Normal
            &&& tomorrow_fajr == (
                Some(tomorrow.fajr_base->0 + adj_f),
                PrayerTimeResolution::Normal,
            )
            &&& points.0 is Some
            &&& points.1 is Some
            &&& fajr.0->0 < today.sunrise->0 + time_adjustments_spec(p, Prayer::Sunrise) * 60
            &&& today.sunrise->0 + time_adjustments_spec(p, Prayer::Sunrise) * 60 < today.transit->0
                + time_adjustments_spec(p, Prayer::Dhuhr) * 60
            &&& today.transit->0 + time_adjustments_spec(p, Prayer::Dhuhr) * 60 < today.asr->0
                + time_adjustments_spec(p, Prayer::Asr) * 60
            &&& today.asr->0 + time_adjustments_spec(p, Prayer::Asr) * 60 < maghrib
            &&& maghrib < isha.0->0
            &&& isha.0->0 < points.0->0
            &&& points.0->0 < points.1->0
            &&& points.1->0 < tomorrow_fajr.0->0
        }),
{
    lemma_high_latitude_clamp(
        p,
        today,
        night_spec(today, tomorrow),
        latitude,
        date.day_of_year_spec(),
        is_leap_year(date.year as int),
    );
    lemma_high_latitude_clamp(
        p,
        tomorrow,
        night2_spec(tomorrow, sunrise_day_after),
        latitude,
        tomorrow_spec(date).day_of_year_spec(),
        is_leap_year(tomorrow_spec(date).year as int),
    );
    let maghrib = today.sunset->0 + time_adjustments_spec(p, Prayer::Maghrib) * 60;
    let tf = tomorrow.fajr_base->0 + time_adjustments_spec(p, Prayer::Fajr) * 60;
    let n = tf - maghrib;
    let half = trunc_div(n, 2);
    let two_thirds = trunc_div(2 * n, 3);
    vstd::arithmetic::div_mod::lemma_fundamental_div_mod(n, 2);
    vstd::arithmetic::div_mod::lemma_mod_bound(n, 2);
    vstd::arithmetic::div_mod::lemma_fundamental_div_mod(2 * n, 3);
    vstd::arithmetic::div_mod::lemma_mod_bound(2 * n, 3);
    assert(half == n / 2 && two_thirds == (2 * n) / 3);
    crate::instant::lemma_nearest_minute_range(maghrib + half);
    crate::instant::lemma_nearest_minute_range(maghrib + two_thirds);
}
#[derive(Clone, Debug, PartialEq, Eq)]
pub struct PrayerTimes {
    pub fajr: PrayerTime,
    pub sunrise: PrayerTime,
    pub solar_sunrise: PrayerTime,
    pub dhuhr: PrayerTime,
    pub asr: PrayerTime,
    pub maghrib: PrayerTime,
    pub solar_sunset: PrayerTime,
    pub isha: PrayerTime,
    pub middle_of_the_night: PrayerTime,
    pub qiyam: PrayerTime,
    pub fajr_tomorrow: PrayerTime,
    pub coordinates: Coordinates,
    pub date: Date,
    pub parameters: Parameters,
}

/// Fajr and Isha instants stay within this magnitude (the safety bound
/// can push a time at most two nights away from its sun event).
pub open spec fn computed_in_bound(o: Option<i64>) -> bool {
    match o {
        Some(t) => -30_000_000_000_000 <= t <= 30_000_000_000_000,
        None => true,
    }
}

impl PrayerTimes {
    /// Computes the schedule of `date` at `coordinates` under
    /// `parameters`, from the raw sun events of the date, of the next
    /// day, and the sunrise of the day after that.
    pub fn new(
        date: Date,
        coordinates: Coordinates,
        parameters: &Parameters,
        today: &SolarDay,
        tomorrow: &SolarDay,
        sunrise_day_after: Option<i64>,
    ) -> (r: PrayerTimes)
        requires
            date.valid(),
            date.year < YEAR_MAX,
            coordinates.valid(),
            parameters.wf(),
            today.bounded(),
            tomorrow.bounded(),
            opt_in_bound(sunrise_day_after),
        ensures
            r.date == date,
            r.coordinates == coordinates,
            r.parameters == *parameters,
            opt_matches(
                r.fajr.instant,
                sched_fajr(
                    *parameters,
                    *today,
                    night_spec(*today, *tomorrow),
                    coordinates.latitude as int,
                    date,
                ).0,
            ),
            r.fajr.code == sched_fajr(
                *parameters,
                *today,
                night_spec(*today, *tomorrow),
                coordinates.latitude as int,
                date,
            ).1,
            message_matches(r.fajr),
            opt_matches(
                r.sunrise.instant,
                shifted_spec(today.sunrise, time_adjustments_spec(*parameters, Prayer::Sunrise)),
            ),
            r.sunrise.code == plain_code(today.sunrise),
            message_matches(r.sunrise),
            opt_matches(r.solar_sunrise.instant, opt_int(today.sunrise)),
            r.solar_sunrise.code == plain_code(today.sunrise),
            message_matches(r.solar_sunrise),
            opt_matches(
                r.dhuhr.instant,
                shifted_spec(today.transit, time_adjustments_spec(*parameters, Prayer::Dhuhr)),
            ),
            r.dhuhr.code == plain_code(today.transit),
            message_matches(r.dhuhr),
            opt_matches(
                r.asr.instant,
                shifted_spec(today.asr, time_adjustments_spec(*parameters, Prayer::Asr)),
            ),
            r.asr.code == plain_code(today.asr),
            message_matches(r.asr),
            opt_matches(
                r.maghrib.instant,
                shifted_spec(today.sunset, time_adjustments_spec(*parameters, Prayer::Maghrib)),
            ),
            r.maghrib.code == plain_code(today.sunset),
            message_matches(r.maghrib),
            opt_matches(r.solar_sunset.instant, opt_int(today.sunset)),
            r.solar_sunset.code == plain_code(today.sunset),
            message_matches(r.solar_sunset),
            opt_matches(
                r.isha.instant,
                sched_isha(
                    *parameters,
                    *today,
                    night_spec(*today, *tomorrow),
                    coordinates.latitude as int,
                    date,
                ).0,
            ),
            r.isha.code == sched_isha(
                *parameters,
                *today,
                night_spec(*today, *tomorrow),
                coordinates.latitude as int,
                date,
            ).1,
            message_matches(r.isha),
            opt_matches(
                r.fajr_tomorrow.instant,
                sched_fajr(
                    *parameters,
                    *tomorrow,
                    night2_spec(*tomorrow, sunrise_day_after),
                    coordinates.latitude as int,
                    tomorrow_spec(date),
                ).0,
            ),
            r.fajr_tomorrow.code == sched_fajr(
                *parameters,
                *tomorrow,
                night2_spec(*tomorrow, sunrise_day_after),
                coordinates.latitude as int,
                tomorrow_spec(date),
            ).1,
            message_matches(r.fajr_tomorrow),
            opt_matches(
                r.middle_of_the_night.instant,
                night_points_spec(
                    shifted_spec(
                        today.sunset,
                        time_adjustments_spec(*parameters, Prayer::Maghrib),
                    ),
                    sched_fajr(
                        *parameters,
                        *tomorrow,
                        night2_spec(*tomorrow, sunrise_day_after),
                        coordinates.latitude as int,
                        tomorrow_spec(date),
                    ).0,
                ).0,
            ),
            r.middle_of_the_night.code == plain_code(r.middle_of_the_night.instant),
            message_matches(r.middle_of_the_night),
            opt_matches(
                r.qiyam.instant,
                night_points_spec(
                    shifted_spec(
                        today.sunset,
                        time_adjustments_spec(*parameters, Prayer::Maghrib),
                    ),
                    sched_fajr(
                        *parameters,
                        *tomorrow,
                        night2_spec(*tomorrow, sunrise_day_after),
                        coordinates.latitude as int,
                        tomorrow_spec(date),
                    ).0,
                ).1,
            ),
            r.qiyam.code == plain_code(r.qiyam.instant),
            message_matches(r.qiyam),
    {
        let tomorrow_date = date.tomorrow();
        let night: Option<i64> = match (tomorrow.sunrise, today.sunset) {
            (Some(sr), Some(ss)) => Some(sr - ss),
            _ => None,
        };

        let final_fajr = PrayerTimes::calculate_fajr_time(
            parameters,
            today,
            night,
            coordinates,
            date,
        );
        let final_sunrise: Option<i64> = match today.sunrise {
            Some(t) => Some(adjust_time(t, parameters.time_adjustments(Prayer::Sunrise))),
            None => None,
        };
        let final_dhuhr: Option<i64> = match today.transit {
            Some(t) => Some(adjust_time(t, parameters.time_adjustments(Prayer::Dhuhr))),
            None => None,
        };
        let final_asr: Option<i64> = match today.asr {
            Some(t) => Some(adjust_time(t, parameters.time_adjustments(Prayer::Asr))),
            None => None,
        };
        let final_maghrib: Option<i64> = match today.sunset {
            Some(t) => Some(adjust_time(t, parameters.time_adjustments(Prayer::Maghrib))),
            None => None,
        };
        let final_isha = PrayerTimes::calculate_isha_time(
            parameters,
            today,
            night,
            coordinates,
            date,
        );

        let (final_middle_of_night, final_qiyam, final_fajr_tomorrow) =
            PrayerTimes::calculate_qiyam_time(
            final_maghrib,
            parameters,
            tomorrow,
            coordinates,
            tomorrow_date,
            sunrise_day_after,
        );

        PrayerTimes {
            fajr: final_fajr,
            sunrise: PrayerTime::new(final_sunrise),
            solar_sunrise: PrayerTime::new(today.sunrise),
            dhuhr: PrayerTime::new(final_dhuhr),
            asr: PrayerTime::new(final_asr),
            maghrib: PrayerTime::new(final_maghrib),
            solar_sunset: PrayerTime::new(today.sunset),
            isha: final_isha,
            middle_of_the_night: final_middle_of_night,
            qiyam: final_qiyam,
            fajr_tomorrow: final_fajr_tomorrow,
            coordinates,
            date,
            parameters: *parameters,
        }
    }

    /// Every stored instant lies within the range the remaining-time
    /// arithmetic accepts.
    pub open spec fn instants_bounded(self) -> bool {
        &&& computed_in_bound(self.fajr.instant)
        &&& computed_in_bound(self.sunrise.instant)
        &&& computed_in_bound(self.dhuhr.instant)
        &&& computed_in_bound(self.asr.instant)
        &&& computed_in_bound(self.maghrib.instant)
        &&& computed_in_bound(self.isha.instant)
        &&& computed_in_bound(self.middle_of_the_night.instant)
        &&& computed_in_bound(self.qiyam.instant)
        &&& computed_in_bound(self.fajr_tomorrow.instant)
    }

    /// The full entry of the named prayer.
    pub fn prayer_time(&self, prayer: Prayer) -> (r: PrayerTime)
        ensures
            r == sched_entry(*self, prayer),
    {
        let pt: &PrayerTime = match prayer {
            Prayer::Fajr => &self.fajr,
            Prayer::Sunrise => &self.sunrise,
            Prayer::Dhuhr => &self.dhuhr,
            Prayer::Asr => &self.asr,
            Prayer::Maghrib => &self.maghrib,
            Prayer::Isha => &self.isha,
            Prayer::MiddleOfTheNight => &self.middle_of_the_night,
            Prayer::Qiyam => &self.qiyam,
            Prayer::FajrTomorrow => &self.fajr_tomorrow,
        };
        PrayerTime { instant: pt.instant, code: pt.code, message: pt.message.clone() }
    }

    /// The instant of the named prayer, absent when the day's geometry
    /// gave it no solution.
    pub fn time(&self, prayer: Prayer) -> (r: Option<i64>)
        ensures
            r == sched_entry(*self, prayer).instant,
    {
        match prayer {
            Prayer::Fajr => self.fajr.instant,
            Prayer::Sunrise => self.sunrise.instant,
            Prayer::Dhuhr => self.dhuhr.instant,
            Prayer::Asr => self.asr.instant,
            Prayer::Maghrib => self.maghrib.instant,
            Prayer::Isha => self.isha.instant,
            Prayer::MiddleOfTheNight => self.middle_of_the_night.instant,
            Prayer::Qiyam => self.qiyam.instant,
            Prayer::FajrTomorrow => self.fajr_tomorrow.instant,
        }
    }

    /// The prayer whose interval the reference instant falls in — the
    /// most recently started one — or nothing when the instant precedes
    /// the day's Fajr or a needed time is absent.
    pub fn current(&self, time: i64) -> (r: Option<Prayer>)
        ensures
            r == current_spec(*self, time as int),
    {
        let t_ft = match self.fajr_tomorrow.instant {
            Some(t) => t,
            None => {
                return None;
            },
        };
        if t_ft <= time {
            return Some(Prayer::FajrTomorrow);
        }
        let t_q = match self.qiyam.instant {
            Some(t) => t,
            None => {
                return None;
            },
        };
        if t_q <= time {
            return Some(Prayer::Qiyam);
        }
        let t_m = match self.middle_of_the_night.instant {
            Some(t) => t,
            None => {
                return None;
            },
        };
        if t_m <= time {
            return Some(Prayer::MiddleOfTheNight);
        }
        let t_i = match self.isha.instant {
            Some(t) => t,
            None => {
                return None;
            },
        };
        if t_i <= time {
            return Some(Prayer::Isha);
        }
        let t_mg = match self.maghrib.instant {
            Some(t) => t,
            None => {
                return None;
            },
        };
        if t_mg <= time {
            return Some(Prayer::Maghrib);
        }
        let t_a = match self.asr.instant {
            Some(t) => t,
            None => {
                return None;
            },
        };
        if t_a <= time {
            return Some(Prayer::Asr);
        }
        let t_d = match self.dhuhr.instant {
            Some(t) => t,
            None => {
                return None;
            },
        };
        if t_d <= time {
            return Some(Prayer::Dhuhr);
        }
        let t_sr = match self.sunrise.instant {
            Some(t) => t,
            None => {
                return None;
            },
        };
        if t_sr <= time {
            return Some(Prayer::Sunrise);
        }
        let t_f = match self.fajr.instant {
            Some(t) => t,
            None => {
                return None;
            },
        };
        if t_f <= time {
            return Some(Prayer::Fajr);
        }
        None
    }

    /// The prayer that follows the current one in the fixed forward
    /// order, or nothing when there is no current prayer.
    pub fn next(&self, time: i64) -> (r: Option<Prayer>)
        ensures
            r == next_spec(*self, time as int),
    {
        match self.current(time) {
            Some(p) => Some(
                match p {
                    Prayer::Fajr => Prayer::Sunrise,
                    Prayer::Sunrise => Prayer::Dhuhr,
                    Prayer::Dhuhr => Prayer::Asr,
                    Prayer::Asr => Prayer::Maghrib,
                    Prayer::Maghrib => Prayer::Isha,
                    Prayer::Isha => Prayer::MiddleOfTheNight,
                    Prayer::MiddleOfTheNight => Prayer::Qiyam,
                    Prayer::Qiyam => Prayer::FajrTomorrow,
                    Prayer::FajrTomorrow => Prayer::FajrTomorrow,
                },
            ),
            None => None,
        }
    }

    /// Whole hours and rounded minutes until the next prayer; zero when
    /// the next prayer has already started.
    pub fn time_remaining(&self, time: i64) -> (r: Option<(u32, u32)>)
        requires
            self.instants_bounded(),
            -30_000_000_000_000 <= time <= 30_000_000_000_000,
        ensures
            r == time_remaining_spec(*self, time as int),
    {
        match self.next(time) {
            Some(p) => match self.time(p) {
                Some(t) => {
                    let secs = t - time;
                    if secs < 0 {
                        Some((0, 0))
                    } else {
                        let hours = secs / 3600;
                        let minutes = (secs % 3600 + 30) / 60;
                        let h: u32 = if hours > 0xffff_ffff {
                            0xffff_ffff
                        } else {
                            hours as u32
                        };
                        Some((h, minutes as u32))
                    }
                },
                None => None,
            },
            None => None,
        }
    }

    /// Fajr of the day described by `solar` and `date`: the geometric
    /// base, the Moonsighting Committee override, the safety floor, the
    /// high-latitude clamp, and the minute adjustment.
    fn calculate_fajr_time(
        parameters: &Parameters,
        solar: &SolarDay,
        night: Option<i64>,
        coordinates: Coordinates,
        date: Date,
    ) -> (r: PrayerTime)
        requires
            parameters.wf(),
            solar.bounded(),
            coordinates.valid(),
            date.valid(),
            match night {
                Some(n) => -2 * INSTANT_BOUND <= n <= 2 * INSTANT_BOUND,
                None => true,
            },
        ensures
            opt_matches(
                r.instant,
                sched_fajr(
                    *parameters,
                    *solar,
                    opt_int(night),
                    coordinates.latitude as int,
                    date,
                ).0,
            ),
            r.code == sched_fajr(
                *parameters,
                *solar,
                opt_int(night),
                coordinates.latitude as int,
                date,
            ).1,
            message_matches(r),
            computed_in_bound(r.instant),
    {
        let moonsighting = parameters.method == Method::MoonsightingCommittee;
        let base: Option<i64> = if moonsighting && is_high_latitude(
            coordinates,
            Some(parameters.method),
        ) {
            match (solar.sunrise, night) {
                (Some(sr), Some(n)) => Some(sr - div_trunc(n, 7)),
                _ => None,
            }
        } else {
            solar.fajr_base
        };
        let safe: Option<i64> = if moonsighting {
            match solar.sunrise {
                Some(sr) => {
                    let doy = date.day_of_year();
                    Some(
                        season_adjusted_morning_twilight(
                            coordinates.latitude,
                            doy,
                            date.year,
                            sr,
                        ),
                    )
                },
                None => None,
            }
        } else {
            match (solar.sunrise, night) {
                (Some(sr), Some(n)) => {
                    let portions = parameters.night_portions();
                    proof {
                        assert(crate::num::abs_int(portions.0.numerator as int) <= 2
                            * portions.0.denominator);
                    }
                    Some(sr - portions.0.of(n))
                },
                _ => None,
            }
        };
        match (base, safe) {
            (Some(b), Some(s)) => {
                let clamped = is_high_latitude(coordinates, None) && b < s;
                let chosen: i64 = if clamped {
                    s
                } else {
                    b
                };
                let adjusted = adjust_time(chosen, parameters.time_adjustments(Prayer::Fajr));
                let code = if clamped {
                    PrayerTimeResolution::HighLatitudeRule
                } else {
                    PrayerTimeResolution::Normal
                };
                let message = if clamped {
                    high_latitude_message()
                } else {
                    String::new()
                };
                PrayerTimeBuilder::new(Some(adjusted)).code(code).message(message).build()
            },
            _ => PrayerTimeBuilder::new(None).build(),
        }
    }

    /// Isha of the day described by `solar` and `date`: the fixed
    /// interval when one is configured, otherwise the mirrored Fajr
    /// procedure after sunset.
    fn calculate_isha_time(
        parameters: &Parameters,
        solar: &SolarDay,
        night: Option<i64>,
        coordinates: Coordinates,
        date: Date,
    ) -> (r: PrayerTime)
        requires
            parameters.wf(),
            solar.bounded(),
            coordinates.valid(),
            date.valid(),
            match night {
                Some(n) => -2 * INSTANT_BOUND <= n <= 2 * INSTANT_BOUND,
                None => true,
            },
        ensures
            opt_matches(
                r.instant,
                sched_isha(
                    *parameters,
                    *solar,
                    opt_int(night),
                    coordinates.latitude as int,
                    date,
                ).0,
            ),
            r.code == sched_isha(
                *parameters,
                *solar,
                opt_int(night),
                coordinates.latitude as int,
                date,
            ).1,
            message_matches(r),
            computed_in_bound(r.instant),
    {
        if parameters.isha_interval > 0 {
            match solar.sunset {
                Some(ss) => {
                    let with_interval = ss + (parameters.isha_interval as i64) * 60;
                    let adjusted = adjust_time(
                        with_interval,
                        parameters.time_adjustments(Prayer::Isha),
                    );
                    PrayerTimeBuilder::new(Some(adjusted)).build()
                },
                None => PrayerTimeBuilder::new(None).build(),
            }
        } else {
            let moonsighting = parameters.method == Method::MoonsightingCommittee;
            let base: Option<i64> = if moonsighting && is_high_latitude(
                coordinates,
                Some(parameters.method),
            ) {
                match (solar.sunset, night) {
                    (Some(ss), Some(n)) => Some(ss + div_trunc(n, 7)),
                    _ => None,
                }
            } else {
                solar.isha_base
            };
            let safe: Option<i64> = if moonsighting {
                match solar.sunset {
                    Some(ss) => {
                        let doy = date.day_of_year();
                        Some(
                            season_adjusted_evening_twilight(
                                coordinates.latitude,
                                doy,
                                date.year,
                                ss,
                            ),
                        )
                    },
                    None => None,
                }
            } else {
                match (solar.sunset, night) {
                    (Some(ss), Some(n)) => {
                        let portions = parameters.night_portions();
                        Some(ss + portions.1.of(n))
                    },
                    _ => None,
                }
            };
            match (base, safe) {
                (Some(b), Some(s)) => {
                    let clamped = is_high_latitude(coordinates, None) && b > s;
                    let chosen: i64 = if clamped {
                        s
                    } else {
                        b
                    };
                    let adjusted = adjust_time(chosen, parameters.time_adjustments(Prayer::Isha));
                    let code = if clamped {
                        PrayerTimeResolution::HighLatitudeRule
                    } else {
                        PrayerTimeResolution::Normal
                    };
                    let message = if clamped {
                        high_latitude_message()
                    } else {
                        String::new()
                    };
                    PrayerTimeBuilder::new(Some(adjusted)).code(code).message(message).build()
                },
                _ => PrayerTimeBuilder::new(None).build(),
            }
        }
    }

    /// The night points and the following day's Fajr: tomorrow's Fajr is
    /// computed as today's was, and the night from Maghrib to it is
    /// divided at its half and at its last third, each rounded to the
    /// nearest minute.
    fn calculate_qiyam_time(
        current_maghrib: Option<i64>,
        parameters: &Parameters,
        solar_tomorrow: &SolarDay,
        coordinates: Coordinates,
        tomorrow_date: Date,
        sunrise_day_after: Option<i64>,
    ) -> (r: (PrayerTime, PrayerTime, PrayerTime))
        requires
            parameters.wf(),
            solar_tomorrow.bounded(),
            coordinates.valid(),
            tomorrow_date.valid(),
            opt_in_bound(sunrise_day_after),
            match current_maghrib {
                Some(t) => -5_000_000_000_000 <= t <= 5_000_000_000_000,
                None => true,
            },
        ensures
            opt_matches(
                r.0.instant,
                night_points_spec(
                    opt_int(current_maghrib),
                    sched_fajr(
                        *parameters,
                        *solar_tomorrow,
                        night2_spec(*solar_tomorrow, sunrise_day_after),
                        coordinates.latitude as int,
                        tomorrow_date,
                    ).0,
                ).0,
            ),
            r.0.code == plain_code(r.0.instant),
            message_matches(r.0),
            opt_matches(
                r.1.instant,
                night_points_spec(
                    opt_int(current_maghrib),
                    sched_fajr(
                        *parameters,
                        *solar_tomorrow,
                        night2_spec(*solar_tomorrow, sunrise_day_after),
                        coordinates.latitude as int,
                        tomorrow_date,
                    ).0,
                ).1,
            ),
            r.1.code == plain_code(r.1.instant),
            message_matches(r.1),
            opt_matches(
                r.2.instant,
                sched_fajr(
                    *parameters,
                    *solar_tomorrow,
                    night2_spec(*solar_tomorrow, sunrise_day_after),
                    coordinates.latitude as int,
                    tomorrow_date,
                ).0,
            ),
            r.2.code == sched_fajr(
                *parameters,
                *solar_tomorrow,
                night2_spec(*solar_tomorrow, sunrise_day_after),
                coordinates.latitude as int,
                tomorrow_date,
            ).1,
            message_matches(r.2),
    {
        let night: Option<i64> = match (sunrise_day_after, solar_tomorrow.sunset) {
            (Some(sr), Some(ss)) => Some(sr - ss),
            _ => None,
        };
        let tomorrow_fajr = PrayerTimes::calculate_fajr_time(
            parameters,
            solar_tomorrow,
            night,
            coordinates,
            tomorrow_date,
        );
        match (current_maghrib, tomorrow_fajr.instant) {
            (Some(m), Some(tf)) => {
                let night_duration = tf - m;
                let middle = nearest_minute(m + div_trunc(night_duration, 2));
                let last_third = nearest_minute(m + div_trunc(2 * night_duration, 3));
                (
                    PrayerTimeBuilder::new(Some(middle)).build(),
                    PrayerTimeBuilder::new(Some(last_third)).build(),
                    tomorrow_fajr,
                )
            },
            _ => (
                PrayerTimeBuilder::new(None).build(),
                PrayerTimeBuilder::new(None).build(),
                tomorrow_fajr,
            ),
        }
    }
}

} // verus!
