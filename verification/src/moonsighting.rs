//! Season-adjusted safe twilight of the Moonsighting Committee method.
//!
//! Near the poles the geometric twilight angles become unreliable; this
//! method bounds Fajr and Isha by an empirical duration before sunrise or
//! after sunset. The duration, in minutes, is a piecewise-linear function
//! of the day counted from the winter solstice of the observer's
//! hemisphere, between four latitude-dependent anchor values; the
//! arithmetic below carries it as an exact fraction and rounds once, to
//! whole seconds.

use vstd::prelude::*;
use crate::calendar::{is_leap, is_leap_year, YEAR_MAX};
use crate::instant::INSTANT_BOUND;
use crate::num::{abs_int, round_div, div_round};

verus! {

/// Common denominator of the anchor values: anchors are
/// `75 + (c / 100) * |latitude in degrees| / 55` minutes, carried as
/// `75 * 5_500_000 + c * |latitude in thousandths|` over this
/// denominator.
pub const ANCHOR_DENOMINATOR: i64 = 5_500_000;

/// Days from the hemisphere's winter solstice to the given day of the
/// year: the northern year is taken to begin ten days after the December
/// solstice, the southern 172 days (173 in leap years) before the June
/// solstice.
pub open spec fn days_since_solstice_spec(day_of_year: int, leap: bool, southern: bool) -> int {
    let days_in_year: int = if leap {
        366
    } else {
        365
    };
    if !southern {
        let d = day_of_year + 10;
        if d >= days_in_year {
            d - days_in_year
        } else {
            d
        }
    } else {
        let d = day_of_year - (if leap {
            173int
        } else {
            172int
        });
        if d < 0 {
            d + days_in_year
        } else {
            d
        }
    }
}

/// An anchor value: `75 + (c / 100) * |lat| / 55` minutes, scaled by
/// `ANCHOR_DENOMINATOR`, for a latitude in thousandths of a degree.
pub open spec fn anchor_spec(c: int, latitude: int) -> int {
    75 * 5_500_000 + c * abs_int(latitude)
}

/// Linear interpolation from `q1` to `q2` over `gap` days, `offset` days
/// into the segment, rounded once to whole seconds: the interpolated
/// value is `(q1 * gap + (q2 - q1) * offset) / (gap * denominator)`
/// minutes.
pub open spec fn segment_seconds_spec(q1: int, q2: int, gap: int, offset: int) -> int {
    round_div(60 * (q1 * gap + (q2 - q1) * offset), 5_500_000 * gap)
}

/// The safe twilight duration in seconds for anchors `a`, `b`, `c`, `d`
/// on day `dyy` since the solstice: `a` at the solstice, `b` a quarter
/// year later, through `c` and `d` at midsummer, and back.
pub open spec fn season_seconds_spec(a: int, b: int, c: int, d: int, dyy: int) -> int {
    if dyy < 91 {
        segment_seconds_spec(a, b, 91, dyy)
    } else if dyy < 137 {
        segment_seconds_spec(b, c, 46, dyy - 91)
    } else if dyy < 183 {
        segment_seconds_spec(c, d, 46, dyy - 137)
    } else if dyy < 229 {
        segment_seconds_spec(d, c, 46, dyy - 183)
    } else if dyy < 275 {
        segment_seconds_spec(c, b, 46, dyy - 229)
    } else {
        segment_seconds_spec(b, a, 91, dyy - 275)
    }
}

/// The morning safe-twilight duration in seconds: anchor coefficients
/// 28.65, 19.44, 32.74 and 48.10 hundredths of a minute per degree of
/// latitude.
pub open spec fn morning_seconds_spec(latitude: int, dyy: int) -> int {
    season_seconds_spec(
        anchor_spec(2865, latitude),
        anchor_spec(1944, latitude),
        anchor_spec(3274, latitude),
        anchor_spec(4810, latitude),
        dyy,
    )
}

/// The evening safe-twilight duration in seconds: anchor coefficients
/// 25.60, 2.05, -9.21 and 6.14 hundredths of a minute per degree of
/// latitude.
pub open spec fn evening_seconds_spec(latitude: int, dyy: int) -> int {
    season_seconds_spec(
        anchor_spec(2560, latitude),
        anchor_spec(205, latitude),
        anchor_spec(-921, latitude),
        anchor_spec(614, latitude),
        dyy,
    )
}

/// Days from the hemisphere's winter solstice.
pub fn days_since_solstice(day_of_year: i64, year: i64, latitude: i64) -> (r: i64)
    requires
        1 <= year <= YEAR_MAX,
        1 <= day_of_year <= 365 + if is_leap_year(year as int) {
            1int
        } else {
            0int
        },
    ensures
        r == days_since_solstice_spec(day_of_year as int, is_leap_year(year as int), latitude < 0),
        0 <= r <= 365,
{
    let leap = is_leap(year);
    let days_in_year: i64 = if leap {
        366
    } else {
        365
    };
    if latitude >= 0 {
        let d = day_of_year + 10;
        if d >= days_in_year {
            d - days_in_year
        } else {
            d
        }
    } else {
        let d = day_of_year - (if leap {
            173
        } else {
            172
        });
        if d < 0 {
            d + days_in_year
        } else {
            d
        }
    }
}

/// The seasonal duration in seconds for the four anchor coefficients.
fn season_seconds(ca: i64, cb: i64, cc: i64, cd: i64, latitude: i64, dyy: i64) -> (r: i64)
    requires
        -90_000 <= latitude <= 90_000,
        -1_000 <= ca <= 5_000,
        -1_000 <= cb <= 5_000,
        -1_000 <= cc <= 5_000,
        -1_000 <= cd <= 5_000,
        0 <= dyy <= 365,
    ensures
        r == season_seconds_spec(
            anchor_spec(ca as int, latitude as int),
            anchor_spec(cb as int, latitude as int),
            anchor_spec(cc as int, latitude as int),
            anchor_spec(cd as int, latitude as int),
            dyy as int,
        ),
        -10_000_000 <= r <= 10_000_000,
{
    let a = anchor(ca, latitude);
    let b = anchor(cb, latitude);
    let c = anchor(cc, latitude);
    let d = anchor(cd, latitude);
    if dyy < 91 {
        segment_seconds(a, b, 91, dyy)
    } else if dyy < 137 {
        segment_seconds(b, c, 46, dyy - 91)
    } else if dyy < 183 {
        segment_seconds(c, d, 46, dyy - 137)
    } else if dyy < 229 {
        segment_seconds(d, c, 46, dyy - 183)
    } else if dyy < 275 {
        segment_seconds(c, b, 46, dyy - 229)
    } else {
        segment_seconds(b, a, 91, dyy - 275)
    }
}

/// One anchor value of the seasonal interpolation.
fn anchor(c: i64, latitude: i64) -> (r: i64)
    requires
        -1_000 <= c <= 5_000,
        -90_000 <= latitude <= 90_000,
    ensures
        r == anchor_spec(c as int, latitude as int),
        -1_000_000_000 <= r <= 1_000_000_000,
{
    let lat_abs: i64 = if latitude < 0 {
        -latitude
    } else {
        latitude
    };
    proof {
        assert(-90_000_000 <= c * lat_abs <= 450_000_000) by (nonlinear_arith)
            requires
                -1_000 <= c <= 5_000,
                0 <= lat_abs <= 90_000,
        ;
    }
    75 * ANCHOR_DENOMINATOR + c * lat_abs
}

/// One linear segment, rounded to whole seconds.
fn segment_seconds(q1: i64, q2: i64, gap: i64, offset: i64) -> (r: i64)
    requires
        -1_000_000_000 <= q1 <= 1_000_000_000,
        -1_000_000_000 <= q2 <= 1_000_000_000,
        1 <= gap <= 91,
        0 <= offset <= 91,
    ensures
        r == segment_seconds_spec(q1 as int, q2 as int, gap as int, offset as int),
        -10_000_000 <= r <= 10_000_000,
{
    proof {
        assert(-400_000_000_000 <= q1 * gap <= 400_000_000_000) by (nonlinear_arith)
            requires
                -1_000_000_000 <= q1 <= 1_000_000_000,
                1 <= gap <= 91,
        ;
        assert(-200_000_000_000 <= (q2 - q1) * offset <= 200_000_000_000) by (nonlinear_arith)
            requires
                -1_000_000_000 <= q1 <= 1_000_000_000,
                -1_000_000_000 <= q2 <= 1_000_000_000,
                0 <= offset <= 91,
        ;
        assert(5_500_000 <= 5_500_000 * gap <= 500_500_000) by (nonlinear_arith)
            requires
                1 <= gap <= 91,
        ;
    }
    let numerator = 60 * (q1 * gap + (q2 - q1) * offset);
    let denominator = 5_500_000 * gap;
    let r = div_round(numerator, denominator);
    proof {
        lemma_round_div_magnitude(numerator as int, denominator as int);
    }
    r
}

/// A rounded quotient of a numerator within forty trillion by a
/// denominator of at least five and a half million stays within ten
/// million.
proof fn lemma_round_div_magnitude(a: int, b: int)
    requires
        5_500_000 <= b,
        -40_000_000_000_000 <= a <= 40_000_000_000_000,
    ensures
        -10_000_000 <= round_div(a, b) <= 10_000_000,
{
    let n = abs_int(a);
    let x = n + b / 2;
    let q = x / b;
    vstd::arithmetic::div_mod::lemma_fundamental_div_mod(x, b);
    vstd::arithmetic::div_mod::lemma_mod_bound(x, b);
    assert(b / 2 * 2 <= b) by {
        vstd::arithmetic::div_mod::lemma_fundamental_div_mod(b, 2);
        vstd::arithmetic::div_mod::lemma_mod_bound(b, 2);
    }
    assert(0 <= q <= 10_000_000) by (nonlinear_arith)
        requires
            x == b * q + x % b,
            0 <= x % b < b,
            b >= 5_500_000,
            0 <= x,
            x <= 40_000_000_000_000 + b,
    ;
}

/// The instant of the morning safe twilight: the seasonal duration
/// before sunrise.
pub fn season_adjusted_morning_twilight(
    latitude: i64,
    day_of_year: i64,
    year: i64,
    sunrise: i64,
) -> (r: i64)
    requires
        -90_000 <= latitude <= 90_000,
        1 <= year <= YEAR_MAX,
        1 <= day_of_year <= 365 + if is_leap_year(year as int) {
            1int
        } else {
            0int
        },
        -INSTANT_BOUND <= sunrise <= INSTANT_BOUND,
    ensures
        -INSTANT_BOUND - 10_000_000 <= r <= INSTANT_BOUND + 10_000_000,
        r == sunrise - morning_seconds_spec(
            latitude as int,
            days_since_solstice_spec(
                day_of_year as int,
                is_leap_year(year as int),
                latitude < 0,
            ),
        ),
{
    let dyy = days_since_solstice(day_of_year, year, latitude);
    let adjustment = season_seconds(2865, 1944, 3274, 4810, latitude, dyy);
    sunrise - adjustment
}

/// The instant of the evening safe twilight: the seasonal duration
/// after sunset.
pub fn season_adjusted_evening_twilight(
    latitude: i64,
    day_of_year: i64,
    year: i64,
    sunset: i64,
) -> (r: i64)
    requires
        -90_000 <= latitude <= 90_000,
        1 <= year <= YEAR_MAX,
        1 <= day_of_year <= 365 + if is_leap_year(year as int) {
            1int
        } else {
            0int
        },
        -INSTANT_BOUND <= sunset <= INSTANT_BOUND,
    ensures
        -INSTANT_BOUND - 10_000_000 <= r <= INSTANT_BOUND + 10_000_000,
        r == sunset + evening_seconds_spec(
            latitude as int,
            days_since_solstice_spec(
                day_of_year as int,
                is_leap_year(year as int),
                latitude < 0,
            ),
        ),
{
    let dyy = days_since_solstice(day_of_year, year, latitude);
    let adjustment = season_seconds(2560, 205, -921, 614, latitude, dyy);
    sunset + adjustment
}

} // verus!
