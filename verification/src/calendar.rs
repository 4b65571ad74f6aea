//! Proleptic Gregorian calendar arithmetic.
//!
//! A date is a (year, month, day) triple; the crate supports years 1
//! through 9999, far beyond any use of a prayer timetable. The central
//! quantity is `day_index`, the number of days elapsed since the first of
//! January of year 1; stepping a date forward or back is proved to move
//! that index by exactly one, and instants are obtained by counting seconds
//! from the Unix epoch.

use vstd::prelude::*;
use vstd::arithmetic::div_mod::{lemma_fundamental_div_mod, lemma_fundamental_div_mod_converse_div,
    lemma_mod_bound};

verus! {

/// Highest supported year.
pub const YEAR_MAX: i64 = 9999;

/// `day_index` of 1970-01-01, the Unix epoch.
pub const EPOCH_DAY_INDEX: i64 = 719_162;

/// Seconds per day.
pub const SECONDS_PER_DAY: i64 = 86_400;

/// A calendar date in the proleptic Gregorian calendar.
#[derive(Clone, Copy, Debug, PartialEq, Eq, Structural)]
pub struct Date {
    pub year: i64,
    pub month: i64,
    pub day: i64,
}

/// Gregorian leap-year rule.
pub open spec fn is_leap_year(y: int) -> bool {
    y % 4 == 0 && (y % 100 != 0 || y % 400 == 0)
}

/// Length of a month.
pub open spec fn days_in_month_spec(y: int, m: int) -> int {
    if m == 2 {
        if is_leap_year(y) {
            29
        } else {
            28
        }
    } else if m == 4 || m == 6 || m == 9 || m == 11 {
        30
    } else {
        31
    }
}

/// Days of the year that precede month `m`.
pub open spec fn month_prefix_days(y: int, m: int) -> int {
    let base: int = if m == 1 {
        0
    } else if m == 2 {
        31
    } else if m == 3 {
        59
    } else if m == 4 {
        90
    } else if m == 5 {
        120
    } else if m == 6 {
        151
    } else if m == 7 {
        181
    } else if m == 8 {
        212
    } else if m == 9 {
        243
    } else if m == 10 {
        273
    } else if m == 11 {
        304
    } else {
        334
    };
    if m > 2 && is_leap_year(y) {
        base + 1
    } else {
        base
    }
}

impl Date {
    /// A well-formed date within the supported years.
    pub open spec fn valid(self) -> bool {
        &&& 1 <= self.year <= YEAR_MAX
        &&& 1 <= self.month <= 12
        &&& 1 <= self.day <= days_in_month_spec(self.year as int, self.month as int)
    }

    /// Ordinal of the date within its year (1 for the first of January).
    pub open spec fn day_of_year_spec(self) -> int {
        month_prefix_days(self.year as int, self.month as int) + self.day
    }

    /// Days elapsed since the first of January of year 1: leap days are
    /// exactly the years divisible by four, except centuries off the
    /// four-century cycle.
    pub open spec fn day_index(self) -> int {
        let y = self.year as int;
        365 * (y - 1) + (y - 1) / 4 - (y - 1) / 100 + (y - 1) / 400 + self.day_of_year_spec() - 1
    }

    /// Days since the Unix epoch (negative before 1970).
    pub open spec fn epoch_days_spec(self) -> int {
        self.day_index() - EPOCH_DAY_INDEX
    }

    /// The date `(year, month, day)` if that triple names a calendar day
    /// within the supported years, and nothing otherwise.
    pub fn new(year: i64, month: i64, day: i64) -> (r: Option<Date>)
        ensures
            r is Some <==> (Date { year, month, day }).valid(),
            r is Some ==> r == Some(Date { year, month, day }),
    {
        if 1 <= year && year <= YEAR_MAX && 1 <= month && month <= 12 && 1 <= day && day
            <= days_in_month(year, month) {
            Some(Date { year, month, day })
        } else {
            None
        }
    }
}

/// Whether year `y` is a Gregorian leap year.
pub fn is_leap(y: i64) -> (r: bool)
    requires
        1 <= y <= YEAR_MAX,
    ensures
        r == is_leap_year(y as int),
{
    y % 4 == 0 && (y % 100 != 0 || y % 400 == 0)
}

/// Length of month `m` of year `y`.
pub fn days_in_month(y: i64, m: i64) -> (r: i64)
    requires
        1 <= y <= YEAR_MAX,
        1 <= m <= 12,
    ensures
        r == days_in_month_spec(y as int, m as int),
        28 <= r <= 31,
{
    if m == 2 {
        if is_leap(y) {
            29
        } else {
            28
        }
    } else if m == 4 || m == 6 || m == 9 || m == 11 {
        30
    } else {
        31
    }
}

/// The date one day after `d`: the day steps within the month, then the
/// month, then the year.
pub open spec fn tomorrow_spec(d: Date) -> Date {
    if d.day < days_in_month_spec(d.year as int, d.month as int) {
        Date { year: d.year, month: d.month, day: (d.day + 1) as i64 }
    } else if d.month < 12 {
        Date { year: d.year, month: (d.month + 1) as i64, day: 1 }
    } else {
        Date { year: (d.year + 1) as i64, month: 1, day: 1 }
    }
}

/// The date one day before `d`.
pub open spec fn yesterday_spec(d: Date) -> Date {
    if d.day > 1 {
        Date { year: d.year, month: d.month, day: (d.day - 1) as i64 }
    } else if d.month > 1 {
        Date {
            year: d.year,
            month: (d.month - 1) as i64,
            day: days_in_month_spec(d.year as int, (d.month - 1) as int) as i64,
        }
    } else {
        Date { year: (d.year - 1) as i64, month: 12, day: 31 }
    }
}

impl Date {
    /// Ordinal of the date within its year.
    pub fn day_of_year(&self) -> (r: i64)
        requires
            self.valid(),
        ensures
            r == self.day_of_year_spec(),
            1 <= r <= 365 + if is_leap_year(self.year as int) {
                1int
            } else {
                0int
            },
    {
        let m = self.month;
        let base: i64 = if m == 1 {
            0
        } else if m == 2 {
            31
        } else if m == 3 {
            59
        } else if m == 4 {
            90
        } else if m == 5 {
            120
        } else if m == 6 {
            151
        } else if m == 7 {
            181
        } else if m == 8 {
            212
        } else if m == 9 {
            243
        } else if m == 10 {
            273
        } else if m == 11 {
            304
        } else {
            334
        };
        let leap_shift: i64 = if m > 2 && is_leap(self.year) {
            1
        } else {
            0
        };
        base + leap_shift + self.day
    }

    /// Days since the Unix epoch.
    pub fn epoch_days(&self) -> (r: i64)
        requires
            self.valid(),
        ensures
            r == self.epoch_days_spec(),
    {
        let y = self.year - 1;
        let doy = self.day_of_year();
        365 * y + y / 4 - y / 100 + y / 400 + doy - 1 - EPOCH_DAY_INDEX
    }

    /// The instant, in seconds since the Unix epoch, of the given
    /// time of day on this date.
    pub fn timestamp_at(&self, hour: i64, minute: i64, second: i64) -> (r: i64)
        requires
            self.valid(),
            0 <= hour <= 23,
            0 <= minute <= 59,
            0 <= second <= 59,
        ensures
            r == self.epoch_days_spec() * SECONDS_PER_DAY + hour * 3600 + minute * 60 + second,
    {
        let days = self.epoch_days();
        proof {
            lemma_day_index_bounds(*self);
        }
        days * SECONDS_PER_DAY + hour * 3600 + minute * 60 + second
    }

    /// The date one day later (`fwd`) or one day earlier (`!fwd`); the
    /// result's `day_index` moves by exactly one.
    pub fn next_date(&self, fwd: bool) -> (r: Date)
        requires
            self.valid(),
            fwd ==> !(self.year == YEAR_MAX && self.month == 12 && self.day == 31),
            !fwd ==> !(self.year == 1 && self.month == 1 && self.day == 1),
        ensures
            r.valid(),
            fwd ==> r == tomorrow_spec(*self) && r.day_index() == self.day_index() + 1,
            !fwd ==> r == yesterday_spec(*self) && r.day_index() == self.day_index() - 1,
    {
        if fwd {
            let r = if self.day < days_in_month(self.year, self.month) {
                Date { year: self.year, month: self.month, day: self.day + 1 }
            } else if self.month < 12 {
                Date { year: self.year, month: self.month + 1, day: 1 }
            } else {
                Date { year: self.year + 1, month: 1, day: 1 }
            };
            proof {
                if self.month == 12 && self.day == 31 {
                    lemma_leap_count_step(self.year as int);
                }
            }
            r
        } else {
            let r = if self.day > 1 {
                Date { year: self.year, month: self.month, day: self.day - 1 }
            } else if self.month > 1 {
                Date {
                    year: self.year,
                    month: self.month - 1,
                    day: days_in_month(self.year, self.month - 1),
                }
            } else {
                Date { year: self.year - 1, month: 12, day: 31 }
            };
            proof {
                if self.month == 1 && self.day == 1 {
                    lemma_leap_count_step(self.year as int - 1);
                }
            }
            r
        }
    }

    /// The date one day later.
    pub fn tomorrow(&self) -> (r: Date)
        requires
            self.valid(),
            !(self.year == YEAR_MAX && self.month == 12 && self.day == 31),
        ensures
            r.valid(),
            r == tomorrow_spec(*self),
            r.day_index() == self.day_index() + 1,
    {
        self.next_date(true)
    }

    /// The date one day earlier.
    pub fn yesterday(&self) -> (r: Date)
        requires
            self.valid(),
            !(self.year == 1 && self.month == 1 && self.day == 1),
        ensures
            r.valid(),
            r == yesterday_spec(*self),
            r.day_index() == self.day_index() - 1,
    {
        self.next_date(false)
    }
}

/// `day_index` of a valid date lies within the span of the supported
/// years.
pub proof fn lemma_day_index_bounds(d: Date)
    requires
        d.valid(),
    ensures
        0 <= d.day_index() < 3_700_000,
{
    let y = d.year as int - 1;
    assert(0 <= y / 4 <= 2500) by {
        lemma_fundamental_div_mod(y, 4);
        lemma_mod_bound(y, 4);
    }
    assert(0 <= y / 100 <= y / 4) by {
        lemma_fundamental_div_mod(y, 100);
        lemma_mod_bound(y, 100);
        lemma_fundamental_div_mod(y, 4);
        lemma_mod_bound(y, 4);
        assert(y / 100 <= y / 4) by (nonlinear_arith)
            requires
                y >= 0,
                y == 100 * (y / 100) + y % 100,
                y == 4 * (y / 4) + y % 4,
                0 <= y % 100 < 100,
                0 <= y % 4 < 4,
        ;
    }
    assert(0 <= y / 400 <= y / 100) by {
        lemma_fundamental_div_mod(y, 400);
        lemma_mod_bound(y, 400);
        lemma_fundamental_div_mod(y, 100);
        lemma_mod_bound(y, 100);
        assert(y / 400 <= y / 100) by (nonlinear_arith)
            requires
                y >= 0,
                y == 400 * (y / 400) + y % 400,
                y == 100 * (y / 100) + y % 100,
                0 <= y % 400 < 400,
                0 <= y % 100 < 100,
        ;
    }
}

/// Crossing from year `y` to `y + 1` adds one counted leap day exactly
/// when `y` is a leap year.
proof fn lemma_leap_count_step(y: int)
    requires
        1 <= y,
    ensures
        leap_count(y + 1) - leap_count(y) == if is_leap_year(y) {
            1int
        } else {
            0int
        },
{
    lemma_div_step(y, 4);
    lemma_div_step(y, 100);
    lemma_div_step(y, 400);
    if is_leap_year(y) {
        if y % 100 == 0 {
            assert(y % 400 == 0);
            assert(y % 4 == 0) by {
                lemma_mod_of_multiple_divisor(y, 400, 4);
            }
        } else {
            assert(y % 4 == 0);
            if y % 400 == 0 {
                lemma_mod_of_multiple_divisor(y, 400, 100);
            }
        }
    } else {
        if y % 4 != 0 {
            assert(y % 100 != 0) by {
                if y % 100 == 0 {
                    lemma_mod_of_multiple_divisor(y, 100, 4);
                }
            }
            assert(y % 400 != 0) by {
                if y % 400 == 0 {
                    lemma_mod_of_multiple_divisor(y, 400, 4);
                }
            }
        }
    }
}

/// Leap days counted by `day_index` before year `y`.
pub open spec fn leap_count(y: int) -> int {
    (y - 1) / 4 - (y - 1) / 100 + (y - 1) / 400
}

/// `y / d` grows by one over `(y - 1) / d` exactly at the multiples of
/// `d`.
proof fn lemma_div_step(y: int, d: int)
    requires
        1 <= y,
        2 <= d,
    ensures
        y / d - (y - 1) / d == if y % d == 0 {
            1int
        } else {
            0int
        },
{
    let q = y / d;
    let r = y % d;
    lemma_fundamental_div_mod(y, d);
    lemma_mod_bound(y, d);
    if r == 0 {
        assert(y - 1 == (q - 1) * d + (d - 1)) by (nonlinear_arith)
            requires
                y == d * q + r,
                r == 0,
        ;
        lemma_fundamental_div_mod_converse_div(y - 1, d, q - 1, d - 1);
    } else {
        assert(y - 1 == q * d + (r - 1)) by (nonlinear_arith)
            requires
                y == d * q + r,
        ;
        lemma_fundamental_div_mod_converse_div(y - 1, d, q, r - 1);
    }
}

/// If `a` is a multiple of `m`, and `d` divides `m`, then `a` is a
/// multiple of `d`.
proof fn lemma_mod_of_multiple_divisor(a: int, m: int, d: int)
    requires
        1 <= d,
        1 <= m,
        m % d == 0,
        a % m == 0,
    ensures
        a % d == 0,
{
    let qm = a / m;
    let k = m / d;
    lemma_fundamental_div_mod(a, m);
    lemma_fundamental_div_mod(m, d);
    assert(a == (qm * k) * d + 0) by (nonlinear_arith)
        requires
            a == m * qm + 0,
            m == d * k + 0,
    ;
    vstd::arithmetic::div_mod::lemma_fundamental_div_mod_converse_mod(a, d, qm * k, 0);
}

} // verus!
