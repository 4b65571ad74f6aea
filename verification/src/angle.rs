//! Angular quantities, measured in thousandths of a degree.
//!
//! One thousandth of a degree (3.6 arc seconds) is fine enough for every
//! convention the crate models: preset twilight angles are multiples of a
//! tenth of a degree, and latitude thresholds are whole degrees.

use vstd::prelude::*;
use crate::num::{floor_div, round_div, trunc_div, div_floor, div_round, div_trunc, NUM_BOUND};

verus! {

/// Thousandths of a degree per degree.
pub const MILLI_PER_DEGREE: i64 = 1_000;

/// A full turn, in thousandths of a degree.
pub const FULL_TURN: i64 = 360_000;

/// Half a turn, in thousandths of a degree.
pub const HALF_TURN: i64 = 180_000;

/// Bound on the magnitude the angle operations accept (a million degrees):
/// far beyond any meaningful angle, yet small enough that every
/// intermediate product stays inside `i64`.
pub const ANGLE_BOUND: i64 = 1_000_000_000;

/// An angle, as a number of thousandths of a degree.
#[derive(Clone, Copy, Debug, PartialEq, Eq, Structural)]
pub struct Angle {
    pub millidegrees: i64,
}

/// `value` brought into `[0, max)` by subtracting the floor multiple of
/// `max` (for negative `max`, into `(max, 0]`), as a value in thousandths.
pub open spec fn normalized_to_scale_spec(value: int, max: int) -> int {
    value - max * floor_div(value, max)
}

/// The angle folded into `[0, 360)` degrees.
pub open spec fn unwound_milli(value: int) -> int {
    normalized_to_scale_spec(value, 360_000)
}

/// The angle shifted by whole turns into `[-180, 180]` degrees: unchanged
/// when already there, otherwise lowered by the nearest multiple of a full
/// turn.
pub open spec fn quadrant_shifted_milli(value: int) -> int {
    if -180_000 <= value <= 180_000 {
        value
    } else {
        value - 360_000 * round_div(value, 360_000)
    }
}

/// The floor multiple of `max` lies at most `|max|` below (for positive
/// `max`) or above (for negative `max`) the value itself.
pub proof fn lemma_floor_multiple_range(value: int, max: int)
    requires
        max != 0,
    ensures
        max > 0 ==> 0 <= normalized_to_scale_spec(value, max) < max,
        max < 0 ==> max < normalized_to_scale_spec(value, max) <= 0,
{
    if max > 0 {
        vstd::arithmetic::div_mod::lemma_fundamental_div_mod(value, max);
        vstd::arithmetic::div_mod::lemma_mod_bound(value, max);
    } else {
        vstd::arithmetic::div_mod::lemma_fundamental_div_mod(-value, -max);
        vstd::arithmetic::div_mod::lemma_mod_bound(-value, -max);
        assert(value - max * floor_div(value, max) == -((-value) - (-max) * ((-value) / (-max))))
            by (nonlinear_arith)
            requires
                max < 0,
                floor_div(value, max) == (-value) / (-max),
        ;
    }
}

/// Normalization is idempotent, and the identity on already-normalized
/// input.
pub proof fn lemma_normalized_idempotent(value: int, max: int)
    requires
        max != 0,
    ensures
        max > 0 && 0 <= value < max ==> normalized_to_scale_spec(value, max) == value,
        normalized_to_scale_spec(normalized_to_scale_spec(value, max), max)
            == normalized_to_scale_spec(value, max),
{
    lemma_floor_multiple_range(value, max);
    let r = normalized_to_scale_spec(value, max);
    if max > 0 {
        if 0 <= value < max {
            assert(floor_div(value, max) == 0) by {
                vstd::arithmetic::div_mod::lemma_basic_div(value, max);
            }
        }
        assert(floor_div(r, max) == 0) by {
            vstd::arithmetic::div_mod::lemma_basic_div(r, max);
        }
    } else {
        assert(max < r <= 0);
        assert(floor_div(r, max) == (-r) / (-max));
        assert((-r) / (-max) == 0) by {
            vstd::arithmetic::div_mod::lemma_basic_div(-r, -max);
        }
    }
}

/// Unwinding always lands in `[0, 360)` degrees and is idempotent: an
/// already-unwound angle is returned unchanged.
pub proof fn lemma_unwound_idempotent(value: int)
    ensures
        0 <= unwound_milli(value) < 360_000,
        unwound_milli(unwound_milli(value)) == unwound_milli(value),
        0 <= value < 360_000 ==> unwound_milli(value) == value,
{
    lemma_floor_multiple_range(value, 360_000);
    lemma_normalized_idempotent(value, 360_000);
}

/// The quadrant shift always lands in `[-180, 180]` degrees and is
/// idempotent: an already-shifted angle is returned unchanged.
pub proof fn lemma_quadrant_shifted_idempotent(value: int)
    ensures
        -180_000 <= quadrant_shifted_milli(value) <= 180_000,
        quadrant_shifted_milli(quadrant_shifted_milli(value)) == quadrant_shifted_milli(value),
        -180_000 <= value <= 180_000 ==> quadrant_shifted_milli(value) == value,
{
    if !(-180_000 <= value <= 180_000) {
        lemma_round_multiple_range(value, 360_000);
    }
}

/// `value - max * floor(value / max)`: normalization into `[0, max)`
/// (or `(max, 0]` for negative `max`).
pub fn normalized_to_scale(value: i64, max: i64) -> (r: i64)
    requires
        max != 0,
        -ANGLE_BOUND <= value <= ANGLE_BOUND,
        -ANGLE_BOUND <= max <= ANGLE_BOUND,
    ensures
        r as int == normalized_to_scale_spec(value as int, max as int),
{
    let q = div_floor(value, max);
    proof {
        lemma_floor_multiple_range(value as int, max as int);
    }
    value - max * q
}

impl Angle {
    /// The angle of `value` thousandths of a degree.
    pub fn new(value: i64) -> (r: Angle)
        ensures
            r.millidegrees == value,
    {
        Angle { millidegrees: value }
    }

    /// Whether the magnitude is within `ANGLE_BOUND`, the range the
    /// arithmetic below accepts.
    pub open spec fn in_range(self) -> bool {
        -ANGLE_BOUND <= self.millidegrees <= ANGLE_BOUND
    }

    /// The angle folded into `[0, 360)` degrees.
    pub fn unwound(&self) -> (r: Angle)
        requires
            self.in_range(),
        ensures
            r.millidegrees as int == unwound_milli(self.millidegrees as int),
            0 <= r.millidegrees < FULL_TURN,
    {
        proof {
            lemma_floor_multiple_range(self.millidegrees as int, 360_000);
        }
        Angle { millidegrees: normalized_to_scale(self.millidegrees, FULL_TURN) }
    }

    /// The angle shifted by whole turns into `[-180, 180]` degrees.
    pub fn quadrant_shifted(&self) -> (r: Angle)
        requires
            self.in_range(),
        ensures
            r.millidegrees as int == quadrant_shifted_milli(self.millidegrees as int),
            -HALF_TURN <= r.millidegrees <= HALF_TURN,
    {
        if -HALF_TURN <= self.millidegrees && self.millidegrees <= HALF_TURN {
            *self
        } else {
            let q = div_round(self.millidegrees, FULL_TURN);
            proof {
                lemma_round_multiple_range(self.millidegrees as int, 360_000);
            }
            Angle { millidegrees: self.millidegrees - FULL_TURN * q }
        }
    }

    /// Sum of the two angles.
    pub fn plus(self, rhs: Angle) -> (r: Angle)
        requires
            self.in_range(),
            rhs.in_range(),
        ensures
            r.millidegrees == self.millidegrees + rhs.millidegrees,
    {
        Angle { millidegrees: self.millidegrees + rhs.millidegrees }
    }

    /// Difference of the two angles.
    pub fn minus(self, rhs: Angle) -> (r: Angle)
        requires
            self.in_range(),
            rhs.in_range(),
        ensures
            r.millidegrees == self.millidegrees - rhs.millidegrees,
    {
        Angle { millidegrees: self.millidegrees - rhs.millidegrees }
    }

    /// Product of the two angles (degrees times degrees), the spare
    /// fraction of a thousandth dropped toward zero.
    pub fn times(self, rhs: Angle) -> (r: Angle)
        requires
            self.in_range(),
            rhs.in_range(),
        ensures
            r.millidegrees as int == trunc_div(
                self.millidegrees * rhs.millidegrees,
                MILLI_PER_DEGREE as int,
            ),
    {
        proof {
            assert(-NUM_BOUND <= self.millidegrees * rhs.millidegrees <= NUM_BOUND)
                by (nonlinear_arith)
                requires
                    -1_000_000_000 <= self.millidegrees <= 1_000_000_000,
                    -1_000_000_000 <= rhs.millidegrees <= 1_000_000_000,
            ;
        }
        (Angle { millidegrees: self.millidegrees * rhs.millidegrees }).scaled_down()
    }

    /// Quotient of the two angles (degrees over degrees), the spare
    /// fraction of a thousandth dropped toward zero. Division by an exactly
    /// zero angle is an invalid operation and yields `None`.
    pub fn divided_by(self, rhs: Angle) -> (r: Option<Angle>)
        requires
            self.in_range(),
            rhs.in_range(),
        ensures
            rhs.millidegrees == 0 <==> r is None,
            rhs.millidegrees != 0 ==> r == Some(
                Angle {
                    millidegrees: trunc_div(
                        self.millidegrees * MILLI_PER_DEGREE,
                        rhs.millidegrees as int,
                    ) as i64,
                },
            ),
    {
        if rhs.millidegrees == 0 {
            None
        } else {
            let scaled = self.millidegrees * MILLI_PER_DEGREE;
            let q = div_trunc(scaled, rhs.millidegrees);
            Some(Angle { millidegrees: q })
        }
    }

    /// Helper for `times`: divides the raw product back down by a thousand.
    fn scaled_down(self) -> (r: Angle)
        requires
            -NUM_BOUND <= self.millidegrees <= NUM_BOUND,
        ensures
            r.millidegrees as int == trunc_div(self.millidegrees as int, MILLI_PER_DEGREE as int),
    {
        Angle { millidegrees: div_trunc(self.millidegrees, MILLI_PER_DEGREE) }
    }
}

/// The rounded multiple of `max` lies within half of `max` of the value.
pub proof fn lemma_round_multiple_range(value: int, max: int)
    requires
        max > 0,
        max % 2 == 0,
    ensures
        -max / 2 <= value - max * round_div(value, max) <= max / 2,
{
    let h = max / 2;
    if value >= 0 {
        let q = (value + h) / max;
        vstd::arithmetic::div_mod::lemma_fundamental_div_mod(value + h, max);
        vstd::arithmetic::div_mod::lemma_mod_bound(value + h, max);
    } else {
        let q = ((-value) + h) / max;
        vstd::arithmetic::div_mod::lemma_fundamental_div_mod((-value) + h, max);
        vstd::arithmetic::div_mod::lemma_mod_bound((-value) + h, max);
        assert(value - max * round_div(value, max) == -(((-value)) - max * q)) by (nonlinear_arith)
            requires
                round_div(value, max) == -q,
                value < 0,
        ;
    }
}

} // verus!
