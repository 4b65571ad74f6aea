//! Integer division helpers with explicit rounding directions.
//!
//! The rest of the crate measures angles in thousandths of a degree and
//! instants in whole seconds, so every rounding step of the underlying
//! real-valued formulas shows up here as a division with a stated
//! direction: toward negative infinity (`floor`), toward zero (`trunc`),
//! or to the nearest integer with ties away from zero (`round`).

use vstd::prelude::*;
use vstd::arithmetic::div_mod::{
    lemma_fundamental_div_mod, lemma_fundamental_div_mod_converse_div,
    lemma_fundamental_div_mod_converse_mod, lemma_mod_bound,
};

verus! {

/// Bound on the operands the executable helpers accept; comfortably wide
/// enough for every quantity in the crate (instants stay below 2^43) while
/// keeping all intermediate products inside `i64`.
pub const NUM_BOUND: i64 = 1_000_000_000_000_000_000;

/// Quotient of `a` and `b`, rounded toward negative infinity
/// (mathematical floor division). Meaningful only for `b != 0`.
pub open spec fn floor_div(a: int, b: int) -> int {
    if b > 0 {
        a / b
    } else {
        (-a) / (-b)
    }
}

/// Magnitude of `a`.
pub open spec fn abs_int(a: int) -> int {
    if a >= 0 {
        a
    } else {
        -a
    }
}

/// Quotient of `a` and `b`, rounded toward zero, as Rust's `/` computes it.
/// Meaningful only for `b != 0`.
pub open spec fn trunc_div(a: int, b: int) -> int {
    if (a >= 0) == (b >= 0) {
        abs_int(a) / abs_int(b)
    } else {
        -(abs_int(a) / abs_int(b))
    }
}

/// `a / b` rounded to the nearest integer, ties away from zero, for `b > 0`.
pub open spec fn round_div(a: int, b: int) -> int {
    if a >= 0 {
        (a + b / 2) / b
    } else {
        -(((-a) + b / 2) / b)
    }
}

/// Floor division, executable. The adjustment after Rust's truncating `/`
/// moves the quotient down by one whenever the division was inexact and the
/// operands disagree in sign.
pub fn div_floor(a: i64, b: i64) -> (q: i64)
    requires
        b != 0,
        -NUM_BOUND <= a <= NUM_BOUND,
        -NUM_BOUND <= b <= NUM_BOUND,
    ensures
        q == floor_div(a as int, b as int),
{
    let x: i64 = if b < 0 {
        -a
    } else {
        a
    };
    let y: i64 = if b < 0 {
        -b
    } else {
        b
    };
    let q = x / y;
    let r = x % y;
    proof {
        lemma_floor_div_from_trunc(x as int, y as int);
        assert(floor_div(a as int, b as int) == floor_div(x as int, y as int));
        let xi = x as int;
        let yi = y as int;
        let qi = q as int;
        let ri = r as int;
        if x >= 0 {
            assert(qi == xi / yi);
            assert(ri == xi % yi);
            assert(qi == trunc_div(xi, yi));
            lemma_fundamental_div_mod(xi, yi);
            assert(ri == xi - yi * trunc_div(xi, yi));
        } else {
            assert(qi == -((-xi) / yi));
            assert(ri == -((-xi) % yi));
            assert(qi == trunc_div(xi, yi));
            lemma_fundamental_div_mod(-xi, yi);
            assert(ri == xi - yi * trunc_div(xi, yi)) by (nonlinear_arith)
                requires
                    -xi == yi * ((-xi) / yi) + ((-xi) % yi),
                    qi == -((-xi) / yi),
                    ri == -((-xi) % yi),
                    qi == trunc_div(xi, yi),
            ;
        }
    }
    if r != 0 && x < 0 {
        q - 1
    } else {
        q
    }
}

/// Floor division equals truncating division, lowered by one exactly when
/// the division is inexact and the operands disagree in sign.
proof fn lemma_floor_div_from_trunc(a: int, b: int)
    requires
        b != 0,
    ensures
        abs_int(trunc_div(a, b)) <= abs_int(a),
        a - b * trunc_div(a, b) != 0 && ((a < 0) != (b < 0)) ==> floor_div(a, b) == trunc_div(
            a,
            b,
        ) - 1,
        a - b * trunc_div(a, b) == 0 || ((a < 0) == (b < 0)) ==> floor_div(a, b) == trunc_div(
            a,
            b,
        ),
{
    let n = abs_int(a);
    let m = abs_int(b);
    let q0 = n / m;
    let r0 = n % m;
    lemma_fundamental_div_mod(n, m);
    lemma_mod_bound(n, m);
    assert(q0 <= n) by (nonlinear_arith)
        requires
            n >= 0,
            m >= 1,
            n == m * q0 + r0,
            r0 >= 0,
    ;
    assert(q0 >= 0) by (nonlinear_arith)
        requires
            n >= 0,
            m >= 1,
            n == m * q0 + r0,
            0 <= r0 < m,
    ;
    if a >= 0 && b > 0 {
        assert(floor_div(a, b) == trunc_div(a, b));
        assert(a - b * trunc_div(a, b) == r0) by (nonlinear_arith)
            requires
                n == m * q0 + r0,
                a == n,
                b == m,
                trunc_div(a, b) == q0,
        ;
    } else if a < 0 && b > 0 {
        assert(trunc_div(a, b) == -q0);
        assert(a - b * trunc_div(a, b) == -r0) by (nonlinear_arith)
            requires
                n == m * q0 + r0,
                a == -n,
                b == m,
                trunc_div(a, b) == -q0,
        ;
        if r0 == 0 {
            assert(a == (-q0) * b + 0) by (nonlinear_arith)
                requires
                    n == m * q0 + r0,
                    r0 == 0,
                    a == -n,
                    b == m,
            ;
            lemma_fundamental_div_mod_converse_div(a, b, -q0, 0);
        } else {
            assert(a == (-q0 - 1) * b + (m - r0)) by (nonlinear_arith)
                requires
                    n == m * q0 + r0,
                    a == -n,
                    b == m,
            ;
            lemma_fundamental_div_mod_converse_div(a, b, -q0 - 1, m - r0);
        }
    } else if a >= 0 && b < 0 {
        assert(trunc_div(a, b) == -q0);
        assert(a - b * trunc_div(a, b) == r0) by (nonlinear_arith)
            requires
                n == m * q0 + r0,
                a == n,
                b == -m,
                trunc_div(a, b) == -q0,
        ;
        if r0 == 0 {
            assert(-a == (-q0) * m + 0) by (nonlinear_arith)
                requires
                    n == m * q0 + r0,
                    r0 == 0,
                    a == n,
            ;
            lemma_fundamental_div_mod_converse_div(-a, m, -q0, 0);
        } else {
            assert(-a == (-q0 - 1) * m + (m - r0)) by (nonlinear_arith)
                requires
                    n == m * q0 + r0,
                    a == n,
            ;
            lemma_fundamental_div_mod_converse_div(-a, m, -q0 - 1, m - r0);
        }
        assert(floor_div(a, b) == (-a) / m);
    } else {
        assert(trunc_div(a, b) == q0);
        assert(floor_div(a, b) == (-a) / (-b));
        assert((-a) / (-b) == n / m);
    }
}

/// Truncating division, executable, stated against `trunc_div`.
pub fn div_trunc(a: i64, b: i64) -> (q: i64)
    requires
        b != 0,
        -NUM_BOUND <= a <= NUM_BOUND,
        -NUM_BOUND <= b <= NUM_BOUND,
    ensures
        q == trunc_div(a as int, b as int),
        abs_int(q as int) <= abs_int(a as int),
{
    let x: i64 = if b < 0 {
        -a
    } else {
        a
    };
    let y: i64 = if b < 0 {
        -b
    } else {
        b
    };
    proof {
        lemma_trunc_div_bound(a as int, b as int);
        assert(trunc_div(a as int, b as int) == trunc_div(x as int, y as int));
    }
    x / y
}

/// Division rounding to the nearest integer, ties away from zero, executable.
pub fn div_round(a: i64, b: i64) -> (q: i64)
    requires
        1 <= b <= NUM_BOUND,
        -NUM_BOUND <= a <= NUM_BOUND,
    ensures
        q == round_div(a as int, b as int),
{
    if a >= 0 {
        (a + b / 2) / b
    } else {
        -((-a + b / 2) / b)
    }
}

/// Euclidean remainder (always in `[0, b)`), executable; agrees with the
/// `%` of specification code.
pub fn mod_euclid(a: i64, b: i64) -> (r: i64)
    requires
        1 <= b <= NUM_BOUND,
        -NUM_BOUND <= a <= NUM_BOUND,
    ensures
        r == a as int % b as int,
{
    let r = a % b;
    proof {
        let ai = a as int;
        let bi = b as int;
        let n = abs_int(ai);
        let q0 = n / bi;
        let r0 = n % bi;
        lemma_fundamental_div_mod(n, bi);
        lemma_mod_bound(n, bi);
        if ai < 0 {
            if r0 == 0 {
                assert(ai == (-q0) * bi + 0) by (nonlinear_arith)
                    requires
                        n == bi * q0 + r0,
                        r0 == 0,
                        ai == -n,
                ;
                lemma_fundamental_div_mod_converse_mod(ai, bi, -q0, 0);
            } else {
                assert(ai == (-q0 - 1) * bi + (bi - r0)) by (nonlinear_arith)
                    requires
                        n == bi * q0 + r0,
                        ai == -n,
                ;
                lemma_fundamental_div_mod_converse_mod(ai, bi, -q0 - 1, bi - r0);
            }
        }
    }
    if r < 0 {
        r + b
    } else {
        r
    }
}

/// The magnitude of a truncating quotient never exceeds the magnitude of
/// the dividend.
pub proof fn lemma_trunc_div_bound(a: int, b: int)
    requires
        b != 0,
    ensures
        abs_int(trunc_div(a, b)) <= abs_int(a),
{
    let n = abs_int(a);
    let m = abs_int(b);
    lemma_fundamental_div_mod(n, m);
    lemma_mod_bound(n, m);
    assert(n / m <= n) by (nonlinear_arith)
        requires
            n >= 0,
            m >= 1,
            n == m * (n / m) + n % m,
            n % m >= 0,
    ;
    assert(n / m >= 0) by (nonlinear_arith)
        requires
            n >= 0,
            m >= 1,
            n == m * (n / m) + n % m,
            0 <= n % m < m,
    ;
}

} // verus!
