//! Fixed-point arithmetic helpers shared by the simulation: flooring
//! division, clamping, angle wrapping into `[0, 2*pi)`, and small-angle
//! trigonometry (sine, cosine, arctangent) over milli-radians.

use vstd::prelude::*;
use vstd::arithmetic::div_mod::{
    lemma_fundamental_div_mod, lemma_fundamental_div_mod_converse_div,
    lemma_fundamental_div_mod_converse_mod, lemma_small_mod, lemma_div_pos_is_pos,
    lemma_multiply_divide_le, lemma_div_nonincreasing,
};

verus! {

/// 2*pi in milli-radians; angles live in `[0, TWO_PI_MRAD)`.
pub const TWO_PI_MRAD: i64 = 6283;

/// pi in milli-radians.
pub const PI_MRAD: i64 = 3141;

/// pi/2 in milli-radians.
pub const HALF_PI_MRAD: i64 = 1571;

/// Magnitude bound under which `floor_div` accepts its numerator; large
/// enough for every product formed by the simulation.
pub const DIV_NUM_LIMIT: i64 = 0x4000_0000_0000_0000;

/// A 2D point or vector in milli-units.
#[derive(Clone, Copy, PartialEq, Eq, Structural, Debug)]
pub struct MilliPoint {
    pub x: i64,
    pub y: i64,
}

/// The value `v` clamped into `[lo, hi]`.
pub open spec fn clamped(v: int, lo: int, hi: int) -> int {
    if v < lo {
        lo
    } else if v > hi {
        hi
    } else {
        v
    }
}

/// Clamp `v` into `[lo, hi]`.
pub fn clamp_i64(v: i64, lo: i64, hi: i64) -> (r: i64)
    requires
        lo <= hi,
    ensures
        r == clamped(v as int, lo as int, hi as int),
{
    if v < lo {
        lo
    } else if v > hi {
        hi
    } else {
        v
    }
}

/// Flooring division of `n` by the positive divisor `d`, agreeing with the
/// mathematical `/` of specifications.
pub fn floor_div(n: i64, d: i64) -> (q: i64)
    requires
        1 <= d,
        -DIV_NUM_LIMIT <= n <= DIV_NUM_LIMIT,
    ensures
        q == n as int / d as int,
        n >= 0 ==> 0 <= q <= n,
        n < 0 ==> n <= q <= 0,
{
    if n >= 0 {
        proof {
            lemma_div_pos_is_pos(n as int, d as int);
            lemma_div_nonincreasing(n as int, d as int);
        }
        let q = ((n as u64) / (d as u64)) as i64;
        q
    } else {
        let mag = (-n) as u64;
        let du = d as u64;
        let qt = mag / du;
        let r = mag % du;
        proof {
            lemma_fundamental_div_mod(mag as int, du as int);
            let di = d as int;
            let qi = qt as int;
            assert((-qi) * di == -(di * qi)) by (nonlinear_arith);
            assert((-qi - 1) * di == -(di * qi) - di) by (nonlinear_arith);
            lemma_div_pos_is_pos(mag as int, du as int);
            lemma_div_nonincreasing(mag as int, du as int);
            assert(di * qi >= qi) by (nonlinear_arith)
                requires
                    di >= 1,
                    qi >= 0,
            ;
            if r == 0 {
                lemma_fundamental_div_mod_converse_div(n as int, d as int, -(qt as int), 0);
            } else {
                lemma_fundamental_div_mod_converse_div(
                    n as int,
                    d as int,
                    -(qt as int) - 1,
                    d - r,
                );
            }
        }
        if r == 0 {
            -(qt as i64)
        } else {
            -(qt as i64) - 1
        }
    }
}

/// The remainder of `a` modulo `TWO_PI_MRAD`, which always lies in
/// `[0, TWO_PI_MRAD)`.
pub fn wrap_mrad(a: i64) -> (r: i64)
    ensures
        r == a as int % (TWO_PI_MRAD as int),
        0 <= r < TWO_PI_MRAD,
{
    if a >= 0 {
        let m = ((a as u64) % (TWO_PI_MRAD as u64)) as i64;
        m
    } else {
        let mag = (-(a as i128)) as u64;
        let m = mag % (TWO_PI_MRAD as u64);
        proof {
            lemma_fundamental_div_mod(mag as int, TWO_PI_MRAD as int);
            let q = mag as int / TWO_PI_MRAD as int;
            let mi = TWO_PI_MRAD as int;
            assert((-q) * mi == -(mi * q)) by (nonlinear_arith);
            assert((-q - 1) * mi == -(mi * q) - mi) by (nonlinear_arith);
            if m == 0 {
                lemma_fundamental_div_mod_converse_mod(a as int, TWO_PI_MRAD as int, -q, 0);
            } else {
                lemma_fundamental_div_mod_converse_mod(
                    a as int,
                    TWO_PI_MRAD as int,
                    -q - 1,
                    TWO_PI_MRAD - m,
                );
            }
        }
        if m == 0 {
            0
        } else {
            TWO_PI_MRAD - (m as i64)
        }
    }
}

/// Rational sine approximation on `[0, pi]` in milli-radians, scaled by
/// 1000: `16 x (pi - x) / (5 pi^2 - 4 x (pi - x))` carried out in fixed
/// point, with pi as 3141 milli-radians and 49329405 = 5 * 3141 * 3141.
pub open spec fn half_wave_sin(x: int) -> int {
    16000 * (x * (3141 - x)) / (49329405 - 4 * (x * (3141 - x)))
}

/// Sine of an angle in `[0, 2 pi)` milli-radians, scaled by 1000.
pub open spec fn sin_mrad_spec(x: int) -> int {
    if x <= PI_MRAD {
        half_wave_sin(x)
    } else {
        -half_wave_sin(x - PI_MRAD)
    }
}

/// Cosine of an angle in `[0, 2 pi)` milli-radians, scaled by 1000.
pub open spec fn cos_mrad_spec(x: int) -> int {
    sin_mrad_spec((x + HALF_PI_MRAD) % (TWO_PI_MRAD as int))
}

proof fn lemma_half_wave_sin_bounds(x: int)
    requires
        0 <= x <= PI_MRAD,
    ensures
        0 <= half_wave_sin(x) <= 1000,
        0 <= x * (3141 - x) <= 2466470,
{
    assert(x * (3141 - x) >= 0) by (nonlinear_arith)
        requires
            0 <= x <= 3141,
    ;
    assert(x * (3141 - x) == 2466470 - (1570 - x) * (1571 - x)) by (nonlinear_arith);
    if x <= 1570 {
        assert((1570 - x) * (1571 - x) >= 0) by (nonlinear_arith)
            requires
                x <= 1570,
        ;
    } else {
        assert((1570 - x) * (1571 - x) >= 0) by (nonlinear_arith)
            requires
                x >= 1571,
        ;
    }
    let t = x * (3141 - x);
    let num = 16000 * t;
    let den = 49329405 - 4 * t;
    assert(den >= 49329405 - 4 * 2466470);
    lemma_div_pos_is_pos(num, den);
    assert(num <= den * 1000);
    lemma_multiply_divide_le(num, den, 1000);
}

/// Sine of an angle in milli-radians, scaled by 1000.
pub fn sin_mrad(x: i64) -> (r: i64)
    requires
        0 <= x < TWO_PI_MRAD,
    ensures
        r == sin_mrad_spec(x as int),
        -1000 <= r <= 1000,
{
    if x <= PI_MRAD {
        proof {
            lemma_half_wave_sin_bounds(x as int);
        }
        let t = x * (3141 - x);
        let num = 16000 * t;
        let den = 49329405 - 4 * t;
        let q = ((num as u64) / (den as u64)) as i64;
        q
    } else {
        let y = x - PI_MRAD;
        proof {
            lemma_half_wave_sin_bounds(y as int);
        }
        let t = y * (3141 - y);
        let num = 16000 * t;
        let den = 49329405 - 4 * t;
        let q = ((num as u64) / (den as u64)) as i64;
        -q
    }
}

/// Largest coordinate magnitude (in milli-units) accepted by
/// `atan2_mrad`; generous for any screen this game draws on.
pub const ATAN_ARG_LIMIT: i64 = 10_000_000;

/// Arctangent core for `0 <= a <= b`: `z / (1 + 0.28 z^2)` with
/// `z = a / b`, in milli-radians; 0.28 enters as 7/25.
pub open spec fn atan_core(a: int, b: int) -> int {
    25000 * (a * b) / (25 * (b * b) + 7 * (a * a))
}

/// Arctangent of `dy / dx` in milli-radians for `dx > 0`; steep slopes go
/// through the complement of the reciprocal, so the result lies in
/// `[-pi/2, pi/2]`.
pub open spec fn atan2_mrad_spec(dy: int, dx: int) -> int {
    let ady = if dy >= 0 {
        dy
    } else {
        -dy
    };
    let mag = if ady <= dx {
        atan_core(ady, dx)
    } else {
        1571 - atan_core(dx, ady)
    };
    if dy >= 0 {
        mag
    } else {
        -mag
    }
}

proof fn lemma_atan_core_bounds(a: int, b: int)
    requires
        0 <= a <= b,
        1 <= b <= ATAN_ARG_LIMIT,
    ensures
        0 <= atan_core(a, b) <= 785,
        0 <= a * b <= 100_000_000_000_000,
        0 <= a * a <= 100_000_000_000_000,
        1 <= b * b <= 100_000_000_000_000,
{
    assert(a * b >= 0 && a * a >= 0 && b * b >= 1) by (nonlinear_arith)
        requires
            0 <= a,
            1 <= b,
    ;
    assert(a * b <= 100_000_000_000_000 && a * a <= 100_000_000_000_000 && b * b
        <= 100_000_000_000_000) by (nonlinear_arith)
        requires
            0 <= a <= 10_000_000,
            0 <= b <= 10_000_000,
    ;
    assert((b - a) * (19625 * b - 5495 * a) >= 0) by (nonlinear_arith)
        requires
            0 <= a <= b,
    ;
    assert(19625 * (b * b) + 5495 * (a * a) - 25120 * (a * b) == (b - a) * (19625 * b - 5495
        * a)) by (nonlinear_arith);
    let num = 25000 * (a * b);
    let den = 25 * (b * b) + 7 * (a * a);
    lemma_div_pos_is_pos(num, den);
    assert(num <= den * 785);
    lemma_multiply_divide_le(num, den, 785);
}

/// Arctangent of `dy / dx` in milli-radians, for a positive run `dx`.
pub fn atan2_mrad(dy: i64, dx: i64) -> (r: i64)
    requires
        1 <= dx <= ATAN_ARG_LIMIT,
        -ATAN_ARG_LIMIT <= dy <= ATAN_ARG_LIMIT,
    ensures
        r == atan2_mrad_spec(dy as int, dx as int),
        -HALF_PI_MRAD <= r <= HALF_PI_MRAD,
{
    let ady = if dy >= 0 {
        dy
    } else {
        -dy
    };
    let mag = if ady <= dx {
        proof {
            lemma_atan_core_bounds(ady as int, dx as int);
        }
        let num = 25000 * (ady * dx);
        let den = 25 * (dx * dx) + 7 * (ady * ady);
        ((num as u64) / (den as u64)) as i64
    } else {
        proof {
            lemma_atan_core_bounds(dx as int, ady as int);
        }
        let num = 25000 * (dx * ady);
        let den = 25 * (ady * ady) + 7 * (dx * dx);
        1571 - (((num as u64) / (den as u64)) as i64)
    };
    if dy >= 0 {
        mag
    } else {
        -mag
    }
}

/// Cosine of an angle in milli-radians, scaled by 1000.
pub fn cos_mrad(x: i64) -> (r: i64)
    requires
        0 <= x < TWO_PI_MRAD,
    ensures
        r == cos_mrad_spec(x as int),
        -1000 <= r <= 1000,
{
    let shifted = x + HALF_PI_MRAD;
    let y = if shifted >= TWO_PI_MRAD {
        shifted - TWO_PI_MRAD
    } else {
        shifted
    };
    proof {
        if shifted >= TWO_PI_MRAD {
            lemma_fundamental_div_mod_converse_mod(
                shifted as int,
                TWO_PI_MRAD as int,
                1,
                shifted - TWO_PI_MRAD,
            );
        } else {
            lemma_small_mod(shifted as nat, TWO_PI_MRAD as nat);
        }
    }
    sin_mrad(y)
}

} // verus!
