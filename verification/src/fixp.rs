//! Fixed-point arithmetic for the behavior evaluator.
//!
//! Signals and weights are exact binary rationals: a weight is its 16-bit
//! numerator over 2^16 (Q16), and a per-locus contribution is a product of a
//! Q16 signal and a Q16 weight, a numerator over 2^32 (Q32). Accumulators sum
//! such contributions exactly in 64-bit integers.
//!
//! The saturating nonlinearity applied to each accumulator slot is a rational
//! approximation of the hyperbolic tangent, `x * (27 + x^2) / (27 + 9 * x^2)`,
//! clamped to `[-1, 1]` (it reaches exactly 1 at `x = 3`). It is odd, keeps
//! every fixed-point computation exact, and like the hyperbolic tangent it
//! exceeds the engine's 0.5 decision threshold at every input of magnitude 1
//! or more.

use vstd::prelude::*;

use vstd::arithmetic::div_mod::lemma_multiply_divide_lt;
use vstd::arithmetic::mul::lemma_mul_upper_bound;

verus! {

/// One in Q16 fixed point.
pub const ONE_Q16: i64 = 65536;

/// The decision threshold of one half, in Q16 fixed point.
pub const HALF_Q16: i64 = 32768;

/// Magnitudes of 3 or more (in Q16, relative to Q32 input scale) saturate to
/// one.
pub const SAT_Q16: u64 = 196608;

/// The largest accumulator magnitude the nonlinearity accepts: 2^62, ample
/// for any genome the engine admits.
pub const ACC_LIMIT: i64 = 0x4000_0000_0000_0000;

/// The saturating nonlinearity on a non-negative Q32 magnitude `a`: the value
/// `x * (27 + x^2) / (27 + 9 * x^2)` at `x = a / 2^16` (in Q16), or one for
/// `x >= 3`. The result is a Q16 numerator in `[0, 65536]`.
pub open spec fn sat_mag_q16(a: int) -> int {
    let x = a / 65536;
    if x >= 196608 {
        65536
    } else {
        (x * (27 * 4294967296 + x * x)) / (27 * 4294967296 + 9 * (x * x))
    }
}

/// The saturating nonlinearity on a Q32 value, extended to negatives as an
/// odd function. The result is a Q16 numerator in `[-65536, 65536]`.
pub open spec fn sat_q16(v: int) -> int {
    if v < 0 {
        -sat_mag_q16(-v)
    } else {
        sat_mag_q16(v)
    }
}

/// The nonlinearity never leaves `[-1, 1]` (in Q16: `[-65536, 65536]`).
pub proof fn lemma_sat_bounds(v: int)
    ensures
        -65536 <= sat_q16(v) <= 65536,
        v >= 0 ==> 0 <= sat_q16(v),
        v < 0 ==> sat_q16(v) <= 0,
{
    lemma_sat_mag_bounds(if v < 0 {
        -v
    } else {
        v
    });
}

proof fn lemma_sat_mag_bounds(a: int)
    ensures
        a >= 0 ==> 0 <= sat_mag_q16(a) <= 65536,
{
    if a >= 0 {
        let x = a / 65536;
        vstd::arithmetic::div_mod::lemma_div_pos_is_pos(a, 65536);
        if x < 196608 {
            let num = x * (27 * 4294967296 + x * x);
            let den = 27 * 4294967296 + 9 * (x * x);
            lemma_pade_below_one(x);
            assert(x * (27 * 4294967296 + x * x) >= 0) by (nonlinear_arith)
                requires
                    x >= 0,
            ;
            vstd::arithmetic::div_mod::lemma_div_pos_is_pos(num, den);
            lemma_multiply_divide_lt(num, den, 65536);
        }
    }
}

/// For `0 <= x < 3` (Q16: `x < 196608`) the rational approximant stays
/// strictly below one: its numerator is below its denominator times 2^16,
/// because the difference is `-(x - 3)^3 > 0`.
proof fn lemma_pade_below_one(x: int)
    requires
        0 <= x < 196608,
    ensures
        x * (27 * 4294967296 + x * x) < (27 * 4294967296 + 9 * (x * x)) * 65536,
{
    let d = x - 196608;
    assert(d * d * d < 0) by (nonlinear_arith)
        requires
            d < 0,
    ;
    assert(x * (27 * 4294967296 + x * x) - (27 * 4294967296 + 9 * (x * x)) * 65536 == d * d * d)
        by (nonlinear_arith)
        requires
            d == x - 196608,
    ;
}

/// The saturating nonlinearity on a Q32 accumulator value, exactly
/// `sat_q16`.
pub fn tanh_q16(v: i64) -> (r: i64)
    requires
        -ACC_LIMIT <= v <= ACC_LIMIT,
    ensures
        r == sat_q16(v as int),
        -65536 <= r <= 65536,
{
    proof {
        lemma_sat_bounds(v as int);
    }
    let neg = v < 0;
    let mag: u64 = if neg {
        (-v) as u64
    } else {
        v as u64
    };
    let x: u64 = mag / 65536;
    let m: u64;
    if x >= SAT_Q16 {
        m = 65536;
    } else {
        proof {
            assert(x * x <= 196607 * 196607) by (nonlinear_arith)
                requires
                    0 <= x <= 196607,
            ;
        }
        let xx: u64 = x * x;
        proof {
            lemma_mul_upper_bound(x as int, 196607, 27 * 4294967296 + xx, 154618429441);
        }
        let num: u64 = x * (27 * 4294967296 + xx);
        let den: u64 = 27 * 4294967296 + 9 * xx;
        proof {
            lemma_pade_below_one(x as int);
            lemma_multiply_divide_lt(num as int, den as int, 65536);
        }
        m = num / den;
    }
    if neg {
        -(m as i64)
    } else {
        m as i64
    }
}

/// Clamps a coordinate into `[0, hi)`.
pub open spec fn clamp_spec(v: int, hi: int) -> int {
    if v < 0 {
        0
    } else if v >= hi {
        hi - 1
    } else {
        v
    }
}

/// Clamps a coordinate into the board's `[0, hi)` range.
pub fn clamp_coord(v: i32, hi: i32) -> (r: i32)
    requires
        hi >= 1,
    ensures
        r == clamp_spec(v as int, hi as int),
        0 <= r < hi,
{
    if v < 0 {
        0
    } else if v >= hi {
        hi - 1
    } else {
        v
    }
}

} // verus!
