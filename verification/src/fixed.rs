//! Fixed-point signal arithmetic.
//!
//! Every signal flowing through the engine is an `i64` amount of micro-units:
//! `SCALE` units stand for the real value 1.0.  All arithmetic saturates at
//! `AMP_MAX` so that a bus value can never leave `[-AMP_MAX, AMP_MAX]`, and
//! scaled products truncate toward zero.  The spec functions here state those
//! operations exactly; the executable helpers are proved to compute them.

use vstd::prelude::*;

verus! {

use vstd::arithmetic::mul::lemma_mul_upper_bound;
use vstd::arithmetic::div_mod::lemma_fundamental_div_mod;
use vstd::arithmetic::div_mod::lemma_fundamental_div_mod_converse_mod;
use vstd::arithmetic::div_mod::lemma_div_nonincreasing;

/// Fixed-point scale: `SCALE` units represent the real value 1.0.
pub const SCALE: i64 = 1_000_000;

/// Half of `SCALE`: the half-cycle point of a phase expressed in cycles.
pub const HALF_SCALE: i64 = 500_000;

/// Saturation bound for every signal value: one million times full scale.
pub const AMP_MAX: i64 = 1_000_000_000_000;

/// Samples per second of the engine.
pub const SAMPLE_RATE: u32 = 44100;

/// Whether `x` lies in the signal range `[-AMP_MAX, AMP_MAX]`.
pub open spec fn in_amp_range(x: int) -> bool {
    -(AMP_MAX as int) <= x <= AMP_MAX as int
}

/// `x` clamped into the signal range.
pub open spec fn amp_clip(x: int) -> int {
    if x > AMP_MAX as int {
        AMP_MAX as int
    } else if x < -(AMP_MAX as int) {
        -(AMP_MAX as int)
    } else {
        x
    }
}

/// The magnitude of `x`.
pub open spec fn mag(x: int) -> int {
    if x < 0 {
        -x
    } else {
        x
    }
}

/// `m` negated when `neg` holds.
pub open spec fn with_sign(neg: bool, m: int) -> int {
    if neg {
        -m
    } else {
        m
    }
}

/// The scaled product of two signals: `a * b / SCALE`, truncated toward zero
/// and saturated at `AMP_MAX`.  This is the fixed-point image of multiplying
/// the real values the signals stand for.
pub open spec fn scaled_mul(a: int, b: int) -> int {
    with_sign((a < 0) != (b < 0), amp_clip(mag(a) * mag(b) / (SCALE as int)))
}

/// Quotient of `n` by `d`, truncated toward zero (for `d > 0`).
pub open spec fn div_trunc_spec(n: int, d: int) -> int {
    with_sign(n < 0, mag(n) / d)
}

/// The scaled product of any two values lies in the signal range.
pub proof fn lemma_scaled_mul_in_range(a: int, b: int)
    ensures
        in_amp_range(scaled_mul(a, b)),
{
    vstd::arithmetic::mul::lemma_mul_nonnegative(mag(a), mag(b));
    vstd::arithmetic::div_mod::lemma_div_pos_is_pos(mag(a) * mag(b), SCALE as int);
}

/// Saturating addition of two in-range signals.
pub fn sat_add(a: i64, b: i64) -> (r: i64)
    requires
        in_amp_range(a as int),
        in_amp_range(b as int),
    ensures
        r as int == amp_clip(a + b),
        in_amp_range(r as int),
{
    let s = a + b;
    if s > AMP_MAX {
        AMP_MAX
    } else if s < -AMP_MAX {
        -AMP_MAX
    } else {
        s
    }
}

/// Scaled, saturating product of two in-range signals.
pub fn scale_mul(a: i64, b: i64) -> (r: i64)
    requires
        in_amp_range(a as int),
        in_amp_range(b as int),
    ensures
        r as int == scaled_mul(a as int, b as int),
        in_amp_range(r as int),
{
    let neg = (a < 0) != (b < 0);
    let ma: u64 = if a < 0 { (-a) as u64 } else { a as u64 };
    let mb: u64 = if b < 0 { (-b) as u64 } else { b as u64 };
    proof {
        lemma_mul_upper_bound(ma as int, AMP_MAX as int, mb as int, AMP_MAX as int);
    }
    let q = (ma as u128 * mb as u128) / (SCALE as u128);
    let capped: i64 = if q > AMP_MAX as u128 {
        AMP_MAX
    } else {
        q as i64
    };
    if neg {
        -capped
    } else {
        capped
    }
}

/// Quotient of an in-range signal by a positive divisor, truncated toward
/// zero.
pub fn div_trunc(n: i64, d: i64) -> (r: i64)
    requires
        d > 0,
        n != i64::MIN,
    ensures
        r as int == div_trunc_spec(n as int, d as int),
        mag(r as int) <= mag(n as int),
{
    let m: u64 = if n < 0 { (-n) as u64 } else { n as u64 };
    let q = m / (d as u64);
    proof {
        lemma_div_nonincreasing(m as int, d as int);
    }
    if n < 0 {
        -(q as i64)
    } else {
        q as i64
    }
}

/// A phase value reduced modulo one cycle (`SCALE` units), kept in
/// `[0, SCALE)`.
pub open spec fn phase_wrap(x: int) -> int {
    x % (SCALE as int)
}

/// Wraps a phase into `[0, SCALE)`, agreeing with the mathematical
/// (Euclidean) remainder modulo `SCALE`.
pub fn wrap_phase(x: i64) -> (r: i64)
    requires
        x != i64::MIN,
    ensures
        r as int == phase_wrap(x as int),
        0 <= r < SCALE,
{
    if x >= 0 {
        let r = ((x as u64) % (SCALE as u64)) as i64;
        r
    } else {
        let m = (((-x) as u64) % (SCALE as u64)) as i64;
        proof {
            let s = SCALE as int;
            let nx = (-x) as int;
            lemma_fundamental_div_mod(nx, s);
            // nx == s * (nx / s) + m, so x == -(nx / s) * s - m.
            if m == 0 {
                assert(x as int == (-(nx / s)) * s + 0) by {
                    assert(nx == s * (nx / s));
                    assert((-(nx / s)) * s == -(s * (nx / s))) by (nonlinear_arith);
                }
                lemma_fundamental_div_mod_converse_mod(x as int, s, -(nx / s), 0);
            } else {
                assert(x as int == (-(nx / s) - 1) * s + (s - m)) by {
                    assert(nx == s * (nx / s) + m);
                    assert((-(nx / s) - 1) * s == -(s * (nx / s)) - s) by (nonlinear_arith);
                }
                lemma_fundamental_div_mod_converse_mod(x as int, s, -(nx / s) - 1, s - m);
            }
        }
        if m == 0 {
            0
        } else {
            SCALE - m
        }
    }
}

} // verus!
