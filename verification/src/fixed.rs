//! Fixed-point arithmetic helpers shared by the engine and the tasks.
//!
//! A fixed-point value `x` stands for the real number `x / FIXED_ONE`.
//! Scaling by a factor in `[0, FIXED_ONE]` and dividing a mix by the number
//! of voices both truncate toward zero, as the hardware's integer division
//! does, so every contract here is exact.
use vstd::prelude::*;

use crate::config::FIXED_ONE;
use vstd::arithmetic::div_mod::lemma_div_by_multiple;
use vstd::arithmetic::div_mod::lemma_div_is_ordered;
use vstd::arithmetic::div_mod::lemma_div_pos_is_pos;
use vstd::arithmetic::mul::lemma_mul_is_commutative;
use vstd::arithmetic::mul::lemma_mul_upper_bound;

verus! {

/// The largest magnitude `scale_fixed` accepts; roomy enough for any mix of
/// grains and far below what would overflow `i64` when multiplied by
/// `FIXED_ONE`.
pub const SCALE_LIMIT: i64 = 1_000_000_000;

/// `v` clamped onto `[0, FIXED_ONE]`.
pub open spec fn clamp_fix(v: int) -> int {
    if v < 0 {
        0
    } else if v > FIXED_ONE {
        FIXED_ONE as int
    } else {
        v
    }
}

/// Clamps a fixed-point value onto `[0, FIXED_ONE]`.
pub fn clamp_fixed(v: i64) -> (r: i64)
    ensures
        r == clamp_fix(v as int),
{
    if v < 0 {
        0
    } else if v > FIXED_ONE {
        FIXED_ONE
    } else {
        v
    }
}

/// `v` scaled by the fixed-point factor `f`, truncating toward zero.
pub open spec fn scale_fix(v: int, f: int) -> int {
    if v >= 0 {
        (v * f) / (FIXED_ONE as int)
    } else {
        -(((-v) * f) / (FIXED_ONE as int))
    }
}

/// The scaled value never grows in magnitude when the factor is at most
/// `FIXED_ONE`, and keeps the sign of `v`.
pub proof fn lemma_scale_fix_bounds(v: int, f: int)
    requires
        0 <= f <= FIXED_ONE,
    ensures
        v >= 0 ==> 0 <= scale_fix(v, f) <= v,
        v < 0 ==> v <= scale_fix(v, f) <= 0,
{
    let one = FIXED_ONE as int;
    let m = if v >= 0 {
        v
    } else {
        -v
    };
    lemma_mul_upper_bound(m, m, f, one);
    assert(0 <= m * f);
    lemma_div_pos_is_pos(m * f, one);
    lemma_div_is_ordered(m * f, m * one, one);
    lemma_div_by_multiple(m, one);
}

/// Scales `v` by the factor `f`, truncating toward zero.
pub fn scale_fixed(v: i64, f: i64) -> (r: i64)
    requires
        0 <= f <= FIXED_ONE,
        -SCALE_LIMIT <= v <= SCALE_LIMIT,
    ensures
        r == scale_fix(v as int, f as int),
        v >= 0 ==> 0 <= r <= v,
        v < 0 ==> v <= r <= 0,
{
    proof {
        lemma_scale_fix_bounds(v as int, f as int);
    }
    if v >= 0 {
        proof {
            lemma_mul_upper_bound(v as int, SCALE_LIMIT as int, f as int, FIXED_ONE as int);
        }
        let m: u64 = (v as u64) * (f as u64) / (FIXED_ONE as u64);
        m as i64
    } else {
        let mag: i64 = -v;
        proof {
            lemma_mul_upper_bound(mag as int, SCALE_LIMIT as int, f as int, FIXED_ONE as int);
        }
        let m: u64 = (mag as u64) * (f as u64) / (FIXED_ONE as u64);
        -(m as i64)
    }
}

/// `s` divided by a voice count `n`, truncating toward zero.
pub open spec fn div_trunc(s: int, n: int) -> int
    recommends
        1 <= n,
{
    if s >= 0 {
        s / n
    } else {
        -((-s) / n)
    }
}

/// Dividing by the voice count keeps the result inside any bound the
/// summands respected: if `|s| <= n * b` then `|s / n| <= b`.
pub proof fn lemma_div_trunc_bound(s: int, n: int, b: int)
    requires
        1 <= n,
        0 <= b,
        -(n * b) <= s <= n * b,
    ensures
        -b <= div_trunc(s, n) <= b,
        s >= 0 ==> 0 <= div_trunc(s, n),
        s < 0 ==> div_trunc(s, n) <= 0,
{
    let m = if s >= 0 {
        s
    } else {
        -s
    };
    lemma_mul_is_commutative(n, b);
    lemma_div_pos_is_pos(m, n);
    lemma_div_is_ordered(m, b * n, n);
    lemma_div_by_multiple(b, n);
}

/// Divides a summed mix by the number of voices, truncating toward zero.
pub fn div_by_count(s: i64, n: usize) -> (r: i64)
    requires
        1 <= n,
        -SCALE_LIMIT <= s <= SCALE_LIMIT,
    ensures
        r == div_trunc(s as int, n as int),
{
    if s >= 0 {
        let m: u64 = (s as u64) / (n as u64);
        proof {
            lemma_div_pos_is_pos(s as int, n as int);
            lemma_div_is_ordered(s as int, SCALE_LIMIT as int, n as int);
            vstd::arithmetic::div_mod::lemma_div_nonincreasing(s as int, n as int);
        }
        m as i64
    } else {
        let mag: i64 = -s;
        let m: u64 = (mag as u64) / (n as u64);
        proof {
            lemma_div_pos_is_pos(mag as int, n as int);
            vstd::arithmetic::div_mod::lemma_div_nonincreasing(mag as int, n as int);
        }
        -(m as i64)
    }
}

} // verus!
