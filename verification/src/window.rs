//! Fixed-point window envelopes for grains.
//!
//! A grain of `size` samples is shaped by an envelope evaluated at its
//! playhead `t` in `0..=size`. The envelopes are the classic Sine, Hann and
//! Hamming windows; in this crate they are rational fixed-point functions,
//! built from one rational approximation of `sin(pi * t / size)` that is
//! exact at the endpoints and at the midpoint:
//!
//! with `p = t / size` in `[0, 1]`,
//! `sin(pi * p) ~= 16 p (1 - p) / (5 - 4 p (1 - p))`.
//!
//! From it, `cos(2 pi p) = 1 - 2 sin(pi p)^2` gives
//! Hann `0.5 (1 - cos(2 pi p)) = sin(pi p)^2` and
//! Hamming `0.54 - 0.46 cos(2 pi p) = 0.08 + 0.92 sin(pi p)^2`.
//!
//! Every result lies in `[0, FIXED_ONE]`, is `0` (Sine, Hann) or exactly the
//! `0.08` floor (Hamming) at both ends of the window, and is `FIXED_ONE`
//! (Sine) at the midpoint of an even-sized window.
use vstd::prelude::*;

use crate::config::FIXED_ONE;
use vstd::arithmetic::div_mod::lemma_div_by_multiple;
use vstd::arithmetic::div_mod::lemma_div_is_ordered;
use vstd::arithmetic::div_mod::lemma_div_of0;
use vstd::arithmetic::div_mod::lemma_div_pos_is_pos;

verus! {

/// The largest grain size, in samples, that the engine ever derives; keeps
/// all window arithmetic comfortably inside 64 bits.
pub const MAX_GRAIN_SAMPLES: u32 = 524_288;

/// Fixed-point value of the Hamming window at both ends of the grain: 0.08.
pub const HAMMING_FLOOR: i64 = 800;

/// Fixed-point rise of the Hamming window above its floor: 0.92.
pub const HAMMING_RISE: i64 = 9_200;

/// Numerator of the sine-window approximation: `16 t (l - t)`, scaled.
pub open spec fn sine_num(t: int, l: int) -> int {
    16 * (t * (l - t)) * (FIXED_ONE as int)
}

/// Denominator of the sine-window approximation: `5 l^2 - 4 t (l - t)`.
pub open spec fn sine_den(t: int, l: int) -> int {
    5 * (l * l) - 4 * (t * (l - t))
}

/// The sine window `sin(pi * t / l)` at playhead `t` of a grain of size `l`,
/// scaled by `FIXED_ONE`, as the rational approximation
/// `16 u / (5 l^2 - 4 u)` with `u = t (l - t)`.
pub open spec fn sine_fix(t: int, l: int) -> int
    recommends
        0 <= t <= l,
        1 <= l,
{
    sine_num(t, l) / sine_den(t, l)
}

/// The Hann window `0.5 (1 - cos(2 pi t / l))`, scaled by `FIXED_ONE`: the
/// square of the sine window.
pub open spec fn hann_fix(t: int, l: int) -> int
    recommends
        0 <= t <= l,
        1 <= l,
{
    (sine_fix(t, l) * sine_fix(t, l)) / (FIXED_ONE as int)
}

/// The Hamming window `0.54 - 0.46 cos(2 pi t / l)`, scaled by `FIXED_ONE`:
/// the Hann window compressed onto `[0.08, 1]`.
pub open spec fn hamming_fix(t: int, l: int) -> int
    recommends
        0 <= t <= l,
        1 <= l,
{
    HAMMING_FLOOR + ((HAMMING_RISE as int) * hann_fix(t, l)) / (FIXED_ONE as int)
}

/// For `0 <= t <= l`, the product `t (l - t)` lies between 0 and a quarter
/// of `l^2`.
proof fn lemma_quarter_square_bound(t: int, l: int)
    by (nonlinear_arith)
    requires
        0 <= t <= l,
    ensures
        0 <= t * (l - t),
        4 * (t * (l - t)) <= l * l,
{
}

/// The sine window never leaves `[0, FIXED_ONE]`.
pub proof fn lemma_sine_fix_bounds(t: int, l: int)
    requires
        0 <= t <= l,
        1 <= l,
    ensures
        0 <= sine_fix(t, l) <= FIXED_ONE,
{
    let f = FIXED_ONE as int;
    let num = sine_num(t, l);
    let den = sine_den(t, l);
    lemma_quarter_square_bound(t, l);
    assert(l * l >= 1) by (nonlinear_arith)
        requires
            1 <= l,
    ;
    assert(den >= 4);
    assert(num >= 0);
    lemma_div_pos_is_pos(num, den);
    assert(num <= f * den);
    lemma_div_is_ordered(num, f * den, den);
    lemma_div_by_multiple(f, den);
}

/// The Hann window never leaves `[0, FIXED_ONE]`.
pub proof fn lemma_hann_fix_bounds(t: int, l: int)
    requires
        0 <= t <= l,
        1 <= l,
    ensures
        0 <= hann_fix(t, l) <= FIXED_ONE,
{
    let f = FIXED_ONE as int;
    lemma_sine_fix_bounds(t, l);
    let s = sine_fix(t, l);
    assert(0 <= s * s <= f * f) by (nonlinear_arith)
        requires
            0 <= s <= f,
    ;
    lemma_div_pos_is_pos(s * s, f);
    lemma_div_is_ordered(s * s, f * f, f);
    lemma_div_by_multiple(f, f);
}

/// The Hamming window never leaves `[HAMMING_FLOOR, FIXED_ONE]`.
pub proof fn lemma_hamming_fix_bounds(t: int, l: int)
    requires
        0 <= t <= l,
        1 <= l,
    ensures
        HAMMING_FLOOR <= hamming_fix(t, l) <= FIXED_ONE,
{
    let f = FIXED_ONE as int;
    let r = HAMMING_RISE as int;
    lemma_hann_fix_bounds(t, l);
    let h = hann_fix(t, l);
    assert(0 <= r * h);
    assert(r * h <= r * f);
    lemma_div_pos_is_pos(r * h, f);
    lemma_div_is_ordered(r * h, r * f, f);
    lemma_div_by_multiple(r, f);
}

/// At both ends of the grain the Sine and Hann windows are exactly zero and
/// the Hamming window is exactly its floor, for every grain size: the
/// envelopes open and close without a jump.
pub proof fn lemma_window_continuity(l: int)
    requires
        1 <= l,
    ensures
        sine_fix(0, l) == 0,
        sine_fix(l, l) == 0,
        hann_fix(0, l) == 0,
        hann_fix(l, l) == 0,
        hamming_fix(0, l) == HAMMING_FLOOR,
        hamming_fix(l, l) == HAMMING_FLOOR,
{
    let f = FIXED_ONE as int;
    assert(l * l >= 1) by (nonlinear_arith)
        requires
            1 <= l,
    ;
    assert(0 * (l - 0) == 0) by (nonlinear_arith);
    assert(l * (l - l) == 0) by (nonlinear_arith);
    assert(sine_num(0, l) == 0);
    assert(sine_num(l, l) == 0);
    assert(sine_den(0, l) == 5 * (l * l));
    assert(sine_den(l, l) == 5 * (l * l));
    lemma_div_of0(5 * (l * l));
    assert(sine_fix(0, l) == 0);
    assert(sine_fix(l, l) == 0);
    assert(sine_fix(0, l) * sine_fix(0, l) == 0) by (nonlinear_arith)
        requires
            sine_fix(0, l) == 0,
    ;
    assert(sine_fix(l, l) * sine_fix(l, l) == 0) by (nonlinear_arith)
        requires
            sine_fix(l, l) == 0,
    ;
    lemma_div_of0(f);
    assert((HAMMING_RISE as int) * hann_fix(0, l) == 0);
    assert((HAMMING_RISE as int) * hann_fix(l, l) == 0);
}

/// At the midpoint of an even-sized grain the sine window is exactly 1.0:
/// the approximation peaks where the true sine does.
pub proof fn lemma_sine_fix_peak(l: int)
    requires
        2 <= l,
        l % 2 == 0,
    ensures
        sine_fix(l / 2, l) == FIXED_ONE,
{
    let f = FIXED_ONE as int;
    let h = l / 2;
    assert(l == 2 * h);
    assert(h * (l - h) * 4 == l * l && l * l > 0) by (nonlinear_arith)
        requires
            l == 2 * h,
            2 <= l,
    ;
    let u = h * (l - h);
    assert(sine_num(h, l) == (16 * u) * f);
    assert(sine_den(h, l) == 5 * (l * l) - 4 * u);
    assert(sine_den(h, l) == 16 * u);
    assert((16 * u) > 0);
    lemma_div_by_multiple(f, 16 * u);
    assert((f * (16 * u)) / (16 * u) == f);
    assert((16 * u) * f == f * (16 * u)) by (nonlinear_arith);
}

/// The sine window at playhead `t` of a grain of size `l`.
pub fn sine_window(t: u32, l: u32) -> (r: i64)
    requires
        1 <= l <= MAX_GRAIN_SAMPLES,
        t <= l,
    ensures
        r == sine_fix(t as int, l as int),
        0 <= r <= FIXED_ONE,
{
    let t64: u64 = t as u64;
    let l64: u64 = l as u64;
    proof {
        lemma_quarter_square_bound(t as int, l as int);
        assert((t as int) * (l as int - t as int) <= (MAX_GRAIN_SAMPLES as int) * (
        MAX_GRAIN_SAMPLES as int)) by (nonlinear_arith)
            requires
                0 <= t as int <= MAX_GRAIN_SAMPLES as int,
                0 <= (l as int - t as int) <= MAX_GRAIN_SAMPLES as int,
        ;
        assert((l as int) * (l as int) <= (MAX_GRAIN_SAMPLES as int) * (MAX_GRAIN_SAMPLES as int))
            by (nonlinear_arith)
            requires
                0 <= l as int <= MAX_GRAIN_SAMPLES as int,
        ;
        lemma_sine_fix_bounds(t as int, l as int);
    }
    let u: u64 = t64 * (l64 - t64);
    let ll: u64 = l64 * l64;
    let num: u64 = 16 * u * (FIXED_ONE as u64);
    let den: u64 = 5 * ll - 4 * u;
    proof {
        assert((l as int) * (l as int) >= 1) by (nonlinear_arith)
            requires
                1 <= l as int,
        ;
        assert(num as int == sine_num(t as int, l as int));
        assert(den as int == sine_den(t as int, l as int));
        assert(den > 0);
        assert(num as int <= (FIXED_ONE as int) * (den as int));
        lemma_div_pos_is_pos(num as int, den as int);
        lemma_div_is_ordered(num as int, (FIXED_ONE as int) * (den as int), den as int);
        lemma_div_by_multiple(FIXED_ONE as int, den as int);
    }
    let r: u64 = num / den;
    r as i64
}

/// The Hann window at playhead `t` of a grain of size `l`.
pub fn hann_window(t: u32, l: u32) -> (r: i64)
    requires
        1 <= l <= MAX_GRAIN_SAMPLES,
        t <= l,
    ensures
        r == hann_fix(t as int, l as int),
        0 <= r <= FIXED_ONE,
{
    let s: i64 = sine_window(t, l);
    proof {
        lemma_hann_fix_bounds(t as int, l as int);
        assert(0 <= (s as int) * (s as int) <= (FIXED_ONE as int) * (FIXED_ONE as int))
            by (nonlinear_arith)
            requires
                0 <= s as int <= FIXED_ONE as int,
        ;
    }
    let su: u64 = s as u64;
    let r: u64 = (su * su) / (FIXED_ONE as u64);
    r as i64
}

/// The Hamming window at playhead `t` of a grain of size `l`.
pub fn hamming_window(t: u32, l: u32) -> (r: i64)
    requires
        1 <= l <= MAX_GRAIN_SAMPLES,
        t <= l,
    ensures
        r == hamming_fix(t as int, l as int),
        HAMMING_FLOOR <= r <= FIXED_ONE,
{
    let h: i64 = hann_window(t, l);
    proof {
        lemma_hamming_fix_bounds(t as int, l as int);
        assert(0 <= (HAMMING_RISE as int) * (h as int) <= (HAMMING_RISE as int) * (
        FIXED_ONE as int)) by (nonlinear_arith)
            requires
                0 <= h as int <= FIXED_ONE as int,
        ;
    }
    let hu: u64 = h as u64;
    let r: u64 = (HAMMING_RISE as u64) * hu / (FIXED_ONE as u64);
    (HAMMING_FLOOR as u64 + r) as i64
}

} // verus!
