//! Saturating fixed-point arithmetic for the simulation.
//!
//! Every scalar of the game — positions, speeds, seconds, hit points — is an
//! `i64` counting `FX_ONE`-ths of a unit. The scale is divisible by 60, so a
//! frame of 1/60 s and the round per-second speeds the game is tuned with are
//! represented exactly. Sums and products saturate at the `i64` bounds instead of
//! wrapping, so every operation is total.

use vstd::prelude::*;

verus! {

/// Subunits per unit: one pixel, one second or one hit point is `FX_ONE`.
pub const FX_ONE: i64 = 3600;

/// Clamps a mathematical integer into the `i64` range.
pub open spec fn clip(v: int) -> int {
    if v > i64::MAX as int {
        i64::MAX as int
    } else if v < i64::MIN as int {
        i64::MIN as int
    } else {
        v
    }
}

/// Saturating sum of two scalars.
pub open spec fn sat_add(a: int, b: int) -> int {
    clip(a + b)
}

/// Saturating difference of two scalars.
pub open spec fn sat_sub(a: int, b: int) -> int {
    clip(a - b)
}

/// Integer division rounding towards zero.
pub open spec fn div_trunc(a: int, b: int) -> int {
    if a >= 0 {
        a / b
    } else {
        -((-a) / b)
    }
}

/// Fixed-point product: `a * b` rescaled by `FX_ONE`, rounded towards zero
/// and saturated.
pub open spec fn fx_mul(a: int, b: int) -> int {
    clip(div_trunc(a * b, FX_ONE as int))
}

/// A full circle in fixed-point degrees.
pub const FULL_TURN: i64 = 360 * FX_ONE;

/// Half a circle in fixed-point degrees.
pub const HALF_TURN: i64 = 180 * FX_ONE;

/// A quarter circle in fixed-point degrees.
pub const QUARTER_TURN: i64 = 90 * FX_ONE;

/// Clamps `v` into `[lo, hi]`, saturating at both ends.
pub open spec fn spec_clamp(v: int, lo: int, hi: int) -> int {
    if v < lo {
        lo
    } else if v > hi {
        hi
    } else {
        v
    }
}

/// Rounds a fixed-point scalar to the nearest whole unit, halves away from
/// zero.
pub open spec fn fx_round(a: int) -> int {
    if a >= 0 {
        (a + (FX_ONE as int) / 2) / (FX_ONE as int)
    } else {
        -(((-a) + (FX_ONE as int) / 2) / (FX_ONE as int))
    }
}

/// An angle reduced into `[0, FULL_TURN)`.
pub open spec fn wrap_angle(a: int) -> int {
    a % (FULL_TURN as int)
}

/// The sine of an angle in `[0, HALF_TURN]`, scaled by `FX_ONE`, by the
/// classical rational approximation `4x(180 - x) / (40500 - x(180 - x))`
/// (degrees). It is exact at 0, 90 and 180 degrees and stays within
/// `[0, FX_ONE]`.
pub open spec fn sin_half(a: int) -> int {
    let t = a * (HALF_TURN as int - a);
    (4 * t * (FX_ONE as int)) / (40500 * (FX_ONE as int) * (FX_ONE as int) - t)
}

/// The sine of any fixed-point angle, scaled by `FX_ONE`.
pub open spec fn fx_sin(a: int) -> int {
    let w = wrap_angle(a);
    if w <= HALF_TURN as int {
        sin_half(w)
    } else {
        -sin_half(w - HALF_TURN as int)
    }
}

/// The cosine of any fixed-point angle, scaled by `FX_ONE`.
pub open spec fn fx_cos(a: int) -> int {
    fx_sin(a + QUARTER_TURN as int)
}

/// Saturating sum, executable form.
pub fn sat_add64(a: i64, b: i64) -> (r: i64)
    ensures
        r == sat_add(a as int, b as int),
{
    let s: i128 = a as i128 + b as i128;
    if s > i64::MAX as i128 {
        i64::MAX
    } else if s < i64::MIN as i128 {
        i64::MIN
    } else {
        s as i64
    }
}

/// Saturating difference, executable form.
pub fn sat_sub64(a: i64, b: i64) -> (r: i64)
    ensures
        r == sat_sub(a as int, b as int),
{
    let s: i128 = a as i128 - b as i128;
    if s > i64::MAX as i128 {
        i64::MAX
    } else if s < i64::MIN as i128 {
        i64::MIN
    } else {
        s as i64
    }
}

/// Fixed-point product, executable form.
pub fn fx_mul64(a: i64, b: i64) -> (r: i64)
    ensures
        r == fx_mul(a as int, b as int),
{
    let ah: i128 = a as i128;
    let bh: i128 = b as i128;
    proof {
        assert(-0x4000_0000_0000_0000_0000_0000_0000_0000 <= ah * bh
            <= 0x4000_0000_0000_0000_0000_0000_0000_0000) by (nonlinear_arith)
            requires
                -0x8000_0000_0000_0000 <= ah <= 0x8000_0000_0000_0000,
                -0x8000_0000_0000_0000 <= bh <= 0x8000_0000_0000_0000,
        ;
    }
    let p: i128 = ah * bh;
    let q: i128 = if p >= 0 {
        p / (FX_ONE as i128)
    } else {
        -((-p) / (FX_ONE as i128))
    };
    if q > i64::MAX as i128 {
        i64::MAX
    } else if q < i64::MIN as i128 {
        i64::MIN
    } else {
        q as i64
    }
}

/// Saturating plain product (no rescaling), executable form.
pub fn sat_mul64(a: i64, b: i64) -> (r: i64)
    ensures
        r == clip(a as int * b as int),
{
    let ah: i128 = a as i128;
    let bh: i128 = b as i128;
    proof {
        assert(-0x4000_0000_0000_0000_0000_0000_0000_0000 <= ah * bh
            <= 0x4000_0000_0000_0000_0000_0000_0000_0000) by (nonlinear_arith)
            requires
                -0x8000_0000_0000_0000 <= ah <= 0x8000_0000_0000_0000,
                -0x8000_0000_0000_0000 <= bh <= 0x8000_0000_0000_0000,
        ;
    }
    let p: i128 = ah * bh;
    if p > i64::MAX as i128 {
        i64::MAX
    } else if p < i64::MIN as i128 {
        i64::MIN
    } else {
        p as i64
    }
}

/// Clamp, executable form.
pub fn clamp64(v: i64, lo: i64, hi: i64) -> (r: i64)
    requires
        lo <= hi,
    ensures
        r == spec_clamp(v as int, lo as int, hi as int),
{
    if v < lo {
        lo
    } else if v > hi {
        hi
    } else {
        v
    }
}

/// Rounding to whole units, executable form.
pub fn fx_round64(a: i64) -> (r: i64)
    ensures
        r == fx_round(a as int),
{
    let half: i128 = (FX_ONE / 2) as i128;
    let one: i128 = FX_ONE as i128;
    if a >= 0 {
        ((a as i128 + half) / one) as i64
    } else {
        (-((-(a as i128) + half) / one)) as i64
    }
}

/// Reduces an angle into `[0, FULL_TURN)`, executable form.
fn wrap_angle128(v: i128) -> (r: i64)
    requires
        v > i128::MIN,
    ensures
        r == wrap_angle(v as int),
        0 <= r < FULL_TURN,
{
    let k: i128 = FULL_TURN as i128;
    if v >= 0 {
        (v % k) as i64
    } else {
        let m: i128 = (-v) % k;
        proof {
            let q = (-(v as int)) / (k as int);
            vstd::arithmetic::div_mod::lemma_fundamental_div_mod(-(v as int), k as int);
            if m == 0 {
                vstd::arithmetic::div_mod::lemma_fundamental_div_mod_converse_mod(
                    v as int,
                    k as int,
                    -q,
                    0,
                );
            } else {
                vstd::arithmetic::div_mod::lemma_fundamental_div_mod_converse_mod(
                    v as int,
                    k as int,
                    -q - 1,
                    k as int - m,
                );
            }
        }
        if m == 0 {
            0
        } else {
            (k - m) as i64
        }
    }
}

/// The sine on the first half turn, executable form.
fn sin_half64(w: i64) -> (r: i64)
    requires
        0 <= w <= HALF_TURN,
    ensures
        r == sin_half(w as int),
        0 <= r <= FX_ONE,
{
    proof {
        assert(0 <= (w as int) * (HALF_TURN as int - w as int) <= 324000 * 324000)
            by (nonlinear_arith)
            requires
                0 <= w as int <= HALF_TURN as int,
                HALF_TURN as int == 648000,
        ;
    }
    let t: i64 = w * (HALF_TURN - w);
    let num: i64 = 4 * t * FX_ONE;
    let den: i64 = 40500 * FX_ONE * FX_ONE - t;
    let q: i64 = num / den;
    proof {
        vstd::arithmetic::div_mod::lemma_div_pos_is_pos(num as int, den as int);
        vstd::arithmetic::div_mod::lemma_multiply_divide_le(
            num as int,
            den as int,
            FX_ONE as int,
        );
        assert(num as int <= den as int * FX_ONE as int);
    }
    q
}

/// The sine of any angle, executable form; the result stays within
/// `[-FX_ONE, FX_ONE]`.
fn sin128(v: i128) -> (r: i64)
    requires
        v > i128::MIN,
    ensures
        r == fx_sin(v as int),
        -FX_ONE <= r <= FX_ONE,
{
    let w: i64 = wrap_angle128(v);
    if w <= HALF_TURN {
        sin_half64(w)
    } else {
        let s = sin_half64(w - HALF_TURN);
        -s
    }
}

/// Law: the angular motion is truly periodic — the sine repeats every full
/// turn.
pub proof fn lemma_sin_periodic(a: int)
    ensures
        fx_sin(a + FULL_TURN as int) == fx_sin(a),
{
    vstd::arithmetic::div_mod::lemma_mod_add_multiples_vanish(a, FULL_TURN as int);
}

/// The sine of a fixed-point angle, scaled by `FX_ONE`.
pub fn fx_sin64(a: i64) -> (r: i64)
    ensures
        r == fx_sin(a as int),
        -FX_ONE <= r <= FX_ONE,
{
    sin128(a as i128)
}

/// The cosine of a fixed-point angle, scaled by `FX_ONE`.
pub fn fx_cos64(a: i64) -> (r: i64)
    ensures
        r == fx_cos(a as int),
        -FX_ONE <= r <= FX_ONE,
{
    sin128(a as i128 + QUARTER_TURN as i128)
}

} // verus!
