//! Angles in milliradians and the fixed-point circle functions.
//!
//! A full turn is `FULL_TURN_MRAD` milliradians.  The sine is the
//! classical rational approximation `16 t / (5 h^2 - 4 t)` with
//! `t = x (h - x)` on the half turn `h`, carried in thousandths; it is
//! exact at the quarter turns, so a heading of zero points exactly along
//! the positive y axis.  The convention "forward = (-sin a, cos a)" is
//! shared by the player integrator, the camera and the spawn offsets.

use vstd::prelude::*;

verus! {

use vstd::arithmetic::div_mod::lemma_div_is_ordered;
use vstd::arithmetic::div_mod::lemma_div_multiples_vanish;
use vstd::arithmetic::div_mod::lemma_div_pos_is_pos;
use vstd::arithmetic::div_mod::lemma_fundamental_div_mod;
use vstd::arithmetic::div_mod::lemma_fundamental_div_mod_converse_div;
use vstd::arithmetic::div_mod::lemma_fundamental_div_mod_converse_mod;
use vstd::arithmetic::div_mod::lemma_small_mod;
use vstd::arithmetic::mul::lemma_mul_nonnegative;
use crate::fixed::Vec2Fx;
use crate::fixed::Vec2V;
use crate::fixed::scale_i64;
use crate::fixed::scale_signed;
use crate::fixed::lemma_scale_signed_bound;

/// Milliradians in a full turn.
pub const FULL_TURN_MRAD: i64 = 6284;

/// Milliradians in a half turn.
pub const HALF_TURN_MRAD: i64 = 3142;

/// Milliradians in a quarter turn.
pub const QUARTER_TURN_MRAD: i64 = 1571;

/// Sine and cosine are carried in thousandths.
pub const TRIG_SCALE: i64 = 1000;

/// An angle reduced to `[0, FULL_TURN_MRAD)`; spec `%` is Euclidean, so
/// this holds for negative angles as well.
pub open spec fn norm_angle(a: int) -> int {
    a % (FULL_TURN_MRAD as int)
}

/// Thousandths of the sine over the first half turn, `0 <= x <= 3142`:
/// `16000 t / (5 h^2 - 4 t)` with `t = x (h - x)`.
pub open spec fn sine_arch(x: int) -> int {
    (16000 * (x * (3142 - x))) / (49360820 - 4 * (x * (3142 - x)))
}

/// Thousandths of the sine of a reduced angle, odd around the half turn.
pub open spec fn sine_mrad(a: int) -> int {
    if a < 3142 {
        sine_arch(a)
    } else {
        -sine_arch(a - 3142)
    }
}

/// Thousandths of the cosine of a reduced angle: the sine a quarter turn
/// ahead.
pub open spec fn cosine_mrad(a: int) -> int {
    sine_mrad(norm_angle(a + 1571))
}

/// The point at `angle` on the circle of radius `r`, with the convention
/// that angle zero is the positive y axis and angles grow toward the
/// negative x axis.
pub open spec fn circle_vec(a: int, r: int) -> Vec2V {
    Vec2V {
        x: scale_signed(-sine_mrad(a), r, 1000),
        y: scale_signed(cosine_mrad(a), r, 1000),
    }
}

/// A point on a circle of radius `r` has both coordinates within `r`.
pub proof fn lemma_circle_vec_bound(a: int, r: int)
    requires
        0 <= a < FULL_TURN_MRAD,
        0 <= r,
    ensures
        -r <= circle_vec(a, r).x <= r,
        -r <= circle_vec(a, r).y <= r,
{
    lemma_sine_mrad_range(a);
    vstd::arithmetic::div_mod::lemma_mod_bound(a + 1571, 6284);
    lemma_sine_mrad_range(norm_angle(a + 1571));
    lemma_scale_signed_bound(-sine_mrad(a), r, 1000, 1000, r);
    lemma_scale_signed_bound(cosine_mrad(a), r, 1000, 1000, r);
    assert(1000 * r == r * 1000) by (nonlinear_arith);
    lemma_div_multiples_vanish(r, 1000);
}

/// Reduce any angle to `[0, FULL_TURN_MRAD)`.
pub fn normalize_angle(a: i64) -> (r: i64)
    requires
        i64::MIN < a,
    ensures
        r == norm_angle(a as int),
        0 <= r < FULL_TURN_MRAD,
{
    let m = a % FULL_TURN_MRAD;
    if m < 0 {
        proof {
            let k = -(a as int);
            lemma_fundamental_div_mod(k, 6284);
            let q = k / 6284;
            let rr = k % 6284;
            assert(a as int == (-q - 1) * 6284 + (6284 - rr)) by (nonlinear_arith)
                requires
                    a as int == -k,
                    k == 6284 * q + rr,
            ;
            lemma_fundamental_div_mod_converse_mod(a as int, 6284, -q - 1, 6284 - rr);
        }
        m + FULL_TURN_MRAD
    } else {
        proof {
            if a >= 0 {
            } else {
                let k = -(a as int);
                lemma_fundamental_div_mod(k, 6284);
                let q = k / 6284;
                assert(k % 6284 == 0);
                assert(a as int == (-q) * 6284 + 0) by (nonlinear_arith)
                    requires
                        a as int == -k,
                        k == 6284 * q,
                ;
                lemma_fundamental_div_mod_converse_mod(a as int, 6284, -q, 0);
            }
        }
        m
    }
}

/// The largest value of `t = x (h - x)` on the half turn, reached at the
/// quarter turn.
proof fn lemma_arch_product_range(x: int)
    requires
        0 <= x <= 3142,
    ensures
        0 <= x * (3142 - x) <= 2468041,
{
    assert(0 <= x * (3142 - x) <= 2468041) by (nonlinear_arith)
        requires
            0 <= x <= 3142,
    ;
}

/// The sine over the first half turn stays within `[0, 1000]`.
pub proof fn lemma_sine_arch_range(x: int)
    requires
        0 <= x <= 3142,
    ensures
        0 <= sine_arch(x) <= 1000,
{
    lemma_arch_product_range(x);
    let t = x * (3142 - x);
    let den = 49360820 - 4 * t;
    lemma_mul_nonnegative(16000, t);
    lemma_div_pos_is_pos(16000 * t, den);
    assert(16000 * t <= 1000 * den) by (nonlinear_arith)
        requires
            0 <= t <= 2468041,
            den == 49360820 - 4 * t,
    ;
    lemma_div_is_ordered(16000 * t, 1000 * den, den);
    assert(1000 * den == den * 1000) by (nonlinear_arith);
    lemma_div_multiples_vanish(1000, den);
}

/// The sine of any reduced angle stays within `[-1000, 1000]`.
pub proof fn lemma_sine_mrad_range(a: int)
    requires
        0 <= a < 6284,
    ensures
        -1000 <= sine_mrad(a) <= 1000,
{
    if a < 3142 {
        lemma_sine_arch_range(a);
    } else {
        lemma_sine_arch_range(a - 3142);
    }
}

/// The sine over the half turn is monotone in the product `t`:
/// a larger `t` gives a numerator no smaller and a positive denominator
/// no larger.
proof fn lemma_sine_arch_monotone_in_t(t1: int, t2: int)
    requires
        0 <= t1 <= t2 <= 2468041,
    ensures
        (16000 * t1) / (49360820 - 4 * t1) <= (16000 * t2) / (49360820 - 4 * t2),
{
    let d1 = 49360820 - 4 * t1;
    let d2 = 49360820 - 4 * t2;
    lemma_mul_nonnegative(16000, t1);
    vstd::arithmetic::div_mod::lemma_div_is_ordered_by_denominator(16000 * t1, d2, d1);
    lemma_div_is_ordered(16000 * t1, 16000 * t2, d2);
}

/// Away from the quarter turn — by a quarter of the half turn on
/// either side — the sine stays at or below 706 thousandths.
pub proof fn lemma_sine_arch_small(x: int)
    requires
        0 <= x <= 3142,
        x <= 786 || x >= 2356,
    ensures
        sine_arch(x) <= 706,
{
    let t = x * (3142 - x);
    lemma_arch_product_range(x);
    assert(t <= 1851816) by (nonlinear_arith)
        requires
            t == x * (3142 - x),
            0 <= x <= 3142,
            x <= 786 || x >= 2356,
    ;
    lemma_sine_arch_monotone_in_t(t, 1851816);
    lemma_fundamental_div_mod_converse_div(
        16000int * 1851816,
        49360820int - 4 * 1851816,
        706,
        9845464,
    );
}

/// The sine and the cosine of one angle are never both above 706
/// thousandths in magnitude: their half-turn coordinates sit a quarter
/// turn apart, and the band where the sine exceeds 706 is narrower
/// than a quarter turn.
pub proof fn lemma_sin_cos_not_both_large(a: int)
    requires
        0 <= a < 6284,
    ensures
        -706 <= sine_mrad(a) <= 706 || -706 <= cosine_mrad(a) <= 706,
{
    let b = norm_angle(a + 1571);
    if a + 1571 < 6284 {
        lemma_small_mod((a + 1571) as nat, 6284nat);
        assert(b == a + 1571);
    } else {
        lemma_fundamental_div_mod_converse_mod(a + 1571, 6284, 1, a + 1571 - 6284);
        assert(b == a + 1571 - 6284);
    }
    let x = if a < 3142 {
        a
    } else {
        a - 3142
    };
    let y = if b < 3142 {
        b
    } else {
        b - 3142
    };
    assert(y - x == 1571 || x - y == 1571);
    lemma_sine_arch_range(x);
    lemma_sine_arch_range(y);
    if sine_arch(x) >= 707 && sine_arch(y) >= 707 {
        if x <= 786 || x >= 2356 {
            lemma_sine_arch_small(x);
        }
        if y <= 786 || y >= 2356 {
            lemma_sine_arch_small(y);
        }
        assert(786 < x < 2356 && 786 < y < 2356);
        assert(false);
    }
}

/// Thousandths of the sine of a reduced angle.
pub fn sin_mrad(a: i64) -> (s: i64)
    requires
        0 <= a < FULL_TURN_MRAD,
    ensures
        s == sine_mrad(a as int),
        -1000 <= s <= 1000,
{
    let (x, negate) = if a < HALF_TURN_MRAD {
        (a, false)
    } else {
        (a - HALF_TURN_MRAD, true)
    };
    proof {
        lemma_arch_product_range(x as int);
    }
    let t = x * (3142 - x);
    let num = 16000 * t;
    let den = 49360820 - 4 * t;
    let s = num / den;
    proof {
        lemma_sine_arch_range(x as int);
    }
    if negate {
        -s
    } else {
        s
    }
}

/// Thousandths of the cosine of a reduced angle.
pub fn cos_mrad(a: i64) -> (c: i64)
    requires
        0 <= a < FULL_TURN_MRAD,
    ensures
        c == cosine_mrad(a as int),
        -1000 <= c <= 1000,
{
    let b = if a + QUARTER_TURN_MRAD < FULL_TURN_MRAD {
        proof {
            lemma_small_mod((a + 1571) as nat, 6284nat);
        }
        a + QUARTER_TURN_MRAD
    } else {
        proof {
            lemma_fundamental_div_mod_converse_mod(a as int + 1571, 6284, 1, a as int + 1571 - 6284);
        }
        a + QUARTER_TURN_MRAD - FULL_TURN_MRAD
    };
    sin_mrad(b)
}

/// The point at `angle` on the circle of radius `radius`, exact against
/// `circle_vec`; each coordinate is bounded by the radius.
pub fn vec2_from_circle(angle: i64, radius: i64) -> (v: Vec2Fx)
    requires
        0 <= angle < FULL_TURN_MRAD,
        0 <= radius,
    ensures
        v@ == circle_vec(angle as int, radius as int),
        -radius <= v@.x <= radius,
        -radius <= v@.y <= radius,
{
    let s = sin_mrad(angle);
    let c = cos_mrad(angle);
    proof {
        let ri = radius as int;
        assert((-(s as int)) * ri <= i64::MAX * 1000 && -(i64::MAX * 1000) <= (-(s as int)) * ri
            && (c as int) * ri <= i64::MAX * 1000 && -(i64::MAX * 1000) <= (c as int) * ri)
            by (nonlinear_arith)
            requires
                -1000 <= s as int <= 1000,
                -1000 <= c as int <= 1000,
                0 <= ri <= i64::MAX,
        ;
        lemma_scale_signed_bound(-(s as int), ri, 1000, 1000, ri);
        lemma_scale_signed_bound(c as int, ri, 1000, 1000, ri);
        assert(1000 * ri == ri * 1000) by (nonlinear_arith);
        lemma_div_multiples_vanish(ri, 1000);
    }
    let x = scale_i64(-s, radius, 1000);
    let y = scale_i64(c, radius, 1000);
    Vec2Fx { x, y }
}

} // verus!
