//! Fixed-point scalars and 2-D vectors.
//!
//! Lengths, positions and speeds are carried as `i64` counts of
//! milli-units: one unit of the play field is `MILLI` of them.  The one
//! scaling primitive, `scale_i64`, computes `v * num / den` with the
//! quotient truncated toward zero, exactly as `scale_signed` states.

use vstd::prelude::*;

verus! {

use vstd::arithmetic::div_mod::lemma_div_is_ordered;
use vstd::arithmetic::div_mod::lemma_div_multiples_vanish;
use vstd::arithmetic::div_mod::lemma_div_pos_is_pos;
use vstd::arithmetic::mul::lemma_mul_nonnegative;

/// Milli-units per unit of the play field.
pub const MILLI: i64 = 1000;

/// Ceiling on the simulated time of one tick, in milliseconds.  One tick
/// covers at most one second, which keeps every explicit damping step
/// contractive and every intermediate product inside 64 bits.
pub const MAX_TICK_MS: u64 = 1000;

/// Position bound of a well-formed world, in milli-units.  Machine
/// limit only: far enough that the whole play field (spawn ring 300,
/// cull ring 400) is microscopic next to it.
pub const POS_LIMIT: i64 = 500_000_000;

/// Speed bound of a well-formed world, in milli-units per second.
/// Machine limit only, far above any speed the rules produce.
pub const VEL_LIMIT: i64 = 50_000_000;

/// A 2-D vector in milli-units.
#[derive(Clone, Copy, PartialEq, Eq, Structural, Debug)]
pub struct Vec2Fx {
    pub x: i64,
    pub y: i64,
}

/// Mathematical view of a `Vec2Fx`.
pub struct Vec2V {
    pub x: int,
    pub y: int,
}

impl View for Vec2Fx {
    type V = Vec2V;

    open spec fn view(&self) -> Vec2V {
        Vec2V { x: self.x as int, y: self.y as int }
    }
}

impl Vec2Fx {
    /// The origin.
    pub fn zero() -> (v: Vec2Fx)
        ensures
            v@.x == 0,
            v@.y == 0,
    {
        Vec2Fx { x: 0, y: 0 }
    }

    /// Componentwise sum.
    pub fn plus(self, other: Vec2Fx) -> (v: Vec2Fx)
        requires
            i64::MIN <= self@.x + other@.x <= i64::MAX,
            i64::MIN <= self@.y + other@.y <= i64::MAX,
        ensures
            v@.x == self@.x + other@.x,
            v@.y == self@.y + other@.y,
    {
        Vec2Fx { x: self.x + other.x, y: self.y + other.y }
    }
}

/// Squared Euclidean distance between two points, in milli-units squared.
pub open spec fn dist2(a: Vec2V, b: Vec2V) -> int {
    (a.x - b.x) * (a.x - b.x) + (a.y - b.y) * (a.y - b.y)
}

/// `v * num / den` with the quotient truncated toward zero, which is what
/// machine division of the magnitudes gives.
pub open spec fn scale_signed(v: int, num: int, den: int) -> int {
    if v >= 0 {
        (v * num) / den
    } else {
        -(((-v) * num) / den)
    }
}

/// Truncated scaling of an `i64`, exact against `scale_signed`.  The
/// product is formed in 128 bits, so the only range demand is that the
/// scaled result itself fits.
pub fn scale_i64(v: i64, num: i64, den: i64) -> (r: i64)
    requires
        0 <= num,
        0 < den,
        v * num <= i64::MAX * den,
        -(i64::MAX * den) <= v * num,
    ensures
        r == scale_signed(v as int, num as int, den as int),
{
    let ghost vi = v as int;
    let ghost ni = num as int;
    let ghost di = den as int;
    if v >= 0 {
        proof {
            assert(vi * ni <= 0x4000_0000_0000_0000_0000_0000_0000_0000) by (nonlinear_arith)
                requires
                    0 <= vi < 0x8000_0000_0000_0000,
                    0 <= ni < 0x8000_0000_0000_0000,
            ;
        }
        let p: i128 = (v as i128) * (num as i128);
        let q: i128 = p / (den as i128);
        proof {
            lemma_mul_nonnegative(vi, ni);
            lemma_div_pos_is_pos(vi * ni, di);
            lemma_div_is_ordered(vi * ni, i64::MAX * di, di);
            assert(i64::MAX * di == di * (i64::MAX as int)) by (nonlinear_arith);
            lemma_div_multiples_vanish(i64::MAX as int, di);
            assert(0 <= q <= i64::MAX);
        }
        q as i64
    } else {
        proof {
            assert((-vi) * ni <= 0x4000_0000_0000_0000_0000_0000_0000_0000) by (nonlinear_arith)
                requires
                    0 <= -vi <= 0x8000_0000_0000_0000,
                    0 <= ni < 0x8000_0000_0000_0000,
            ;
            assert((-vi) * ni == -(vi * ni)) by (nonlinear_arith);
        }
        let p: i128 = (-(v as i128)) * (num as i128);
        let q: i128 = p / (den as i128);
        proof {
            lemma_mul_nonnegative(-vi, ni);
            lemma_div_pos_is_pos((-vi) * ni, di);
            lemma_div_is_ordered((-vi) * ni, i64::MAX * di, di);
            assert(i64::MAX * di == di * (i64::MAX as int)) by (nonlinear_arith);
            lemma_div_multiples_vanish(i64::MAX as int, di);
            assert(0 <= q <= i64::MAX);
        }
        -(q as i64)
    }
}

/// The scaled value is bounded by the scaled bounds of its inputs.
pub proof fn lemma_scale_signed_bound(v: int, num: int, den: int, vb: int, nb: int)
    requires
        -vb <= v <= vb,
        0 <= num <= nb,
        0 < den,
    ensures
        -(vb * nb / den) <= scale_signed(v, num, den) <= vb * nb / den,
{
    if v >= 0 {
        assert(v * num <= vb * nb) by (nonlinear_arith)
            requires
                0 <= v <= vb,
                0 <= num <= nb,
        ;
        lemma_mul_nonnegative(v, num);
        lemma_div_pos_is_pos(v * num, den);
        lemma_div_is_ordered(v * num, vb * nb, den);
        lemma_mul_nonnegative(vb, nb);
        lemma_div_pos_is_pos(vb * nb, den);
    } else {
        assert((-v) * num <= vb * nb) by (nonlinear_arith)
            requires
                0 <= -v <= vb,
                0 <= num <= nb,
        ;
        lemma_mul_nonnegative(-v, num);
        lemma_div_pos_is_pos((-v) * num, den);
        lemma_div_is_ordered((-v) * num, vb * nb, den);
        lemma_mul_nonnegative(vb, nb);
        lemma_div_pos_is_pos(vb * nb, den);
    }
}

/// With a factor of at most one, scaling shrinks toward zero: the result
/// keeps the sign of `v` and its magnitude never grows.
pub proof fn lemma_scale_signed_shrinks(v: int, num: int, den: int)
    requires
        0 <= num <= den,
        0 < den,
    ensures
        v >= 0 ==> 0 <= scale_signed(v, num, den) <= v,
        v < 0 ==> v <= scale_signed(v, num, den) <= 0,
{
    if v >= 0 {
        assert(v * num <= den * v) by (nonlinear_arith)
            requires
                0 <= v,
                0 <= num <= den,
        ;
        lemma_mul_nonnegative(v, num);
        lemma_div_pos_is_pos(v * num, den);
        lemma_div_is_ordered(v * num, den * v, den);
        lemma_div_multiples_vanish(v, den);
    } else {
        assert((-v) * num <= den * (-v)) by (nonlinear_arith)
            requires
                0 <= -v,
                0 <= num <= den,
        ;
        lemma_mul_nonnegative(-v, num);
        lemma_div_pos_is_pos((-v) * num, den);
        lemma_div_is_ordered((-v) * num, den * (-v), den);
        lemma_div_multiples_vanish(-v, den);
    }
}

/// Once `v * num` reaches `den`, the truncated scaling is at least one.
pub proof fn lemma_scale_signed_strict(v: int, num: int, den: int)
    requires
        0 < den,
        0 <= num,
        0 <= v,
        v * num >= den,
    ensures
        scale_signed(v, num, den) >= 1,
{
    lemma_div_is_ordered(den, v * num, den);
    assert(den * 1 == den) by (nonlinear_arith);
    lemma_div_multiples_vanish(1, den);
}

} // verus!
