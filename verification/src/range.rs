//! Proportional interpolation between a physical engineering range and
//! the 16-bit transport range.
//!
//! Quantities are integers: engineering values in micro-units (see
//! [`crate::types::MICRO`]), transport values in plain wire ticks
//! (0..=65535). Scaling maps a value's relative position in one range
//! onto the other range by exact rational interpolation, rounded to the
//! nearest integer with halves rounded up.

use vstd::prelude::*;
use vstd::arithmetic::div_mod::{lemma_fundamental_div_mod, lemma_mod_bound};
use vstd::math::abs;

verus! {

/// Bound on every range endpoint and every scaled value, in ticks.
/// Generous: the largest engineering magnitude in use is five thousand
/// units (5e9 micro-ticks), and the transport range tops out at 65535.
pub const RANGE_BOUND: i64 = 1_000_000_000_000;

/// An inclusive numeric range with `min <= max`.
#[derive(Clone, Copy, Debug, PartialEq, Eq, Structural)]
pub struct Range {
    pub min: i64,
    pub max: i64,
}

/// `n / d` rounded to the nearest integer, halves rounded up.
pub open spec fn round_div(n: int, d: int) -> int
    recommends
        d > 0,
{
    (2 * n + d) / (2 * d)
}

/// Where `v` lands in `to` when its relative position in `from` is kept:
/// `to.min + round((v - from.min) * (to.max - to.min) / (from.max - from.min))`.
pub open spec fn spec_scale(v: int, from: Range, to: Range) -> int
    recommends
        from.min < from.max,
{
    to.min + round_div((v - from.min) * (to.max - to.min), from.max - from.min)
}

/// `v` pushed into `r` if it lies outside.
pub open spec fn spec_clamp(v: int, r: Range) -> int {
    if v < r.min {
        r.min as int
    } else if v > r.max {
        r.max as int
    } else {
        v
    }
}

impl Range {
    /// A well-formed range: ordered endpoints of bounded magnitude.
    pub open spec fn wf(self) -> bool {
        -RANGE_BOUND <= self.min <= self.max <= RANGE_BOUND
    }

    /// Whether `v` lies inside the range.
    pub open spec fn contains(self, v: int) -> bool {
        self.min <= v <= self.max
    }

    pub fn new(min: i64, max: i64) -> (r: Range)
        ensures
            r == (Range { min, max }),
    {
        Range { min, max }
    }

    /// Maps `value` from this range onto `to`, keeping its relative
    /// position, rounded to the nearest integer (halves up). The result
    /// always lands inside `to`.
    pub fn scale_value(&self, value: i64, to: &Range) -> (r: i64)
        requires
            self.wf(),
            to.wf(),
            self.min < self.max,
            self.contains(value as int),
        ensures
            r == spec_scale(value as int, *self, *to),
            to.contains(r as int),
    {
        let x: i64 = value - self.min;
        let sf: i64 = self.max - self.min;
        let st: i64 = to.max - to.min;
        proof {
            assert(0 <= x <= sf);
            assert(1 <= sf <= 2 * RANGE_BOUND);
            assert(0 <= st <= 2 * RANGE_BOUND);
            assert(x * st <= sf * st && 0 <= x * st && sf * st
                <= 4_000_000_000_000_000_000_000_000) by (nonlinear_arith)
                requires
                    0 <= x <= sf <= 2_000_000_000_000i64,
                    0 <= st <= 2_000_000_000_000i64,
            ;
        }
        let n: u128 = (x as u128) * (st as u128);
        let num: u128 = 2 * n + (sf as u128);
        let den: u128 = 2 * (sf as u128);
        let q: u128 = num / den;
        proof {
            lemma_fundamental_div_mod(num as int, den as int);
            lemma_mod_bound(num as int, den as int);
            assert(q <= st) by (nonlinear_arith)
                requires
                    den == 2 * sf,
                    sf >= 1,
                    st >= 0,
                    num == 2 * (x * st) + sf,
                    x * st <= sf * st,
                    num == den * (q as int) + (num as int % den as int),
                    num as int % den as int >= 0,
            ;
            assert(q as int == round_div(x as int * st as int, sf as int));
        }
        let r: i64 = to.min + (q as i64);
        r
    }

    /// Like [`Range::scale_value`], for a value that may lie outside
    /// this range: the value is clamped to the range first, so the
    /// result still lands inside `to`. Because scaling is monotonic,
    /// clamping the input is exactly saturation of the output.
    pub fn scale_value_clamped(&self, value: i64, to: &Range) -> (r: i64)
        requires
            self.wf(),
            to.wf(),
            self.min < self.max,
        ensures
            r == spec_scale(spec_clamp(value as int, *self), *self, *to),
            to.contains(r as int),
    {
        let v: i64 = if value < self.min {
            self.min
        } else if value > self.max {
            self.max
        } else {
            value
        };
        self.scale_value(v, to)
    }
}

/// The five ranges an actuator is scaled over: one per command axis.
#[derive(Clone, Copy, Debug, PartialEq, Eq, Structural)]
pub struct RangeSet {
    pub angle: Range,
    pub velocity: Range,
    pub torque: Range,
    pub kp: Range,
    pub kd: Range,
}

impl RangeSet {
    /// Every axis range is well-formed and non-degenerate.
    pub open spec fn wf(self) -> bool {
        &&& self.angle.wf() && self.angle.min < self.angle.max
        &&& self.velocity.wf() && self.velocity.min < self.velocity.max
        &&& self.torque.wf() && self.torque.min < self.torque.max
        &&& self.kp.wf() && self.kp.min < self.kp.max
        &&& self.kd.wf() && self.kd.min < self.kd.max
    }
}

/// Scaling a value from `a` into `b` and back lands within half a step
/// of where it started: the round trip error, measured in `a`-ticks and
/// doubled, is at most the ratio of the two spans plus one, i.e.
/// `2*|b-span| * |round_trip(v) - v| <= a-span + b-span`.
pub proof fn lemma_scale_round_trip(v: int, a: Range, b: Range)
    requires
        a.wf(),
        b.wf(),
        a.min < a.max,
        b.min < b.max,
        a.contains(v),
    ensures
        b.contains(spec_scale(v, a, b)),
        2 * (b.max - b.min) * abs(spec_scale(spec_scale(v, a, b), b, a) - v)
            <= (a.max - a.min) + (b.max - b.min),
{
    let sa = a.max - a.min;
    let sb = b.max - b.min;
    let x = v - a.min;
    let y = round_div(x * sb, sa);
    let z = round_div(y * sa, sb);

    let num1 = 2 * (x * sb) + sa;
    lemma_fundamental_div_mod(num1, 2 * sa);
    lemma_mod_bound(num1, 2 * sa);
    let r1 = num1 % (2 * sa);
    assert(num1 == (2 * sa) * y + r1);

    assert(0 <= y <= sb && -sa <= 2 * (x * sb - y * sa) <= sa) by (nonlinear_arith)
        requires
            sa >= 1,
            sb >= 1,
            0 <= x <= sa,
            num1 == 2 * (x * sb) + sa,
            num1 == (2 * sa) * y + r1,
            0 <= r1 < 2 * sa,
    ;
    assert(b.contains(spec_scale(v, a, b)));

    let num2 = 2 * (y * sa) + sb;
    lemma_fundamental_div_mod(num2, 2 * sb);
    lemma_mod_bound(num2, 2 * sb);
    let r2 = num2 % (2 * sb);
    assert(num2 == (2 * sb) * z + r2);

    assert(-sb <= 2 * (y * sa - z * sb) <= sb) by (nonlinear_arith)
        requires
            sb >= 1,
            num2 == 2 * (y * sa) + sb,
            num2 == (2 * sb) * z + r2,
            0 <= r2 < 2 * sb,
    ;

    // Chain the two rounding errors: 2*sb*(x - z) = 2*(x*sb - y*sa) + 2*(y*sa - z*sb).
    assert(2 * sb * abs(z - x) <= sa + sb) by (nonlinear_arith)
        requires
            sa >= 1,
            sb >= 1,
            -sa <= 2 * (x * sb - y * sa) <= sa,
            -sb <= 2 * (y * sa - z * sb) <= sb,
            abs(z - x) == if z >= x { z - x } else { x - z },
    ;

    assert(spec_scale(spec_scale(v, a, b), b, a) - v == z - x);
}

} // verus!
