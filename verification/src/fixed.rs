//! Saturating fixed-point scalars with six decimal places.
//!
//! Every quantity of the simulation (positions, velocities, forces, angles and
//! durations) is a [`Fixed`]: a signed 64-bit count of millionths. Integer
//! arithmetic makes every step exactly reproducible, and the rounding of each
//! operation is part of its contract: products and quotients round toward
//! zero, and a result that leaves the representable range stops at its end.

use vstd::prelude::*;
use vstd::arithmetic::div_mod::lemma_div_is_ordered;
use vstd::arithmetic::div_mod::lemma_div_multiples_vanish;
use vstd::arithmetic::div_mod::lemma_div_pos_is_pos;
use vstd::arithmetic::power2::lemma2_to64;
use vstd::arithmetic::power2::lemma_pow2_pos;
use vstd::arithmetic::power2::lemma_pow2_unfold;
use vstd::arithmetic::power2::pow2;

verus! {

/// Raw steps in one unit: a raw value `r` stands for the number `r / SCALE`.
pub const SCALE: i64 = 1_000_000;

/// The value of the representable range nearest to `v`.
pub open spec fn saturate(v: int) -> int {
    if v < i64::MIN {
        i64::MIN as int
    } else if v > i64::MAX {
        i64::MAX as int
    } else {
        v
    }
}

/// Sign of `v`: `-1`, `0` or `1`. Zero has sign zero.
pub open spec fn sign(v: int) -> int {
    if v < 0 {
        -1
    } else if v > 0 {
        1
    } else {
        0
    }
}

/// Absolute value of `v`.
pub open spec fn magnitude(v: int) -> int {
    if v < 0 {
        -v
    } else {
        v
    }
}

/// `v` limited to the interval from `lo` to `hi`.
pub open spec fn clamp_to(v: int, lo: int, hi: int) -> int
    recommends
        lo <= hi,
{
    if v < lo {
        lo
    } else if v > hi {
        hi
    } else {
        v
    }
}

/// Quotient of `n` by a positive `d`, rounded toward zero.
pub open spec fn trunc_div(n: int, d: int) -> int
    recommends
        d > 0,
{
    if n >= 0 {
        n / d
    } else {
        -((-n) / d)
    }
}

/// Raw product of two raw values, before saturation.
pub open spec fn scaled_product(a: int, b: int) -> int {
    trunc_div(a * b, SCALE as int)
}

/// Raw quotient of two raw values, before saturation.
pub open spec fn scaled_quotient(a: int, b: int) -> int
    recommends
        b > 0,
{
    trunc_div(a * SCALE, b)
}

/// Mean of `a` and `b` in which `b` has `weight` parts of `total` and `a` the rest.
pub open spec fn weighted_mean(a: int, b: int, weight: int, total: int) -> int
    recommends
        0 <= weight <= total,
        total > 0,
{
    trunc_div(a * (total - weight) + b * weight, total)
}

/// A root `r` is the floor of the square root of `n`.
pub open spec fn is_floor_sqrt(n: int, r: int) -> bool {
    0 <= r && r * r <= n < (r + 1) * (r + 1)
}

/// Floor of the square root of a non-negative `n`.
pub open spec fn floor_sqrt(n: int) -> int
    recommends
        n >= 0,
{
    choose|r: int| is_floor_sqrt(n, r)
}

/// A number that satisfies [`is_floor_sqrt`] is the floor of the square root.
pub proof fn lemma_floor_sqrt_unique(n: int, r: int)
    requires
        is_floor_sqrt(n, r),
    ensures
        floor_sqrt(n) == r,
{
    let c = floor_sqrt(n);
    assert(is_floor_sqrt(n, c));
    if c < r {
        assert((c + 1) * (c + 1) <= r * r) by (nonlinear_arith)
            requires
                0 <= c,
                c + 1 <= r,
        ;
    } else if r < c {
        assert((r + 1) * (r + 1) <= c * c) by (nonlinear_arith)
            requires
                0 <= r,
                r + 1 <= c,
        ;
    }
}

/// Dividing `k * d` by `d` gives `k` back, whatever the sign of `k`.
pub proof fn lemma_trunc_div_exact(k: int, d: int)
    requires
        d > 0,
    ensures
        trunc_div(k * d, d) == k,
{
    if k >= 0 {
        assert(k * d >= 0) by (nonlinear_arith)
            requires
                k >= 0,
                d > 0,
        ;
        lemma_div_multiples_vanish(k, d);
        assert(d * k == k * d) by (nonlinear_arith);
    } else {
        assert(k * d < 0) by (nonlinear_arith)
            requires
                k < 0,
                d > 0,
        ;
        lemma_div_multiples_vanish(-k, d);
        assert(d * (-k) == -(k * d)) by (nonlinear_arith);
    }
}

/// Rounding toward zero keeps the order of the dividends.
pub proof fn lemma_trunc_div_monotonic(a: int, b: int, d: int)
    requires
        d > 0,
        a <= b,
    ensures
        trunc_div(a, d) <= trunc_div(b, d),
{
    if a >= 0 {
        lemma_div_is_ordered(a, b, d);
    } else if b < 0 {
        lemma_div_is_ordered(-b, -a, d);
    } else {
        lemma_div_pos_is_pos(-a, d);
        lemma_div_pos_is_pos(b, d);
    }
}

/// A sum of two numbers weighted by the parts of `total` lies between
/// `total` times any lower and any upper bound of the two.
pub proof fn lemma_weighted_sum_bounds(a: int, b: int, weight: int, total: int, lo: int, hi: int)
    requires
        0 <= weight <= total,
        lo <= a <= hi,
        lo <= b <= hi,
    ensures
        lo * total <= a * (total - weight) + b * weight <= hi * total,
{
    assert(lo * total <= a * (total - weight) + b * weight <= hi * total) by (nonlinear_arith)
        requires
            0 <= weight <= total,
            lo <= a <= hi,
            lo <= b <= hi,
    ;
}

/// A weighted mean lies between its two ends, and meets them at the extreme weights.
pub proof fn lemma_weighted_mean_between(a: int, b: int, weight: int, total: int)
    requires
        0 <= weight <= total,
        total > 0,
    ensures
        a <= b ==> a <= weighted_mean(a, b, weight, total) <= b,
        b <= a ==> b <= weighted_mean(a, b, weight, total) <= a,
        weight == 0 ==> weighted_mean(a, b, weight, total) == a,
        weight == total ==> weighted_mean(a, b, weight, total) == b,
{
    let n = a * (total - weight) + b * weight;
    let lo = if a <= b { a } else { b };
    let hi = if a <= b { b } else { a };
    lemma_weighted_sum_bounds(a, b, weight, total, lo, hi);
    lemma_trunc_div_monotonic(lo * total, n, total);
    lemma_trunc_div_monotonic(n, hi * total, total);
    lemma_trunc_div_exact(lo, total);
    lemma_trunc_div_exact(hi, total);
    if weight == 0 {
        assert(n == a * total) by (nonlinear_arith)
            requires
                n == a * (total - weight) + b * weight,
                weight == 0,
        ;
        lemma_trunc_div_exact(a, total);
    }
    if weight == total {
        assert(n == b * total) by (nonlinear_arith)
            requires
                n == a * (total - weight) + b * weight,
                weight == total,
        ;
        lemma_trunc_div_exact(b, total);
    }
}

/// Floor of the square root of `n`, found one binary digit at a time.
pub fn integer_sqrt(n: u128) -> (r: u64)
    ensures
        r == floor_sqrt(n as int),
        is_floor_sqrt(n as int, r as int),
{
    let mut root: u128 = 0;
    let mut span: u128 = 0x1_0000_0000_0000_0000;
    let ghost mut exponent: nat = 64;
    proof {
        lemma2_to64();
    }
    while span > 1
        invariant
            span == pow2(exponent),
            root + span <= 0x1_0000_0000_0000_0000,
            root * root <= n,
            n < (root + span) * (root + span),
        decreases span,
    {
        proof {
            if exponent == 0 {
                lemma2_to64();
            }
            lemma_pow2_unfold(exponent);
            lemma_pow2_pos((exponent - 1) as nat);
        }
        let half: u128 = span / 2;
        let mid: u128 = root + half;
        assert(mid * mid <= 0xffff_ffff_ffff_ffff * 0xffff_ffff_ffff_ffff) by (nonlinear_arith)
            requires
                0 <= mid <= 0xffff_ffff_ffff_ffff,
        ;
        if mid * mid <= n {
            root = mid;
        }
        span = half;
        proof {
            exponent = (exponent - 1) as nat;
        }
    }
    proof {
        lemma_pow2_pos(exponent);
        lemma_floor_sqrt_unique(n as int, root as int);
    }
    root as u64
}

/// A fixed-point number: `raw` millionths.
#[derive(Clone, Copy, PartialEq, Eq, Structural, Debug)]
pub struct Fixed {
    pub raw: i64,
}

impl View for Fixed {
    type V = int;

    /// The raw value as a mathematical integer.
    open spec fn view(&self) -> int {
        self.raw as int
    }
}

impl Fixed {
    /// The representable number nearest to the raw value `v`.
    pub open spec fn of(v: int) -> Fixed {
        Fixed { raw: saturate(v) as i64 }
    }

    /// Saturating sum.
    pub open spec fn spec_add(self, rhs: Fixed) -> Fixed {
        Fixed::of(self@ + rhs@)
    }

    /// Saturating difference.
    pub open spec fn spec_sub(self, rhs: Fixed) -> Fixed {
        Fixed::of(self@ - rhs@)
    }

    /// Saturating negation.
    pub open spec fn spec_neg(self) -> Fixed {
        Fixed::of(-self@)
    }

    /// Saturating product, rounded toward zero.
    pub open spec fn spec_mul(self, rhs: Fixed) -> Fixed {
        Fixed::of(scaled_product(self@, rhs@))
    }

    /// Saturating quotient by a positive divisor, rounded toward zero.
    pub open spec fn spec_div(self, rhs: Fixed) -> Fixed
        recommends
            rhs@ > 0,
    {
        Fixed::of(scaled_quotient(self@, rhs@))
    }

    /// The number limited to the interval from `-bound` to `bound`.
    pub open spec fn spec_clamp_symmetric(self, bound: Fixed) -> Fixed
        recommends
            bound@ >= 0,
    {
        Fixed::of(clamp_to(self@, -bound@, bound@))
    }

    /// The number with the sign of `toward` applied to it: itself where
    /// `toward` is positive, its saturating negation where `toward` is
    /// negative, zero where `toward` is zero.
    pub open spec fn spec_directed(self, toward: Fixed) -> Fixed {
        Fixed::of(sign(toward@) * self@)
    }

    /// The smaller of two numbers.
    pub open spec fn spec_min(self, rhs: Fixed) -> Fixed {
        if self@ <= rhs@ {
            self
        } else {
            rhs
        }
    }

    /// Mean of `self` and `toward` in which `toward` has `weight` parts of `total`.
    pub open spec fn spec_blend(self, toward: Fixed, weight: Fixed, total: Fixed) -> Fixed
        recommends
            0 <= weight@ <= total@,
            total@ > 0,
    {
        Fixed::of(weighted_mean(self@, toward@, weight@, total@))
    }

    /// Saturates a wide intermediate result.
    fn narrow(wide: i128) -> (r: Fixed)
        ensures
            r == Fixed::of(wide as int),
    {
        if wide < i64::MIN as i128 {
            Fixed { raw: i64::MIN }
        } else if wide > i64::MAX as i128 {
            Fixed { raw: i64::MAX }
        } else {
            Fixed { raw: wide as i64 }
        }
    }

    /// The number with the given raw value.
    pub fn from_raw(raw: i64) -> (r: Fixed)
        ensures
            r@ == raw,
    {
        Fixed { raw }
    }

    /// The whole number `units`, saturated.
    pub fn from_units(units: i64) -> (r: Fixed)
        ensures
            r == Fixed::of(units * SCALE),
    {
        let scale: i128 = 1_000_000;
        Fixed::narrow(units as i128 * scale)
    }

    /// Zero.
    pub fn zero() -> (r: Fixed)
        ensures
            r@ == 0,
    {
        Fixed { raw: 0 }
    }

    /// One.
    pub fn one() -> (r: Fixed)
        ensures
            r@ == SCALE,
    {
        Fixed { raw: SCALE }
    }

    /// The raw value.
    pub fn raw(self) -> (r: i64)
        ensures
            r == self@,
    {
        self.raw
    }

    /// Sign of the number: `-1`, `0` or `1`.
    pub fn signum(self) -> (s: i8)
        ensures
            s == sign(self@),
    {
        if self.raw < 0 {
            -1
        } else if self.raw > 0 {
            1
        } else {
            0
        }
    }

    /// Saturating sum.
    pub fn saturating_add(self, rhs: Fixed) -> (r: Fixed)
        ensures
            r == self.spec_add(rhs),
    {
        Fixed::narrow(self.raw as i128 + rhs.raw as i128)
    }

    /// Saturating difference.
    pub fn saturating_sub(self, rhs: Fixed) -> (r: Fixed)
        ensures
            r == self.spec_sub(rhs),
    {
        Fixed::narrow(self.raw as i128 - rhs.raw as i128)
    }

    /// Saturating negation.
    pub fn saturating_neg(self) -> (r: Fixed)
        ensures
            r == self.spec_neg(),
    {
        Fixed::narrow(-(self.raw as i128))
    }

    /// Saturating product, rounded toward zero.
    pub fn saturating_mul(self, rhs: Fixed) -> (r: Fixed)
        ensures
            r == self.spec_mul(rhs),
    {
        let a: i128 = self.raw as i128;
        let b: i128 = rhs.raw as i128;
        assert(-0x4000_0000_0000_0000_0000_0000_0000_0000 <= a * b
            <= 0x4000_0000_0000_0000_0000_0000_0000_0000) by (nonlinear_arith)
            requires
                -0x8000_0000_0000_0000 <= a <= 0x8000_0000_0000_0000,
                -0x8000_0000_0000_0000 <= b <= 0x8000_0000_0000_0000,
        ;
        Fixed::narrow((a * b) / SCALE as i128)
    }

    /// Saturating quotient by a positive divisor, rounded toward zero.
    pub fn saturating_div(self, rhs: Fixed) -> (r: Fixed)
        requires
            rhs@ > 0,
        ensures
            r == self.spec_div(rhs),
    {
        let a: i128 = self.raw as i128;
        let scale: i128 = 1_000_000;
        Fixed::narrow((a * scale) / rhs.raw as i128)
    }

    /// The number limited to the interval from `-bound` to `bound`.
    pub fn clamp_symmetric(self, bound: Fixed) -> (r: Fixed)
        requires
            bound@ >= 0,
        ensures
            r == self.spec_clamp_symmetric(bound),
            magnitude(r@) <= bound@,
    {
        if self.raw > bound.raw {
            bound
        } else if self.raw < -bound.raw {
            Fixed { raw: -bound.raw }
        } else {
            self
        }
    }

    /// The number with the sign of `toward` applied to it: itself where
    /// `toward` is positive, its saturating negation where `toward` is
    /// negative, zero where `toward` is zero.
    pub fn directed(self, toward: Fixed) -> (r: Fixed)
        ensures
            r == self.spec_directed(toward),
    {
        if toward.raw > 0 {
            self
        } else if toward.raw < 0 {
            self.saturating_neg()
        } else {
            Fixed { raw: 0 }
        }
    }

    /// The smaller of two numbers.
    pub fn min(self, rhs: Fixed) -> (r: Fixed)
        ensures
            r == self.spec_min(rhs),
    {
        if self.raw <= rhs.raw {
            self
        } else {
            rhs
        }
    }

    /// Mean of `self` and `toward` in which `toward` has `weight` parts of
    /// `total` and `self` the rest, rounded toward zero.
    pub fn blend(self, toward: Fixed, weight: Fixed, total: Fixed) -> (r: Fixed)
        requires
            0 <= weight@ <= total@,
            total@ > 0,
        ensures
            r == self.spec_blend(toward, weight, total),
            r@ == weighted_mean(self@, toward@, weight@, total@),
    {
        let a: i128 = self.raw as i128;
        let b: i128 = toward.raw as i128;
        let w: i128 = weight.raw as i128;
        let t: i128 = total.raw as i128;
        assert(-0x4000_0000_0000_0000_0000_0000_0000_0000 <= a * (t - w)
            <= 0x4000_0000_0000_0000_0000_0000_0000_0000) by (nonlinear_arith)
            requires
                -0x8000_0000_0000_0000 <= a <= 0x8000_0000_0000_0000,
                0 <= t - w <= 0x8000_0000_0000_0000,
        ;
        assert(-0x4000_0000_0000_0000_0000_0000_0000_0000 <= b * w
            <= 0x4000_0000_0000_0000_0000_0000_0000_0000) by (nonlinear_arith)
            requires
                -0x8000_0000_0000_0000 <= b <= 0x8000_0000_0000_0000,
                0 <= w <= 0x8000_0000_0000_0000,
        ;
        proof {
            let lowest = i64::MIN as int;
            let highest = i64::MAX as int;
            lemma_weighted_sum_bounds(a as int, b as int, w as int, t as int, lowest, highest);
            assert(-0x4000_0000_0000_0000_0000_0000_0000_0000 <= lowest * t) by (nonlinear_arith)
                requires
                    lowest == -0x8000_0000_0000_0000,
                    0 <= t <= 0x8000_0000_0000_0000,
            ;
            assert(highest * t <= 0x4000_0000_0000_0000_0000_0000_0000_0000) by (nonlinear_arith)
                requires
                    highest == 0x7fff_ffff_ffff_ffff,
                    0 <= t <= 0x8000_0000_0000_0000,
            ;
            lemma_weighted_mean_between(a as int, b as int, w as int, t as int);
        }
        Fixed::narrow((a * (t - w) + b * w) / t)
    }
}

} // verus!
