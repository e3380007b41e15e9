//! Two-dimensional vectors of fixed-point numbers.
//!
//! Every operation works axis by axis with the saturating arithmetic of
//! [`Fixed`]; only the length mixes the two axes.

use vstd::prelude::*;
use crate::fixed::Fixed;
use crate::fixed::floor_sqrt;
use crate::fixed::integer_sqrt;
use crate::fixed::magnitude;

verus! {

/// A vector, or a point of the plane.
#[derive(Clone, Copy, PartialEq, Eq, Structural, Debug)]
pub struct Vec2 {
    pub x: Fixed,
    pub y: Fixed,
}

impl View for Vec2 {
    type V = (int, int);

    /// The raw values of the two axes.
    open spec fn view(&self) -> (int, int) {
        (self.x@, self.y@)
    }
}

impl Vec2 {
    /// Sum, axis by axis.
    pub open spec fn spec_add(self, rhs: Vec2) -> Vec2 {
        Vec2 { x: self.x.spec_add(rhs.x), y: self.y.spec_add(rhs.y) }
    }

    /// Difference, axis by axis.
    pub open spec fn spec_sub(self, rhs: Vec2) -> Vec2 {
        Vec2 { x: self.x.spec_sub(rhs.x), y: self.y.spec_sub(rhs.y) }
    }

    /// Both axes multiplied by `factor`.
    pub open spec fn spec_scale(self, factor: Fixed) -> Vec2 {
        Vec2 { x: self.x.spec_mul(factor), y: self.y.spec_mul(factor) }
    }

    /// Each axis limited on its own to the interval from `-bound` to `bound`
    /// of that axis: a box, not a circle.
    pub open spec fn spec_clamp_box(self, bound: Vec2) -> Vec2
        recommends
            bound.x@ >= 0,
            bound.y@ >= 0,
    {
        Vec2 { x: self.x.spec_clamp_symmetric(bound.x), y: self.y.spec_clamp_symmetric(bound.y) }
    }

    /// Both axes lie within the box that `bound` spans round the origin.
    pub open spec fn within_box(self, bound: Vec2) -> bool {
        magnitude(self.x@) <= bound.x@ && magnitude(self.y@) <= bound.y@
    }

    /// Euclidean length, rounded down to a raw step and saturated.
    pub open spec fn spec_length(self) -> Fixed {
        Fixed::of(floor_sqrt(self.x@ * self.x@ + self.y@ * self.y@))
    }

    /// Length of the saturating difference `other - self`.
    pub open spec fn spec_distance(self, other: Vec2) -> Fixed {
        other.spec_sub(self).spec_length()
    }

    /// The vector turned by a quarter turn counter-clockwise: `(-y, x)`.
    pub open spec fn spec_perp(self) -> Vec2 {
        Vec2 { x: self.y.spec_neg(), y: self.x }
    }

    /// The vector turned by a quarter turn clockwise: `(y, -x)`.
    pub open spec fn spec_perp_clockwise(self) -> Vec2 {
        Vec2 { x: self.y, y: self.x.spec_neg() }
    }

    /// Mean of `self` and `toward`, axis by axis, in which `toward` has
    /// `weight` parts of `total`.
    pub open spec fn spec_blend(self, toward: Vec2, weight: Fixed, total: Fixed) -> Vec2
        recommends
            0 <= weight@ <= total@,
            total@ > 0,
    {
        Vec2 {
            x: self.x.spec_blend(toward.x, weight, total),
            y: self.y.spec_blend(toward.y, weight, total),
        }
    }

    /// The vector with the given axes.
    pub fn new(x: Fixed, y: Fixed) -> (r: Vec2)
        ensures
            r.x == x,
            r.y == y,
    {
        Vec2 { x, y }
    }

    /// The vector with the given axes in whole units, saturated.
    pub fn from_units(x: i64, y: i64) -> (r: Vec2)
        ensures
            r.x == Fixed::of(x * crate::fixed::SCALE),
            r.y == Fixed::of(y * crate::fixed::SCALE),
    {
        Vec2 { x: Fixed::from_units(x), y: Fixed::from_units(y) }
    }

    /// The zero vector.
    pub fn zero() -> (r: Vec2)
        ensures
            r@ == (0int, 0int),
    {
        Vec2 { x: Fixed::zero(), y: Fixed::zero() }
    }

    /// Sum, axis by axis.
    pub fn saturating_add(self, rhs: Vec2) -> (r: Vec2)
        ensures
            r == self.spec_add(rhs),
    {
        Vec2 { x: self.x.saturating_add(rhs.x), y: self.y.saturating_add(rhs.y) }
    }

    /// Difference, axis by axis.
    pub fn saturating_sub(self, rhs: Vec2) -> (r: Vec2)
        ensures
            r == self.spec_sub(rhs),
    {
        Vec2 { x: self.x.saturating_sub(rhs.x), y: self.y.saturating_sub(rhs.y) }
    }

    /// Both axes multiplied by `factor`.
    pub fn scale(self, factor: Fixed) -> (r: Vec2)
        ensures
            r == self.spec_scale(factor),
    {
        Vec2 { x: self.x.saturating_mul(factor), y: self.y.saturating_mul(factor) }
    }

    /// Each axis limited on its own to the interval from `-bound` to `bound`
    /// of that axis.
    pub fn clamp_box(self, bound: Vec2) -> (r: Vec2)
        requires
            bound.x@ >= 0,
            bound.y@ >= 0,
        ensures
            r == self.spec_clamp_box(bound),
            r.within_box(bound),
    {
        Vec2 { x: self.x.clamp_symmetric(bound.x), y: self.y.clamp_symmetric(bound.y) }
    }

    /// Euclidean length, rounded down to a raw step and saturated.
    pub fn length(self) -> (r: Fixed)
        ensures
            r == self.spec_length(),
            r@ >= 0,
    {
        let x: i128 = self.x.raw as i128;
        let y: i128 = self.y.raw as i128;
        assert(0 <= x * x <= 0x4000_0000_0000_0000_0000_0000_0000_0000) by (nonlinear_arith)
            requires
                -0x8000_0000_0000_0000 <= x <= 0x8000_0000_0000_0000,
        ;
        assert(0 <= y * y <= 0x4000_0000_0000_0000_0000_0000_0000_0000) by (nonlinear_arith)
            requires
                -0x8000_0000_0000_0000 <= y <= 0x8000_0000_0000_0000,
        ;
        let squares: u128 = (x * x) as u128 + (y * y) as u128;
        let root: u64 = integer_sqrt(squares);
        if root > i64::MAX as u64 {
            Fixed { raw: i64::MAX }
        } else {
            Fixed { raw: root as i64 }
        }
    }

    /// Length of the saturating difference `other - self`.
    pub fn distance(self, other: Vec2) -> (r: Fixed)
        ensures
            r == self.spec_distance(other),
            r@ >= 0,
    {
        other.saturating_sub(self).length()
    }

    /// The vector turned by a quarter turn counter-clockwise: `(-y, x)`.
    pub fn perp(self) -> (r: Vec2)
        ensures
            r == self.spec_perp(),
    {
        Vec2 { x: self.y.saturating_neg(), y: self.x }
    }

    /// The vector turned by a quarter turn clockwise: `(y, -x)`.
    pub fn perp_clockwise(self) -> (r: Vec2)
        ensures
            r == self.spec_perp_clockwise(),
    {
        Vec2 { x: self.y, y: self.x.saturating_neg() }
    }

    /// Mean of `self` and `toward`, axis by axis, in which `toward` has
    /// `weight` parts of `total` and `self` the rest.
    pub fn blend(self, toward: Vec2, weight: Fixed, total: Fixed) -> (r: Vec2)
        requires
            0 <= weight@ <= total@,
            total@ > 0,
        ensures
            r == self.spec_blend(toward, weight, total),
    {
        Vec2 {
            x: self.x.blend(toward.x, weight, total),
            y: self.y.blend(toward.y, weight, total),
        }
    }
}

} // verus!
