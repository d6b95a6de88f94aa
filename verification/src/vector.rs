//! Two-dimensional vectors over fixed-point components.

use vstd::prelude::*;
use crate::fixed::{Fixed, fx_add, fx_sub, fx_mul, fx_div, fx_neg, fx_lerp, hypot};

verus! {

/// A point or displacement in the plane.
#[derive(Clone, Copy, Debug, PartialEq, Eq, Structural)]
pub struct Vec2 {
    /// Horizontal component.
    pub x: Fixed,
    /// Vertical component (up is positive).
    pub y: Fixed,
}

impl Vec2 {
    /// The origin.
    pub open spec fn zero_spec() -> Vec2 {
        Vec2 { x: 0, y: 0 }
    }

    /// Componentwise saturating sum.
    pub open spec fn plus_spec(self, other: Vec2) -> Vec2 {
        Vec2 { x: fx_add(self.x, other.x), y: fx_add(self.y, other.y) }
    }

    /// Componentwise saturating difference.
    pub open spec fn minus_spec(self, other: Vec2) -> Vec2 {
        Vec2 { x: fx_sub(self.x, other.x), y: fx_sub(self.y, other.y) }
    }

    /// Both components multiplied by the factor `k`.
    pub open spec fn scaled_spec(self, k: Fixed) -> Vec2 {
        Vec2 { x: fx_mul(self.x, k), y: fx_mul(self.y, k) }
    }

    /// Both components divided by `k`; the zero vector when `k == 0`.
    pub open spec fn divided_spec(self, k: Fixed) -> Vec2 {
        Vec2 { x: fx_div(self.x, k), y: fx_div(self.y, k) }
    }

    /// The vector pointing the opposite way.
    pub open spec fn negated_spec(self) -> Vec2 {
        Vec2 { x: fx_neg(self.x), y: fx_neg(self.y) }
    }

    /// The Euclidean length.
    pub open spec fn length_spec(self) -> Fixed {
        hypot(self.x, self.y)
    }

    /// The vector of length one in the same direction, or the zero vector
    /// when the length rounds to zero.
    pub open spec fn normalized_spec(self) -> Vec2 {
        self.divided_spec(self.length_spec())
    }

    /// The vector turned a quarter turn counter-clockwise.
    pub open spec fn perpendicular_spec(self) -> Vec2 {
        Vec2 { x: fx_neg(self.y), y: self.x }
    }

    /// The point a fraction `t` of the way from `self` to `other`.
    pub open spec fn lerp_spec(self, other: Vec2, t: Fixed) -> Vec2 {
        Vec2 { x: fx_lerp(self.x, other.x, t), y: fx_lerp(self.y, other.y, t) }
    }

    /// The distance between two points.
    pub open spec fn distance_spec(self, other: Vec2) -> Fixed {
        self.minus_spec(other).length_spec()
    }

    /// Builds a vector from its components.
    pub fn new(x: Fixed, y: Fixed) -> (r: Vec2)
        ensures
            r == (Vec2 { x, y }),
    {
        Vec2 { x, y }
    }

    /// The origin.
    #[verifier::when_used_as_spec(zero_spec)]
    pub fn zero() -> (r: Vec2)
        ensures
            r == Vec2::zero_spec(),
    {
        Vec2 { x: 0, y: 0 }
    }

    /// Componentwise saturating sum.
    #[verifier::when_used_as_spec(plus_spec)]
    pub fn plus(self, other: Vec2) -> (r: Vec2)
        ensures
            r == self.plus_spec(other),
    {
        Vec2 { x: fx_add(self.x, other.x), y: fx_add(self.y, other.y) }
    }

    /// Componentwise saturating difference.
    #[verifier::when_used_as_spec(minus_spec)]
    pub fn minus(self, other: Vec2) -> (r: Vec2)
        ensures
            r == self.minus_spec(other),
    {
        Vec2 { x: fx_sub(self.x, other.x), y: fx_sub(self.y, other.y) }
    }

    /// Both components multiplied by the factor `k`.
    #[verifier::when_used_as_spec(scaled_spec)]
    pub fn scaled(self, k: Fixed) -> (r: Vec2)
        ensures
            r == self.scaled_spec(k),
    {
        Vec2 { x: fx_mul(self.x, k), y: fx_mul(self.y, k) }
    }

    /// Both components divided by `k`; the zero vector when `k == 0`.
    #[verifier::when_used_as_spec(divided_spec)]
    pub fn divided(self, k: Fixed) -> (r: Vec2)
        ensures
            r == self.divided_spec(k),
    {
        Vec2 { x: fx_div(self.x, k), y: fx_div(self.y, k) }
    }

    /// The vector pointing the opposite way.
    #[verifier::when_used_as_spec(negated_spec)]
    pub fn negated(self) -> (r: Vec2)
        ensures
            r == self.negated_spec(),
    {
        Vec2 { x: fx_neg(self.x), y: fx_neg(self.y) }
    }

    /// The Euclidean length, rounded down.
    #[verifier::when_used_as_spec(length_spec)]
    pub fn length(self) -> (r: Fixed)
        ensures
            r == self.length_spec(),
            r >= 0,
    {
        hypot(self.x, self.y)
    }

    /// The vector of length one in the same direction, or the zero vector
    /// when the length rounds to zero.
    #[verifier::when_used_as_spec(normalized_spec)]
    pub fn normalized(self) -> (r: Vec2)
        ensures
            r == self.normalized_spec(),
    {
        self.divided(self.length())
    }

    /// The vector turned a quarter turn counter-clockwise.
    #[verifier::when_used_as_spec(perpendicular_spec)]
    pub fn perpendicular(self) -> (r: Vec2)
        ensures
            r == self.perpendicular_spec(),
    {
        Vec2 { x: fx_neg(self.y), y: self.x }
    }

    /// The point a fraction `t` of the way from `self` to `other`.
    #[verifier::when_used_as_spec(lerp_spec)]
    pub fn lerp(self, other: Vec2, t: Fixed) -> (r: Vec2)
        ensures
            r == self.lerp_spec(other, t),
    {
        Vec2 { x: fx_lerp(self.x, other.x, t), y: fx_lerp(self.y, other.y, t) }
    }

    /// The distance between two points.
    #[verifier::when_used_as_spec(distance_spec)]
    pub fn distance(self, other: Vec2) -> (r: Fixed)
        ensures
            r == self.distance_spec(other),
            r >= 0,
    {
        self.minus(other).length()
    }
}

} // verus!
