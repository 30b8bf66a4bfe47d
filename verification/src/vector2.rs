//! A two-dimensional vector of [`Length`] components.

use vstd::prelude::*;

use crate::length::Length;

verus! {

/// The mathematical value of a [`Vector2`]: both components in subunits.
#[verifier::ext_equal]
pub struct Vector2View {
    pub x: int,
    pub y: int,
}

impl Vector2View {
    /// Componentwise sum.
    pub open spec fn add(self, rhs: Self) -> Self {
        Vector2View { x: self.x + rhs.x, y: self.y + rhs.y }
    }

    /// Componentwise difference.
    pub open spec fn sub(self, rhs: Self) -> Self {
        Vector2View { x: self.x - rhs.x, y: self.y - rhs.y }
    }
}

/// A 2D vector with known units.
#[derive(Debug, Clone, Copy, PartialEq, Eq, Structural)]
pub struct Vector2 {
    pub x: Length,
    pub y: Length,
}

impl View for Vector2 {
    type V = Vector2View;

    open spec fn view(&self) -> Vector2View {
        Vector2View { x: self.x@, y: self.y@ }
    }
}

impl Vector2 {
    /// Create a vector from its two components.
    pub fn new(x: Length, y: Length) -> (r: Self)
        ensures
            r@ == (Vector2View { x: x@, y: y@ }),
    {
        Vector2 { x, y }
    }

    /// Create the zero vector.
    pub fn zero() -> (r: Self)
        ensures
            r@ == (Vector2View { x: 0, y: 0 }),
    {
        Vector2 { x: Length::zero(), y: Length::zero() }
    }

    /// Add two vectors componentwise.
    pub fn add(self, rhs: Self) -> (r: Self)
        requires
            i64::MIN <= self@.x + rhs@.x <= i64::MAX,
            i64::MIN <= self@.y + rhs@.y <= i64::MAX,
        ensures
            r@ == self@.add(rhs@),
    {
        Vector2 { x: self.x.add(rhs.x), y: self.y.add(rhs.y) }
    }

    /// Subtract a vector componentwise.
    pub fn sub(self, rhs: Self) -> (r: Self)
        requires
            i64::MIN <= self@.x - rhs@.x <= i64::MAX,
            i64::MIN <= self@.y - rhs@.y <= i64::MAX,
        ensures
            r@ == self@.sub(rhs@),
    {
        Vector2 { x: self.x.sub(rhs.x), y: self.y.sub(rhs.y) }
    }

    /// Negate both components.
    pub fn neg(self) -> (r: Self)
        requires
            self@.x > i64::MIN,
            self@.y > i64::MIN,
        ensures
            r@ == (Vector2View { x: -self@.x, y: -self@.y }),
    {
        Vector2 { x: self.x.neg(), y: self.y.neg() }
    }
}

} // verus!
