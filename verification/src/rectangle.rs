//! An axis-aligned rectangle, given by its minimum and maximum corner.

use vstd::prelude::*;

use crate::length::Length;
use crate::margins::Margins;
use crate::margins::MarginsView;
use crate::vector2::Vector2;
use crate::vector2::Vector2View;

verus! {

/// The mathematical value of a [`Rectangle`]: both corners in subunits.
#[verifier::ext_equal]
pub struct RectangleView {
    pub min: Vector2View,
    pub max: Vector2View,
}

impl RectangleView {
    /// The corners moved inward by the given margins.
    pub open spec fn shrink_spec(self, m: MarginsView) -> RectangleView {
        RectangleView {
            min: Vector2View { x: self.min.x + m.left, y: self.min.y + m.top },
            max: Vector2View { x: self.max.x - m.right, y: self.max.y - m.bottom },
        }
    }

    /// The corners moved outward by the given margins.
    pub open spec fn grow_spec(self, m: MarginsView) -> RectangleView {
        RectangleView {
            min: Vector2View { x: self.min.x - m.left, y: self.min.y - m.top },
            max: Vector2View { x: self.max.x + m.right, y: self.max.y + m.bottom },
        }
    }
}

/// A 2D rectangle with known units.
#[derive(Debug, Clone, Copy, PartialEq, Eq, Structural)]
pub struct Rectangle {
    /// The minimum corner.
    min: Vector2,
    /// The maximum corner.
    max: Vector2,
}

impl View for Rectangle {
    type V = RectangleView;

    closed spec fn view(&self) -> RectangleView {
        RectangleView { min: self.min@, max: self.max@ }
    }
}

impl Rectangle {
    /// Create a rectangle from the minimum and maximum corner.
    pub fn from_min_max(min: Vector2, max: Vector2) -> (r: Self)
        ensures
            r@ == (RectangleView { min: min@, max: max@ }),
    {
        Rectangle { min, max }
    }

    /// Create a rectangle from the position and size.
    pub fn from_pos_size(position: Vector2, size: Vector2) -> (r: Self)
        requires
            i64::MIN <= position@.x + size@.x <= i64::MAX,
            i64::MIN <= position@.y + size@.y <= i64::MAX,
        ensures
            r@ == (RectangleView { min: position@, max: position@.add(size@) }),
    {
        Self::from_min_max(position, position.add(size))
    }

    /// Create a rectangle from the position and size, given componentwise.
    pub fn from_xywh(x: Length, y: Length, width: Length, height: Length) -> (r: Self)
        requires
            i64::MIN <= x@ + width@ <= i64::MAX,
            i64::MIN <= y@ + height@ <= i64::MAX,
        ensures
            r@ == (RectangleView {
                min: Vector2View { x: x@, y: y@ },
                max: Vector2View { x: x@ + width@, y: y@ + height@ },
            }),
    {
        Self::from_pos_size(Vector2::new(x, y), Vector2::new(width, height))
    }

    /// Get the minimum corner of the rectangle.
    pub fn min(&self) -> (r: Vector2)
        ensures
            r@ == self@.min,
    {
        self.min
    }

    /// Get the maximum corner of the rectangle.
    pub fn max(&self) -> (r: Vector2)
        ensures
            r@ == self@.max,
    {
        self.max
    }

    /// Get the size of the rectangle.
    pub fn size(&self) -> (r: Vector2)
        requires
            i64::MIN <= self@.max.x - self@.min.x <= i64::MAX,
            i64::MIN <= self@.max.y - self@.min.y <= i64::MAX,
        ensures
            r@ == self@.max.sub(self@.min),
    {
        self.max.sub(self.min)
    }

    /// Shrink the rectangle by the given margins.
    pub fn shrink(&self, margins: &Margins) -> (r: Self)
        requires
            i64::MIN <= self@.min.x + margins@.left <= i64::MAX,
            i64::MIN <= self@.min.y + margins@.top <= i64::MAX,
            i64::MIN <= self@.max.x - margins@.right <= i64::MAX,
            i64::MIN <= self@.max.y - margins@.bottom <= i64::MAX,
        ensures
            r@ == self@.shrink_spec(margins@),
    {
        let top_left = Vector2::new(margins.left, margins.top);
        let bottom_right = Vector2::new(margins.right, margins.bottom);
        Self::from_min_max(self.min.add(top_left), self.max.sub(bottom_right))
    }

    /// Grow the rectangle by the given margins.
    pub fn grow(&self, margins: &Margins) -> (r: Self)
        requires
            i64::MIN <= self@.min.x - margins@.left <= i64::MAX,
            i64::MIN <= self@.min.y - margins@.top <= i64::MAX,
            i64::MIN <= self@.max.x + margins@.right <= i64::MAX,
            i64::MIN <= self@.max.y + margins@.bottom <= i64::MAX,
        ensures
            r@ == self@.grow_spec(margins@),
    {
        let top_left = Vector2::new(margins.left, margins.top);
        let bottom_right = Vector2::new(margins.right, margins.bottom);
        Self::from_min_max(self.min.sub(top_left), self.max.add(bottom_right))
    }
}

/// Law: shrinking a rectangle by margins and then growing the result by the
/// same margins restores the original rectangle, and the other way round.
pub proof fn lemma_shrink_grow_inverse(r: RectangleView, m: MarginsView)
    ensures
        r.shrink_spec(m).grow_spec(m) == r,
        r.grow_spec(m).shrink_spec(m) == r,
{
    assert(r.shrink_spec(m).grow_spec(m) =~= r);
    assert(r.grow_spec(m).shrink_spec(m) =~= r);
}

} // verus!
