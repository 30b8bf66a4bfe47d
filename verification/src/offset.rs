//! A decorator that repositions a wrapped element relative to an anchor
//! point.
//!
//! When the wrapped element is drawn at a position, the configured offset
//! is added, and the anchor point of the element's bounding box — rather
//! than its top-left corner — is placed at the resulting point.

use vstd::prelude::*;

use crate::drawable::Drawable;
use crate::drawable::DrawableMut;
use crate::length::Length;
use crate::length::div_trunc;
use crate::length::metric_in_range;
use crate::vector2::Vector2;
use crate::vector2::Vector2View;

verus! {

/// The horizontal anchor of a wrapped element.
#[derive(Debug, Clone, Copy, PartialEq, Eq, Structural)]
pub enum AnchorX {
    Left,
    Center,
    Right,
}

/// The vertical anchor of a wrapped element.
#[derive(Debug, Clone, Copy, PartialEq, Eq, Structural)]
pub enum AnchorY {
    Top,
    Baseline,
    Center,
    Bottom,
}

/// A wrapped element together with a position offset and an anchor.
#[derive(Debug, Clone)]
pub struct Offset<T> {
    pub inner: T,
    pub offset: Vector2,
    pub anchor_x: AnchorX,
    pub anchor_y: AnchorY,
}

impl<T> Offset<T> {
    /// Add a position offset to a drawable element.
    ///
    /// The anchor starts at the top-left corner, so drawing simply adds
    /// the offset to the position.
    pub fn new(inner: T, offset: Vector2) -> (r: Self)
        ensures
            r.inner == inner,
            r.offset == offset,
            r.anchor_x == AnchorX::Left,
            r.anchor_y == AnchorY::Top,
    {
        Offset { inner, offset, anchor_x: AnchorX::Left, anchor_y: AnchorY::Top }
    }

    /// Get a reference to the wrapped element.
    pub fn inner(&self) -> (r: &T)
        ensures
            r == &self.inner,
    {
        &self.inner
    }

    /// Get a mutable reference to the wrapped element.
    pub fn inner_mut(&mut self) -> (r: &mut T)
        ensures
            *r == old(self).inner,
            *final(self) == (Offset { inner: *final(r), ..*old(self) }),
    {
        &mut self.inner
    }

    /// Get the position offset.
    pub fn offset(&self) -> (r: &Vector2)
        ensures
            r == &self.offset,
    {
        &self.offset
    }

    /// Get a mutable reference to the position offset.
    pub fn offset_mut(&mut self) -> (r: &mut Vector2)
        ensures
            *r == old(self).offset,
            *final(self) == (Offset { offset: *final(r), ..*old(self) }),
    {
        &mut self.offset
    }

    /// Move the wrapped element out of this `Offset`.
    pub fn into_inner(self) -> (r: T)
        ensures
            r == self.inner,
    {
        self.inner
    }

    /// Change the configured position offset.
    pub fn set_offset(self, offset: Vector2) -> (r: Self)
        ensures
            r == (Offset { offset, ..self }),
    {
        Offset { offset, ..self }
    }

    /// Add a vector to the current position offset.
    pub fn add_offset(self, offset: Vector2) -> (r: Self)
        requires
            i64::MIN <= self.offset@.x + offset@.x <= i64::MAX,
            i64::MIN <= self.offset@.y + offset@.y <= i64::MAX,
        ensures
            r.inner == self.inner,
            r.offset@ == self.offset@.add(offset@),
            r.anchor_x == self.anchor_x,
            r.anchor_y == self.anchor_y,
    {
        let moved = self.offset.add(offset);
        Offset { offset: moved, ..self }
    }

    /// Subtract a vector from the current position offset.
    pub fn sub_offset(self, offset: Vector2) -> (r: Self)
        requires
            i64::MIN <= self.offset@.x - offset@.x <= i64::MAX,
            i64::MIN <= self.offset@.y - offset@.y <= i64::MAX,
        ensures
            r.inner == self.inner,
            r.offset@ == self.offset@.sub(offset@),
            r.anchor_x == self.anchor_x,
            r.anchor_y == self.anchor_y,
    {
        let moved = self.offset.sub(offset);
        Offset { offset: moved, ..self }
    }

    /// Change the X anchor of the wrapped element.
    pub fn set_anchor_x(self, anchor_x: AnchorX) -> (r: Self)
        ensures
            r == (Offset { anchor_x, ..self }),
    {
        Offset { anchor_x, ..self }
    }

    /// Change the Y anchor of the wrapped element.
    pub fn set_anchor_y(self, anchor_y: AnchorY) -> (r: Self)
        ensures
            r == (Offset { anchor_y, ..self }),
    {
        Offset { anchor_y, ..self }
    }

    /// Anchor the wrapped element on the left.
    pub fn anchor_left(self) -> (r: Self)
        ensures
            r == (Offset { anchor_x: AnchorX::Left, ..self }),
    {
        self.set_anchor_x(AnchorX::Left)
    }

    /// Anchor the wrapped element on the center in X direction.
    pub fn anchor_center_x(self) -> (r: Self)
        ensures
            r == (Offset { anchor_x: AnchorX::Center, ..self }),
    {
        self.set_anchor_x(AnchorX::Center)
    }

    /// Anchor the wrapped element on the right.
    pub fn anchor_right(self) -> (r: Self)
        ensures
            r == (Offset { anchor_x: AnchorX::Right, ..self }),
    {
        self.set_anchor_x(AnchorX::Right)
    }

    /// Anchor the wrapped element on the top.
    pub fn anchor_top(self) -> (r: Self)
        ensures
            r == (Offset { anchor_y: AnchorY::Top, ..self }),
    {
        self.set_anchor_y(AnchorY::Top)
    }

    /// Anchor the wrapped element on its first baseline.
    pub fn anchor_baseline(self) -> (r: Self)
        ensures
            r == (Offset { anchor_y: AnchorY::Baseline, ..self }),
    {
        self.set_anchor_y(AnchorY::Baseline)
    }

    /// Anchor the wrapped element on the center in Y direction.
    pub fn anchor_center_y(self) -> (r: Self)
        ensures
            r == (Offset { anchor_y: AnchorY::Center, ..self }),
    {
        self.set_anchor_y(AnchorY::Center)
    }

    /// Anchor the wrapped element on the bottom.
    pub fn anchor_bottom(self) -> (r: Self)
        ensures
            r == (Offset { anchor_y: AnchorY::Bottom, ..self }),
    {
        self.set_anchor_y(AnchorY::Bottom)
    }
}

/// Law: with the anchor at the bottom center, the wrapped element's
/// bounding box has its bottom-center point at the drawing position plus
/// the offset — its top-left corner lands half its width to the left and
/// its whole height up.
pub proof fn lemma_anchor_center_bottom<T: Drawable>(wrapped: Offset<T>, position: Vector2View)
    requires
        wrapped.anchor_x == AnchorX::Center,
        wrapped.anchor_y == AnchorY::Bottom,
    ensures
        wrapped.spec_child_position(position) == (Vector2View {
            x: position.x + wrapped.offset@.x - div_trunc(wrapped.inner.spec_size().x, 2),
            y: position.y + wrapped.offset@.y - wrapped.inner.spec_size().y,
        }),
{
}

impl<T: Drawable> Offset<T> {
    /// The anchor-relative alignment that is subtracted before drawing:
    /// zero for the top-left anchor, half the size for a centered anchor,
    /// the full extent for a right or bottom anchor, and the baseline
    /// distance for the baseline anchor.
    pub open spec fn spec_align(&self) -> Vector2View {
        let size = self.inner.spec_size();
        Vector2View {
            x: match self.anchor_x {
                AnchorX::Left => 0,
                AnchorX::Center => div_trunc(size.x, 2),
                AnchorX::Right => size.x,
            },
            y: match self.anchor_y {
                AnchorY::Top => 0,
                AnchorY::Baseline => match self.inner.spec_baseline() {
                    Some(b) => b,
                    None => 0,
                },
                AnchorY::Center => div_trunc(size.y, 2),
                AnchorY::Bottom => size.y,
            },
        }
    }

    /// Where the wrapped element's top-left corner lands when this
    /// decorator is drawn at `position`: the offset is added and the
    /// anchor alignment subtracted, so the anchor point of the element's
    /// bounding box falls on `position + offset`.
    pub open spec fn spec_child_position(&self, position: Vector2View) -> Vector2View {
        position.add(self.offset@).sub(self.spec_align())
    }

    /// Compute the position at which the wrapped element is drawn when
    /// this decorator is drawn at `position`.
    pub fn child_position(&self, position: Vector2) -> (r: Vector2)
        requires
            self.wf(),
            i64::MIN <= position@.x + self.offset@.x <= i64::MAX,
            i64::MIN <= position@.y + self.offset@.y <= i64::MAX,
            i64::MIN <= position@.x + self.offset@.x - self.spec_align().x <= i64::MAX,
            i64::MIN <= position@.y + self.offset@.y - self.spec_align().y <= i64::MAX,
        ensures
            r@ == self.spec_child_position(position@),
    {
        if matches!(self.anchor_x, AnchorX::Left) && matches!(self.anchor_y, AnchorY::Top) {
            position.add(self.offset)
        } else {
            let size = self.inner.compute_size();
            let align_x = match self.anchor_x {
                AnchorX::Left => Length::zero(),
                AnchorX::Center => size.x.half(),
                AnchorX::Right => size.x,
            };
            let align_y = match self.anchor_y {
                AnchorY::Top => Length::zero(),
                AnchorY::Baseline => match self.inner.compute_baseline() {
                    Some(b) => b,
                    None => Length::zero(),
                },
                AnchorY::Center => size.y.half(),
                AnchorY::Bottom => size.y,
            };
            let align = Vector2::new(align_x, align_y);
            position.add(self.offset).sub(align)
        }
    }
}

impl<T: Drawable> Drawable for Offset<T> {
    open spec fn wf(&self) -> bool {
        self.inner.wf()
    }

    open spec fn spec_max_width(&self) -> Option<int> {
        self.inner.spec_max_width()
    }

    open spec fn spec_size(&self) -> Vector2View {
        self.inner.spec_size()
    }

    open spec fn spec_baseline(&self) -> Option<int> {
        self.inner.spec_baseline()
    }

    open spec fn spec_natural_width(&self) -> int {
        self.inner.spec_natural_width()
    }

    open spec fn spec_min_width(&self) -> int {
        self.inner.spec_min_width()
    }

    proof fn wf_bounds(&self) {
        self.inner.wf_bounds();
    }

    fn min_width(&self) -> (r: Length) {
        self.inner.min_width()
    }

    fn max_width(&self) -> (r: Option<Length>) {
        self.inner.max_width()
    }

    fn compute_size(&self) -> (r: Vector2) {
        self.inner.compute_size()
    }

    fn compute_width(&self) -> (r: Length) {
        self.inner.compute_width()
    }

    fn compute_height(&self) -> (r: Length) {
        self.inner.compute_height()
    }

    fn compute_baseline(&self) -> (r: Option<Length>) {
        self.inner.compute_baseline()
    }

    fn compute_natural_width(&self) -> (r: Length) {
        self.inner.compute_natural_width()
    }
}

impl<T: DrawableMut> DrawableMut for Offset<T> {
    open spec fn set_max_width_ok(&self, width: Option<int>) -> bool {
        self.inner.set_max_width_ok(width)
    }

    open spec fn with_max_width_rel(&self, new: &Self, width: Option<int>) -> bool {
        &&& self.inner.with_max_width_rel(&new.inner, width)
        &&& new.offset == self.offset
        &&& new.anchor_x == self.anchor_x
        &&& new.anchor_y == self.anchor_y
    }

    fn set_max_width(&mut self, width: Option<Length>) {
        self.inner.set_max_width(width)
    }
}

} // verus!
