//! The box-model contract that every layout element implements.
//!
//! All drawables are modeled as items that can be limited to a maximum
//! width.  Items grow in height as needed to compensate for lost width.
//! Each element carries the extents the text-shaping backend measured for
//! it; the layout computations over those extents are exact.

use vstd::prelude::*;

use crate::length::Length;
use crate::length::opt_len_view;
use crate::offset::AnchorX;
use crate::offset::AnchorY;
use crate::offset::Offset;
use crate::vector2::Vector2;
use crate::vector2::Vector2View;

verus! {

/// The most children a composite element can hold: together with the
/// metric bound this keeps accumulated extents within an `i64`.
pub const MAX_CHILDREN: usize = 0x10_0000;

/// Read-only access to a layout element.
pub trait Drawable: Sized {
    /// Whether the element's stored measurements are sound for layout
    /// arithmetic.
    spec fn wf(&self) -> bool;

    /// The current width constraint, if any.
    spec fn spec_max_width(&self) -> Option<int>;

    /// The size of the element under its current configuration.
    spec fn spec_size(&self) -> Vector2View;

    /// The distance from the top to the first baseline, if the element
    /// has text.
    spec fn spec_baseline(&self) -> Option<int>;

    /// The width the element would take with no constraint applied.
    spec fn spec_natural_width(&self) -> int;

    /// The smallest width the element can be compressed to.
    spec fn spec_min_width(&self) -> int;

    /// Law: a well-formed element's extents are never negative.
    proof fn wf_bounds(&self)
        requires
            self.wf(),
        ensures
            0 <= self.spec_size().x,
            0 <= self.spec_size().y,
            0 <= self.spec_natural_width(),
            0 <= self.spec_min_width(),
            match self.spec_baseline() {
                Some(b) => 0 <= b,
                None => true,
            },
    ;

    /// Get the minimum width of the element.
    fn min_width(&self) -> (r: Length)
        requires
            self.wf(),
        ensures
            r@ == self.spec_min_width(),
    ;

    /// Get the maximum width of the element.
    fn max_width(&self) -> (r: Option<Length>)
        requires
            self.wf(),
        ensures
            opt_len_view(r) == self.spec_max_width(),
    ;

    /// Compute the size of the element for the current configuration.
    fn compute_size(&self) -> (r: Vector2)
        requires
            self.wf(),
        ensures
            r@ == self.spec_size(),
    ;

    /// Compute the width of the element for the current configuration.
    fn compute_width(&self) -> (r: Length)
        requires
            self.wf(),
        ensures
            r@ == self.spec_size().x,
    ;

    /// Compute the height of the element for the current configuration.
    fn compute_height(&self) -> (r: Length)
        requires
            self.wf(),
        ensures
            r@ == self.spec_size().y,
    ;

    /// Compute the distance of the baseline from the top of the element,
    /// or `None` if the element has no text.
    fn compute_baseline(&self) -> (r: Option<Length>)
        requires
            self.wf(),
        ensures
            opt_len_view(r) == self.spec_baseline(),
    ;

    /// Compute the natural width of the element: its width with no
    /// width limit applied.
    fn compute_natural_width(&self) -> (r: Length)
        requires
            self.wf(),
        ensures
            r@ == self.spec_natural_width(),
    ;

    /// Add a position offset to the element.
    fn offset(self, offset: Vector2) -> (r: Offset<Self>)
        ensures
            r.inner == self,
            r.offset == offset,
            r.anchor_x == AnchorX::Left,
            r.anchor_y == AnchorY::Top,
    {
        Offset::new(self, offset)
    }
}

/// Mutable access to a layout element: the width constraint can be
/// replaced after construction, for instance by a parent composite.
pub trait DrawableMut: Drawable {
    /// Whether the given constraint (as a view) can be applied to this
    /// element.
    spec fn set_max_width_ok(&self, width: Option<int>) -> bool;

    /// How `self` and the element after setting the given constraint are
    /// related: each implementation states exactly what changes — the
    /// constraint itself, and how it is forwarded to children — and what
    /// stays in place.
    spec fn with_max_width_rel(&self, new: &Self, width: Option<int>) -> bool;

    /// Set the maximum width of the element.
    ///
    /// The new constraint takes effect on the next measurement by the
    /// text-shaping backend; stored measurements are left in place.
    fn set_max_width(&mut self, width: Option<Length>)
        requires
            old(self).wf(),
            old(self).set_max_width_ok(opt_len_view(width)),
        ensures
            final(self).wf(),
            final(self).spec_max_width() == opt_len_view(width),
            old(self).with_max_width_rel(final(self), opt_len_view(width)),
    ;
}

} // verus!
