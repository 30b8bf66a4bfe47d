//! Top, bottom, left and right margins.

use vstd::prelude::*;

use crate::length::Length;

verus! {

/// The mathematical value of a [`Margins`]: all four sides in subunits.
#[verifier::ext_equal]
pub struct MarginsView {
    pub top: int,
    pub bottom: int,
    pub left: int,
    pub right: int,
}

impl MarginsView {
    /// All four sides are nonnegative and small enough for layout
    /// arithmetic.
    pub open spec fn in_range(&self) -> bool {
        &&& crate::length::metric_in_range(self.top)
        &&& crate::length::metric_in_range(self.bottom)
        &&& crate::length::metric_in_range(self.left)
        &&& crate::length::metric_in_range(self.right)
    }
}

/// Top, bottom, left and right margins.
#[derive(Debug, Clone, Copy, PartialEq, Eq, Structural)]
pub struct Margins {
    pub top: Length,
    pub bottom: Length,
    pub left: Length,
    pub right: Length,
}

impl View for Margins {
    type V = MarginsView;

    open spec fn view(&self) -> MarginsView {
        MarginsView {
            top: self.top@,
            bottom: self.bottom@,
            left: self.left@,
            right: self.right@,
        }
    }
}

impl Margins {
    /// Create a new `Margins` object from the individual top, bottom, left
    /// and right margin.
    pub fn tblr(top: Length, bottom: Length, left: Length, right: Length) -> (r: Self)
        ensures
            r@ == (MarginsView { top: top@, bottom: bottom@, left: left@, right: right@ }),
    {
        Margins { top, bottom, left, right }
    }

    /// Create a new `Margins` object from vertical and horizontal margin.
    ///
    /// The vertical margin is duplicated for the top and bottom margin,
    /// and the horizontal margin is duplicated for the left and right margin.
    pub fn vh(vertical: Length, horizontal: Length) -> (r: Self)
        ensures
            r@ == (MarginsView {
                top: vertical@,
                bottom: vertical@,
                left: horizontal@,
                right: horizontal@,
            }),
    {
        Self::tblr(vertical, vertical, horizontal, horizontal)
    }

    /// Create a new `Margins` object using the same margin for all sides.
    pub fn uniform(all: Length) -> (r: Self)
        ensures
            r@ == (MarginsView { top: all@, bottom: all@, left: all@, right: all@ }),
    {
        Self::vh(all, all)
    }

    /// Get the total vertical margin: the sum of the top and bottom margin.
    pub fn total_vertical(&self) -> (r: Length)
        requires
            i64::MIN <= self@.top + self@.bottom <= i64::MAX,
        ensures
            r@ == self@.top + self@.bottom,
    {
        self.top.add(self.bottom)
    }

    /// Get the total horizontal margin: the sum of the left and right margin.
    pub fn total_horizontal(&self) -> (r: Length)
        requires
            i64::MIN <= self@.left + self@.right <= i64::MAX,
        ensures
            r@ == self@.left + self@.right,
    {
        self.left.add(self.right)
    }
}

} // verus!
