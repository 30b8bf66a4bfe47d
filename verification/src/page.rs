//! A page: its dimensions and margins, and the text area they leave.
//!
//! The drawing surface behind a page belongs to the graphics backend;
//! the page itself only does the geometry.

use vstd::prelude::*;

use crate::length::Length;
use crate::length::SUB_PER_MM;
use crate::length::metric_in_range;
use crate::margins::Margins;
use crate::rectangle::Rectangle;
use crate::rectangle::RectangleView;
use crate::vector2::Vector2;
use crate::vector2::Vector2View;

verus! {

/// The size of an A4 page: 210 by 297 millimeters.
pub fn a4() -> (r: Vector2)
    ensures
        r@ == (Vector2View { x: 210 * SUB_PER_MM, y: 297 * SUB_PER_MM }),
{
    Vector2::new(Length::from_mm(210), Length::from_mm(297))
}

/// A page with its margins.
#[derive(Debug, Clone, Copy, PartialEq, Eq, Structural)]
pub struct Page {
    pub size: Vector2,
    pub margins: Margins,
}

impl Page {
    /// The page's dimensions and margins are sound for layout
    /// arithmetic.
    pub open spec fn spec_wf(&self) -> bool {
        &&& metric_in_range(self.size@.x)
        &&& metric_in_range(self.size@.y)
        &&& self.margins@.in_range()
    }

    /// Create an A4 page with margins of 30 millimeters above and below
    /// and 20 millimeters at the sides.
    pub fn new() -> (r: Self)
        ensures
            r.size@ == (Vector2View { x: 210 * SUB_PER_MM, y: 297 * SUB_PER_MM }),
            r.margins@.top == 30 * SUB_PER_MM,
            r.margins@.bottom == 30 * SUB_PER_MM,
            r.margins@.left == 20 * SUB_PER_MM,
            r.margins@.right == 20 * SUB_PER_MM,
            r.spec_wf(),
    {
        Page { size: a4(), margins: Margins::vh(Length::from_mm(30), Length::from_mm(20)) }
    }

    /// Get the size of the page.
    pub fn size(&self) -> (r: Vector2)
        ensures
            r == self.size,
    {
        self.size
    }

    /// Set the size of the page.
    pub fn set_size(self, size: Vector2) -> (r: Self)
        ensures
            r == (Page { size, ..self }),
    {
        Page { size, ..self }
    }

    /// Set the size of the page to A4.
    pub fn set_size_a4(self) -> (r: Self)
        ensures
            r.size@ == (Vector2View { x: 210 * SUB_PER_MM, y: 297 * SUB_PER_MM }),
            r.margins == self.margins,
    {
        self.set_size(a4())
    }

    /// Set all four margins.
    pub fn set_margins(self, margins: Margins) -> (r: Self)
        ensures
            r == (Page { margins, ..self }),
    {
        Page { margins, ..self }
    }

    /// Set the top margin.
    pub fn set_top_margin(self, value: Length) -> (r: Self)
        ensures
            r.size == self.size,
            r.margins == (Margins { top: value, ..self.margins }),
    {
        Page { margins: Margins { top: value, ..self.margins }, ..self }
    }

    /// Set the bottom margin.
    pub fn set_bottom_margin(self, value: Length) -> (r: Self)
        ensures
            r.size == self.size,
            r.margins == (Margins { bottom: value, ..self.margins }),
    {
        Page { margins: Margins { bottom: value, ..self.margins }, ..self }
    }

    /// Set the left margin.
    pub fn set_left_margin(self, value: Length) -> (r: Self)
        ensures
            r.size == self.size,
            r.margins == (Margins { left: value, ..self.margins }),
    {
        Page { margins: Margins { left: value, ..self.margins }, ..self }
    }

    /// Set the right margin.
    pub fn set_right_margin(self, value: Length) -> (r: Self)
        ensures
            r.size == self.size,
            r.margins == (Margins { right: value, ..self.margins }),
    {
        Page { margins: Margins { right: value, ..self.margins }, ..self }
    }

    /// Set the top and bottom margin.
    pub fn set_vertical_margins(self, value: Length) -> (r: Self)
        ensures
            r.size == self.size,
            r.margins == (Margins { top: value, bottom: value, ..self.margins }),
    {
        Page { margins: Margins { top: value, bottom: value, ..self.margins }, ..self }
    }

    /// Set the left and right margin.
    pub fn set_horizontal_margins(self, value: Length) -> (r: Self)
        ensures
            r.size == self.size,
            r.margins == (Margins { left: value, right: value, ..self.margins }),
    {
        Page { margins: Margins { left: value, right: value, ..self.margins }, ..self }
    }

    /// Get the text area of the page: the page rectangle shrunk by the
    /// margins.
    pub fn text_area(&self) -> (r: Rectangle)
        requires
            self.spec_wf(),
        ensures
            r@ == (RectangleView { min: Vector2View { x: 0, y: 0 }, max: self.size@ }).shrink_spec(
                self.margins@,
            ),
    {
        Rectangle::from_min_max(Vector2::zero(), self.size).shrink(&self.margins)
    }

    /// Get the width of the text area: the page width minus the left
    /// and right margin.
    pub fn text_width(&self) -> (r: Length)
        requires
            self.spec_wf(),
        ensures
            r@ == self.size@.x - (self.margins@.left + self.margins@.right),
    {
        self.size.x.sub(self.margins.total_horizontal())
    }

    /// Get the height of the text area: the page height minus the top
    /// and bottom margin.
    pub fn text_height(&self) -> (r: Length)
        requires
            self.spec_wf(),
        ensures
            r@ == self.size@.y - (self.margins@.top + self.margins@.bottom),
    {
        self.size.y.sub(self.margins.total_vertical())
    }
}

} // verus!
