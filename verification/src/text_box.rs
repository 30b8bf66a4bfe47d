//! A drawable text box.
//!
//! The box owns its text and style and carries the extents that the
//! text-shaping backend measured for it under the current width
//! constraint.  After the constraint changes, the owner is expected to
//! measure again and store the fresh extents through [`TextBox::set_metrics`]
//! or [`TextBox::apply_metrics`].

use vstd::prelude::*;

use crate::drawable::Drawable;
use crate::drawable::DrawableMut;
use crate::length::Length;
use crate::length::metric_in_range;
use crate::length::opt_len_view;
use crate::style::Color;
use crate::style::FontSpec;
use crate::style::FontStyle;
use crate::style::FontWeight;
use crate::style::TextAlignment;
use crate::style::TextStyle;
use crate::vector2::Vector2;
use crate::vector2::Vector2View;

verus! {

/// The extents of a shaped text run, as reported by the text backend.
#[derive(Debug, Clone, Copy, PartialEq, Eq, Structural)]
pub struct TextMetrics {
    /// The logical size of the run under the active width constraint.
    pub size: Vector2,
    /// The distance from the top of the run to the first baseline.
    pub baseline: Length,
    /// The width the run takes when no width constraint is applied.
    pub natural_width: Length,
}

impl TextMetrics {
    /// All extents are nonnegative and small enough for layout arithmetic.
    pub open spec fn wf(&self) -> bool {
        &&& metric_in_range(self.size@.x)
        &&& metric_in_range(self.size@.y)
        &&& metric_in_range(self.baseline@)
        &&& metric_in_range(self.natural_width@)
    }

    /// Whether all extents are zero.
    pub open spec fn is_zero(&self) -> bool {
        &&& self.size@ == (Vector2View { x: 0, y: 0 })
        &&& self.baseline@ == 0
        &&& self.natural_width@ == 0
    }

    /// Extents of an empty, unmeasured run: everything zero.
    pub fn zero() -> (r: Self)
        ensures
            r.is_zero(),
            r.wf(),
    {
        TextMetrics {
            size: Vector2::zero(),
            baseline: Length::zero(),
            natural_width: Length::zero(),
        }
    }

    /// Extents given directly: the size, the baseline and the natural width.
    pub fn new(size: Vector2, baseline: Length, natural_width: Length) -> (r: Self)
        ensures
            r == (TextMetrics { size, baseline, natural_width }),
    {
        TextMetrics { size, baseline, natural_width }
    }
}

/// A drawable text box.
#[derive(Debug, Clone)]
pub struct TextBox {
    /// The text shown in the box.
    pub text: String,
    /// The complete text style.
    pub style: TextStyle,
    /// The text color.
    pub color: Color,
    /// The active width constraint; `None` reports the natural size.
    pub max_width: Option<Length>,
    /// The extents the backend measured under the active constraint.
    pub metrics: TextMetrics,
}

impl TextBox {
    /// Create a new, empty text box with the default style and no
    /// measurements yet.
    pub fn new() -> (r: Self)
        ensures
            r.text@ == Seq::<char>::empty(),
            r.style.alignment == TextAlignment::Left,
            r.style.justify == false,
            r.style.line_height_permille == 1000,
            r.color == (Color { red: 0, green: 0, blue: 0, alpha: 255 }),
            r.max_width is None,
            r.metrics.is_zero(),
            r.wf(),
    {
        TextBox {
            text: String::new(),
            style: TextStyle::default(),
            color: Color::black(),
            max_width: None,
            metrics: TextMetrics::zero(),
        }
    }

    /// Set the text.
    pub fn set_text(self, text: String) -> (r: Self)
        ensures
            r.text@ == text@,
            r.style == self.style,
            r.color == self.color,
            r.max_width == self.max_width,
            r.metrics == self.metrics,
    {
        TextBox { text, ..self }
    }

    /// Set the text color.
    pub fn set_color(self, color: Color) -> (r: Self)
        ensures
            r.text@ == self.text@,
            r.style == self.style,
            r.color == color,
            r.max_width == self.max_width,
            r.metrics == self.metrics,
    {
        TextBox { color, ..self }
    }

    /// Set the complete text style.
    pub fn set_style(self, style: TextStyle) -> (r: Self)
        ensures
            r.text@ == self.text@,
            r.style == style,
            r.color == self.color,
            r.max_width == self.max_width,
            r.metrics == self.metrics,
    {
        TextBox { style, ..self }
    }

    /// Set the complete font specification.
    pub fn set_font(self, font: FontSpec) -> (r: Self)
        ensures
            r.text@ == self.text@,
            r.style == (TextStyle { font, ..self.style }),
            r.color == self.color,
            r.max_width == self.max_width,
            r.metrics == self.metrics,
    {
        TextBox { style: TextStyle { font, ..self.style }, ..self }
    }

    /// Set the font family.
    pub fn set_font_family(self, family: String) -> (r: Self)
        ensures
            r.text@ == self.text@,
            r.style == (TextStyle {
                font: FontSpec { family, ..self.style.font },
                ..self.style
            }),
            r.color == self.color,
            r.max_width == self.max_width,
            r.metrics == self.metrics,
    {
        TextBox {
            style: TextStyle { font: FontSpec { family, ..self.style.font }, ..self.style },
            ..self
        }
    }

    /// Set the font size.
    pub fn set_font_size(self, size: Length) -> (r: Self)
        ensures
            r.text@ == self.text@,
            r.style == (TextStyle { font: FontSpec { size, ..self.style.font }, ..self.style }),
            r.color == self.color,
            r.max_width == self.max_width,
            r.metrics == self.metrics,
    {
        TextBox {
            style: TextStyle { font: FontSpec { size, ..self.style.font }, ..self.style },
            ..self
        }
    }

    /// Set the font weight.
    pub fn set_font_weight(self, weight: FontWeight) -> (r: Self)
        ensures
            r.text@ == self.text@,
            r.style == (TextStyle { font: FontSpec { weight, ..self.style.font }, ..self.style }),
            r.color == self.color,
            r.max_width == self.max_width,
            r.metrics == self.metrics,
    {
        TextBox {
            style: TextStyle { font: FontSpec { weight, ..self.style.font }, ..self.style },
            ..self
        }
    }

    /// Set the font weight to bold.
    pub fn make_bold(self) -> (r: Self)
        ensures
            r.text@ == self.text@,
            r.style == (TextStyle {
                font: FontSpec { weight: FontWeight::Bold, ..self.style.font },
                ..self.style
            }),
            r.color == self.color,
            r.max_width == self.max_width,
            r.metrics == self.metrics,
    {
        self.set_font_weight(FontWeight::Bold)
    }

    /// Set the font weight to thin.
    pub fn make_thin(self) -> (r: Self)
        ensures
            r.text@ == self.text@,
            r.style == (TextStyle {
                font: FontSpec { weight: FontWeight::Thin, ..self.style.font },
                ..self.style
            }),
            r.color == self.color,
            r.max_width == self.max_width,
            r.metrics == self.metrics,
    {
        self.set_font_weight(FontWeight::Thin)
    }

    /// Set the font style.
    pub fn set_font_style(self, font_style: FontStyle) -> (r: Self)
        ensures
            r.text@ == self.text@,
            r.style == (TextStyle {
                font: FontSpec { style: font_style, ..self.style.font },
                ..self.style
            }),
            r.color == self.color,
            r.max_width == self.max_width,
            r.metrics == self.metrics,
    {
        TextBox {
            style: TextStyle {
                font: FontSpec { style: font_style, ..self.style.font },
                ..self.style
            },
            ..self
        }
    }

    /// Set the font style to italic.
    pub fn make_italic(self) -> (r: Self)
        ensures
            r.text@ == self.text@,
            r.style == (TextStyle {
                font: FontSpec { style: FontStyle::Italic, ..self.style.font },
                ..self.style
            }),
            r.color == self.color,
            r.max_width == self.max_width,
            r.metrics == self.metrics,
    {
        self.set_font_style(FontStyle::Italic)
    }

    /// Set the font style to oblique.
    pub fn make_oblique(self) -> (r: Self)
        ensures
            r.text@ == self.text@,
            r.style == (TextStyle {
                font: FontSpec { style: FontStyle::Oblique, ..self.style.font },
                ..self.style
            }),
            r.color == self.color,
            r.max_width == self.max_width,
            r.metrics == self.metrics,
    {
        self.set_font_style(FontStyle::Oblique)
    }

    /// Set the text alignment.
    pub fn set_alignment(self, alignment: TextAlignment) -> (r: Self)
        ensures
            r.text@ == self.text@,
            r.style == (TextStyle { alignment, ..self.style }),
            r.color == self.color,
            r.max_width == self.max_width,
            r.metrics == self.metrics,
    {
        TextBox { style: TextStyle { alignment, ..self.style }, ..self }
    }

    /// Set the text alignment to the left.
    pub fn align_left(self) -> (r: Self)
        ensures
            r.text@ == self.text@,
            r.style == (TextStyle { alignment: TextAlignment::Left, ..self.style }),
            r.color == self.color,
            r.max_width == self.max_width,
            r.metrics == self.metrics,
    {
        self.set_alignment(TextAlignment::Left)
    }

    /// Set the text alignment to the center.
    pub fn align_center(self) -> (r: Self)
        ensures
            r.text@ == self.text@,
            r.style == (TextStyle { alignment: TextAlignment::Center, ..self.style }),
            r.color == self.color,
            r.max_width == self.max_width,
            r.metrics == self.metrics,
    {
        self.set_alignment(TextAlignment::Center)
    }

    /// Set the text alignment to the right.
    pub fn align_right(self) -> (r: Self)
        ensures
            r.text@ == self.text@,
            r.style == (TextStyle { alignment: TextAlignment::Right, ..self.style }),
            r.color == self.color,
            r.max_width == self.max_width,
            r.metrics == self.metrics,
    {
        self.set_alignment(TextAlignment::Right)
    }

    /// Enable or disable text justification.
    pub fn set_justify(self, justify: bool) -> (r: Self)
        ensures
            r.text@ == self.text@,
            r.style == (TextStyle { justify, ..self.style }),
            r.color == self.color,
            r.max_width == self.max_width,
            r.metrics == self.metrics,
    {
        TextBox { style: TextStyle { justify, ..self.style }, ..self }
    }

    /// Set the line height relative to the font size, in thousandths:
    /// 1000 means single spacing.
    pub fn set_line_height(self, line_height_permille: i64) -> (r: Self)
        ensures
            r.text@ == self.text@,
            r.style == (TextStyle { line_height_permille, ..self.style }),
            r.color == self.color,
            r.max_width == self.max_width,
            r.metrics == self.metrics,
    {
        TextBox { style: TextStyle { line_height_permille, ..self.style }, ..self }
    }

    /// Store fresh extents from the text backend.
    pub fn set_metrics(self, metrics: TextMetrics) -> (r: Self)
        ensures
            r.text@ == self.text@,
            r.style == self.style,
            r.color == self.color,
            r.max_width == self.max_width,
            r.metrics == metrics,
    {
        TextBox { metrics, ..self }
    }

    /// Set the complete font specification, in place.
    pub fn apply_font(&mut self, font: FontSpec)
        ensures
            final(self).text == old(self).text,
            final(self).style == (TextStyle { font, ..old(self).style }),
            final(self).color == old(self).color,
            final(self).max_width == old(self).max_width,
            final(self).metrics == old(self).metrics,
    {
        self.style.font = font;
    }

    /// Store fresh extents from the text backend, in place.
    pub fn apply_metrics(&mut self, metrics: TextMetrics)
        ensures
            final(self).text == old(self).text,
            final(self).style == old(self).style,
            final(self).color == old(self).color,
            final(self).max_width == old(self).max_width,
            final(self).metrics == metrics,
    {
        self.metrics = metrics;
    }

    /// Set the maximum width of the text box.
    pub fn set_max_width(self, width: Option<Length>) -> (r: Self)
        ensures
            r.text@ == self.text@,
            r.style == self.style,
            r.color == self.color,
            r.max_width == width,
            r.metrics == self.metrics,
    {
        TextBox { max_width: width, ..self }
    }
}

impl Drawable for TextBox {
    open spec fn wf(&self) -> bool {
        self.metrics.wf()
    }

    open spec fn spec_max_width(&self) -> Option<int> {
        opt_len_view(self.max_width)
    }

    open spec fn spec_size(&self) -> Vector2View {
        self.metrics.size@
    }

    open spec fn spec_baseline(&self) -> Option<int> {
        Some(self.metrics.baseline@)
    }

    open spec fn spec_natural_width(&self) -> int {
        self.metrics.natural_width@
    }

    open spec fn spec_min_width(&self) -> int {
        0
    }

    proof fn wf_bounds(&self) {
    }

    fn min_width(&self) -> (r: Length) {
        Length::zero()
    }

    fn max_width(&self) -> (r: Option<Length>) {
        self.max_width
    }

    fn compute_size(&self) -> (r: Vector2) {
        self.metrics.size
    }

    fn compute_width(&self) -> (r: Length) {
        self.metrics.size.x
    }

    fn compute_height(&self) -> (r: Length) {
        self.metrics.size.y
    }

    fn compute_baseline(&self) -> (r: Option<Length>) {
        Some(self.metrics.baseline)
    }

    fn compute_natural_width(&self) -> (r: Length) {
        self.metrics.natural_width
    }
}

impl DrawableMut for TextBox {
    open spec fn set_max_width_ok(&self, width: Option<int>) -> bool {
        true
    }

    open spec fn with_max_width_rel(&self, new: &Self, width: Option<int>) -> bool {
        &&& new.text == self.text
        &&& new.style == self.style
        &&& new.color == self.color
        &&& new.metrics == self.metrics
        &&& opt_len_view(new.max_width) == width
    }

    fn set_max_width(&mut self, width: Option<Length>) {
        self.max_width = width;
    }
}

} // verus!
