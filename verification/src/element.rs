//! The closed set of leaf elements a composite can hold.

use vstd::prelude::*;

use crate::drawable::Drawable;
use crate::drawable::DrawableMut;
use crate::image::Image;
use crate::length::Length;
use crate::length::metric_in_range;
use crate::source_code::HighlightedSourceCode;
use crate::source_code::lemma_code_folds_congruent;
use crate::text_box::TextBox;
use crate::vector2::Vector2;
use crate::vector2::Vector2View;

verus! {

/// A layout element held by a composite: a text box, an image, or a
/// block of highlighted source code.  A composite element qualifies
/// only while its own extents stay within the metric range, so that the
/// enclosing composite can sum and compare them safely.
#[derive(Debug, Clone)]
pub enum Element {
    Text(TextBox),
    Image(Image),
    Code(HighlightedSourceCode),
}

impl Element {
    /// Law: a well-formed element's extents all stay within the metric
    /// range, so composites can sum and compare them safely.
    pub proof fn extents_in_range(&self)
        requires
            self.wf(),
        ensures
            metric_in_range(self.spec_size().x),
            metric_in_range(self.spec_size().y),
            metric_in_range(self.spec_natural_width()),
            metric_in_range(self.spec_min_width()),
            match self.spec_baseline() {
                Some(b) => metric_in_range(b),
                None => true,
            },
    {
    }
}

impl Drawable for Element {
    open spec fn wf(&self) -> bool {
        match self {
            Element::Text(t) => t.wf(),
            Element::Image(i) => i.wf(),
            Element::Code(c) => {
                &&& c.wf()
                &&& metric_in_range(c.spec_size().x)
                &&& metric_in_range(c.spec_size().y)
                &&& metric_in_range(c.spec_natural_width())
                &&& metric_in_range(c.spec_min_width())
            },
        }
    }

    open spec fn spec_max_width(&self) -> Option<int> {
        match self {
            Element::Text(t) => t.spec_max_width(),
            Element::Image(i) => i.spec_max_width(),
            Element::Code(c) => c.spec_max_width(),
        }
    }

    open spec fn spec_size(&self) -> Vector2View {
        match self {
            Element::Text(t) => t.spec_size(),
            Element::Image(i) => i.spec_size(),
            Element::Code(c) => c.spec_size(),
        }
    }

    open spec fn spec_baseline(&self) -> Option<int> {
        match self {
            Element::Text(t) => t.spec_baseline(),
            Element::Image(i) => i.spec_baseline(),
            Element::Code(c) => c.spec_baseline(),
        }
    }

    open spec fn spec_natural_width(&self) -> int {
        match self {
            Element::Text(t) => t.spec_natural_width(),
            Element::Image(i) => i.spec_natural_width(),
            Element::Code(c) => c.spec_natural_width(),
        }
    }

    open spec fn spec_min_width(&self) -> int {
        match self {
            Element::Text(t) => t.spec_min_width(),
            Element::Image(i) => i.spec_min_width(),
            Element::Code(c) => c.spec_min_width(),
        }
    }

    proof fn wf_bounds(&self) {
        match self {
            Element::Text(t) => t.wf_bounds(),
            Element::Image(i) => i.wf_bounds(),
            Element::Code(c) => c.wf_bounds(),
        }
    }

    fn min_width(&self) -> (r: Length) {
        match self {
            Element::Text(t) => t.min_width(),
            Element::Image(i) => i.min_width(),
            Element::Code(c) => c.min_width(),
        }
    }

    fn max_width(&self) -> (r: Option<Length>) {
        match self {
            Element::Text(t) => t.max_width(),
            Element::Image(i) => i.max_width(),
            Element::Code(c) => c.max_width(),
        }
    }

    fn compute_size(&self) -> (r: Vector2) {
        match self {
            Element::Text(t) => t.compute_size(),
            Element::Image(i) => i.compute_size(),
            Element::Code(c) => c.compute_size(),
        }
    }

    fn compute_width(&self) -> (r: Length) {
        match self {
            Element::Text(t) => t.compute_width(),
            Element::Image(i) => i.compute_width(),
            Element::Code(c) => c.compute_width(),
        }
    }

    fn compute_height(&self) -> (r: Length) {
        match self {
            Element::Text(t) => t.compute_height(),
            Element::Image(i) => i.compute_height(),
            Element::Code(c) => c.compute_height(),
        }
    }

    fn compute_baseline(&self) -> (r: Option<Length>) {
        match self {
            Element::Text(t) => t.compute_baseline(),
            Element::Image(i) => i.compute_baseline(),
            Element::Code(c) => c.compute_baseline(),
        }
    }

    fn compute_natural_width(&self) -> (r: Length) {
        match self {
            Element::Text(t) => t.compute_natural_width(),
            Element::Image(i) => i.compute_natural_width(),
            Element::Code(c) => c.compute_natural_width(),
        }
    }
}

impl DrawableMut for Element {
    open spec fn set_max_width_ok(&self, width: Option<int>) -> bool {
        match self {
            Element::Text(t) => t.set_max_width_ok(width),
            Element::Image(i) => i.set_max_width_ok(width),
            Element::Code(c) => c.set_max_width_ok(width),
        }
    }

    open spec fn with_max_width_rel(&self, new: &Self, width: Option<int>) -> bool {
        match (self, new) {
            (Element::Text(t), Element::Text(t2)) => t.with_max_width_rel(t2, width),
            (Element::Image(i), Element::Image(i2)) => i.with_max_width_rel(i2, width),
            (Element::Code(c), Element::Code(c2)) => c.with_max_width_rel(c2, width),
            _ => false,
        }
    }

    fn set_max_width(&mut self, width: Option<Length>) {
        match self {
            Element::Text(t) => t.set_max_width(width),
            Element::Image(i) => i.set_max_width(width),
            Element::Code(c) => {
                let ghost before = *c;
                c.set_max_width(width);
                proof {
                    // The constraint change leaves every measurement in
                    // place, so the block's extents — and with them the
                    // caps the element form demands — are unchanged.
                    lemma_code_folds_congruent(before.lines@, c.lines@);
                }
            },
        }
    }
}

/// Replacing an element's width constraint keeps its natural width, its
/// minimum width and its stored text metrics: only the constraint itself
/// (and, for an image, the size that follows from it) changes.
pub proof fn lemma_rel_preserves_widths(old_e: &Element, new_e: &Element, width: Option<int>)
    requires
        old_e.with_max_width_rel(new_e, width),
    ensures
        new_e.spec_natural_width() == old_e.spec_natural_width(),
        new_e.spec_min_width() == old_e.spec_min_width(),
        new_e.spec_baseline() == old_e.spec_baseline(),
        new_e.spec_max_width() == width,
{
    match (old_e, new_e) {
        (Element::Code(c), Element::Code(c2)) => {
            lemma_code_folds_congruent(c.lines@, c2.lines@);
        },
        _ => {},
    }
}

} // verus!
