//! A drawable raster image.
//!
//! The element holds the image's intrinsic pixel size — one pixel is
//! rendered as one point, as the drawing backend does — together with
//! optional target width and height and a scaling mode.  The pixel data
//! itself stays with the drawing backend; the layout only needs the
//! extents.

use vstd::prelude::*;

use crate::drawable::Drawable;
use crate::drawable::DrawableMut;
use crate::length::Length;
use crate::length::SUB_PER_PT;
use crate::length::div_trunc;
use crate::length::metric_in_range;
use crate::length::opt_len_view;
use crate::vector2::Vector2;
use crate::vector2::Vector2View;

verus! {

/// How an image is scaled when both a width and a height are set.
#[derive(Debug, Clone, Copy, PartialEq, Eq, Structural)]
pub enum ScaleMode {
    /// Keep the aspect ratio; fit inside the given box.
    Fit,
    /// Ignore the aspect ratio; fill the given box exactly.
    Stretch,
}

/// A drawable raster image.
#[derive(Debug, Clone, Copy)]
pub struct Image {
    /// The intrinsic width of the image in pixels.
    pub width_px: u32,
    /// The intrinsic height of the image in pixels.
    pub height_px: u32,
    /// The target width, if any.
    pub width: Option<Length>,
    /// The target height, if any.
    pub height: Option<Length>,
    /// How to scale when both targets are set.
    pub scale_mode: ScaleMode,
}

impl Image {
    /// Whether the image's dimensions are sound for layout arithmetic:
    /// the intrinsic size is nonempty and in range, the targets are in
    /// range, and so is the size that scaling produces.
    pub open spec fn spec_wf(&self) -> bool {
        &&& self.width_px >= 1
        &&& self.height_px >= 1
        &&& metric_in_range((self.width_px as int) * (SUB_PER_PT as int))
        &&& metric_in_range((self.height_px as int) * (SUB_PER_PT as int))
        &&& match self.width {
            Some(w) => metric_in_range(w@),
            None => true,
        }
        &&& match self.height {
            Some(h) => metric_in_range(h@),
            None => true,
        }
        &&& metric_in_range(self.spec_scaled_size().x)
        &&& metric_in_range(self.spec_scaled_size().y)
    }

    /// The intrinsic size of the image, one point per pixel.
    pub open spec fn spec_image_size(&self) -> Vector2View {
        Vector2View {
            x: (self.width_px as int) * (SUB_PER_PT as int),
            y: (self.height_px as int) * (SUB_PER_PT as int),
        }
    }

    /// The size an image of the given intrinsic pixel size takes under
    /// the given target width and height (as views): with no target, the
    /// intrinsic size; with one target, the other side follows the aspect
    /// ratio; with both, either the box itself (stretch) or the largest
    /// aspect-true size inside it (fit).
    pub open spec fn spec_scaled_size_of(
        width_px: u32,
        height_px: u32,
        width: Option<int>,
        height: Option<int>,
        scale_mode: ScaleMode,
    ) -> Vector2View {
        match (width, height) {
            (None, None) => Vector2View {
                x: (width_px as int) * (SUB_PER_PT as int),
                y: (height_px as int) * (SUB_PER_PT as int),
            },
            (Some(w), None) => Vector2View {
                x: w,
                y: div_trunc(w * (height_px as int), width_px as int),
            },
            (None, Some(h)) => Vector2View {
                x: div_trunc(h * (width_px as int), height_px as int),
                y: h,
            },
            (Some(w), Some(h)) => match scale_mode {
                ScaleMode::Stretch => Vector2View { x: w, y: h },
                ScaleMode::Fit => if w * (height_px as int) <= h * (width_px as int) {
                    Vector2View {
                        x: w,
                        y: div_trunc(w * (height_px as int), width_px as int),
                    }
                } else {
                    Vector2View {
                        x: div_trunc(h * (width_px as int), height_px as int),
                        y: h,
                    }
                },
            },
        }
    }

    /// The size of this image after applying its target width and height.
    pub open spec fn spec_scaled_size(&self) -> Vector2View {
        Self::spec_scaled_size_of(
            self.width_px,
            self.height_px,
            opt_len_view(self.width),
            opt_len_view(self.height),
            self.scale_mode,
        )
    }

    /// Create an image element from the intrinsic pixel size reported by
    /// the image decoder.
    pub fn new(width_px: u32, height_px: u32) -> (r: Self)
        ensures
            r == (Image {
                width_px,
                height_px,
                width: None,
                height: None,
                scale_mode: ScaleMode::Fit,
            }),
    {
        Image { width_px, height_px, width: None, height: None, scale_mode: ScaleMode::Fit }
    }

    /// Set the target width.
    pub fn set_width(self, width: Option<Length>) -> (r: Self)
        ensures
            r == (Image { width, ..self }),
    {
        Image { width, ..self }
    }

    /// Set the target height.
    pub fn set_height(self, height: Option<Length>) -> (r: Self)
        ensures
            r == (Image { height, ..self }),
    {
        Image { height, ..self }
    }

    /// Set the scaling mode.
    pub fn set_scale_mode(self, scale_mode: ScaleMode) -> (r: Self)
        ensures
            r == (Image { scale_mode, ..self }),
    {
        Image { scale_mode, ..self }
    }

    /// Keep the aspect ratio and fit inside the target box.
    pub fn fit(self) -> (r: Self)
        ensures
            r == (Image { scale_mode: ScaleMode::Fit, ..self }),
    {
        self.set_scale_mode(ScaleMode::Fit)
    }

    /// Fill the target box exactly, ignoring the aspect ratio.
    pub fn stretch(self) -> (r: Self)
        ensures
            r == (Image { scale_mode: ScaleMode::Stretch, ..self }),
    {
        self.set_scale_mode(ScaleMode::Stretch)
    }

    /// Get the intrinsic size of the image, one point per pixel.
    pub fn image_size(&self) -> (r: Vector2)
        requires
            self.spec_wf(),
        ensures
            r@ == self.spec_image_size(),
    {
        Vector2::new(
            Length::from_pt(self.width_px as i64),
            Length::from_pt(self.height_px as i64),
        )
    }
}

/// The product of a subunit count and a pixel count stays far inside an
/// `i128`.
proof fn lemma_product_fits_i128(a: int, b: int)
    requires
        i64::MIN <= a <= i64::MAX,
        0 <= b <= u32::MAX,
    ensures
        i128::MIN <= a * b <= i128::MAX,
{
    assert(i128::MIN <= a * b <= i128::MAX) by (nonlinear_arith)
        requires
            i64::MIN <= a <= i64::MAX,
            0 <= b <= u32::MAX,
    ;
}

/// The target side scaled by the aspect ratio `other_px / this_px`.
fn scale_by_aspect(target: Length, other_px: u32, this_px: u32) -> (r: Length)
    requires
        this_px >= 1,
        0 <= target@,
        metric_in_range(div_trunc(target@ * (other_px as int), this_px as int)),
    ensures
        r@ == div_trunc(target@ * (other_px as int), this_px as int),
{
    let t: i64 = target.as_subunits();
    proof {
        lemma_product_fits_i128(t as int, other_px as int);
    }
    let product: i128 = (t as i128) * (other_px as i128);
    let quotient: i128 = match product.checked_div(this_px as i128) {
        Some(q) => q,
        None => 0,  // unreachable: the divisor is positive
    };
    proof {
        assert(quotient == div_trunc(target@ * (other_px as int), this_px as int));
        assert(i64::MIN <= quotient <= i64::MAX);
    }
    Length::from_subunits(quotient as i64)
}

impl Drawable for Image {
    open spec fn wf(&self) -> bool {
        self.spec_wf()
    }

    open spec fn spec_max_width(&self) -> Option<int> {
        opt_len_view(self.width)
    }

    open spec fn spec_size(&self) -> Vector2View {
        self.spec_scaled_size()
    }

    open spec fn spec_baseline(&self) -> Option<int> {
        None
    }

    open spec fn spec_natural_width(&self) -> int {
        (self.width_px as int) * (SUB_PER_PT as int)
    }

    open spec fn spec_min_width(&self) -> int {
        0
    }

    proof fn wf_bounds(&self) {
    }

    fn min_width(&self) -> (r: Length) {
        Length::zero()
    }

    fn max_width(&self) -> (r: Option<Length>) {
        self.width
    }

    fn compute_size(&self) -> (r: Vector2) {
        match (self.width, self.height) {
            (None, None) => self.image_size(),
            (Some(w), None) => Vector2::new(
                w,
                scale_by_aspect(w, self.height_px, self.width_px),
            ),
            (None, Some(h)) => Vector2::new(
                scale_by_aspect(h, self.width_px, self.height_px),
                h,
            ),
            (Some(w), Some(h)) => match self.scale_mode {
                ScaleMode::Stretch => Vector2::new(w, h),
                ScaleMode::Fit => {
                    let ws: i64 = w.as_subunits();
                    let hs: i64 = h.as_subunits();
                    proof {
                        lemma_product_fits_i128(ws as int, self.height_px as int);
                        lemma_product_fits_i128(hs as int, self.width_px as int);
                    }
                    let wide: i128 = (ws as i128) * (self.height_px as i128);
                    let tall: i128 = (hs as i128) * (self.width_px as i128);
                    if wide <= tall {
                        Vector2::new(w, scale_by_aspect(w, self.height_px, self.width_px))
                    } else {
                        Vector2::new(scale_by_aspect(h, self.width_px, self.height_px), h)
                    }
                },
            },
        }
    }

    fn compute_width(&self) -> (r: Length) {
        self.compute_size().x
    }

    fn compute_height(&self) -> (r: Length) {
        self.compute_size().y
    }

    fn compute_baseline(&self) -> (r: Option<Length>) {
        None
    }

    fn compute_natural_width(&self) -> (r: Length) {
        Length::from_pt(self.width_px as i64)
    }
}

impl DrawableMut for Image {
    open spec fn set_max_width_ok(&self, width: Option<int>) -> bool {
        let scaled = Self::spec_scaled_size_of(
            self.width_px,
            self.height_px,
            width,
            opt_len_view(self.height),
            self.scale_mode,
        );
        &&& match width {
            Some(w) => metric_in_range(w),
            None => true,
        }
        &&& metric_in_range(scaled.x)
        &&& metric_in_range(scaled.y)
    }

    open spec fn with_max_width_rel(&self, new: &Self, width: Option<int>) -> bool {
        &&& new.width_px == self.width_px
        &&& new.height_px == self.height_px
        &&& new.height == self.height
        &&& new.scale_mode == self.scale_mode
        &&& opt_len_view(new.width) == width
    }

    fn set_max_width(&mut self, width: Option<Length>) {
        self.width = width;
    }
}

} // verus!
