//! Colors, font descriptions and text styling.

use vstd::prelude::*;

use crate::length::Length;
use crate::length::div_trunc;

verus! {

/// An RGBA color with 8 bits per channel.
#[derive(Debug, Clone, Copy, PartialEq, Eq, Structural)]
pub struct Color {
    pub red: u8,
    pub green: u8,
    pub blue: u8,
    pub alpha: u8,
}

impl Color {
    /// Opaque black.
    pub fn black() -> (r: Self)
        ensures
            r == (Color { red: 0, green: 0, blue: 0, alpha: 255 }),
    {
        Color { red: 0, green: 0, blue: 0, alpha: 255 }
    }
}

/// Horizontal alignment of text within its box.
#[derive(Debug, Clone, Copy, PartialEq, Eq, Structural)]
pub enum TextAlignment {
    Left,
    Center,
    Right,
}

impl Default for TextAlignment {
    fn default() -> (r: Self)
        ensures
            r == TextAlignment::Left,
    {
        TextAlignment::Left
    }
}

/// The weight of a font, from thinnest to heaviest.
#[derive(Debug, Clone, Copy, PartialEq, Eq, Structural)]
pub enum FontWeight {
    Thin,
    UltraLight,
    Light,
    SemiLight,
    Book,
    Normal,
    Medium,
    SemiBold,
    Bold,
    UltraBold,
    Heavy,
    UltraHeavy,
}

impl Default for FontWeight {
    fn default() -> (r: Self)
        ensures
            r == FontWeight::Normal,
    {
        FontWeight::Normal
    }
}

/// The slant of a font.
#[derive(Debug, Clone, Copy, PartialEq, Eq, Structural)]
pub enum FontStyle {
    Normal,
    Oblique,
    Italic,
}

impl Default for FontStyle {
    fn default() -> (r: Self)
        ensures
            r == FontStyle::Normal,
    {
        FontStyle::Normal
    }
}

/// A font description: family, size, weight and style.
#[derive(Debug, Clone)]
pub struct FontSpec {
    pub family: String,
    pub size: Length,
    pub weight: FontWeight,
    pub style: FontStyle,
}

impl FontSpec {
    /// Create a font description from all of its parts.
    pub fn new(family: String, size: Length, weight: FontWeight, style: FontStyle) -> (r: Self)
        ensures
            r.family@ == family@,
            r.size == size,
            r.weight == weight,
            r.style == style,
    {
        FontSpec { family, size, weight, style }
    }

    /// Create a font description with normal weight and style.
    pub fn plain(family: String, size: Length) -> (r: Self)
        ensures
            r.family@ == family@,
            r.size == size,
            r.weight == FontWeight::Normal,
            r.style == FontStyle::Normal,
    {
        Self::new(family, size, FontWeight::Normal, FontStyle::Normal)
    }

    /// Create a bold font description with normal style.
    pub fn bold(family: String, size: Length) -> (r: Self)
        ensures
            r.family@ == family@,
            r.size == size,
            r.weight == FontWeight::Bold,
            r.style == FontStyle::Normal,
    {
        Self::new(family, size, FontWeight::Bold, FontStyle::Normal)
    }
}

impl Default for FontSpec {
    /// A 10-point serif font with normal weight and style.
    fn default() -> (r: Self)
        ensures
            r.family@ == "serif"@,
            r.size@ == 10 * crate::length::SUB_PER_PT,
            r.weight == FontWeight::Normal,
            r.style == FontStyle::Normal,
    {
        FontSpec {
            family: "serif".to_owned(),
            size: Length::from_pt(10),
            weight: FontWeight::Normal,
            style: FontStyle::Normal,
        }
    }
}

/// A complete text style: font, alignment, justification and line height.
///
/// The line height is a multiplier on the font size, held in thousandths:
/// 1000 means single spacing; values above add extra space between lines.
#[derive(Debug, Clone)]
pub struct TextStyle {
    pub font: FontSpec,
    pub alignment: TextAlignment,
    pub justify: bool,
    pub line_height_permille: i64,
}

impl TextStyle {
    /// The extra space between lines that this style asks for:
    /// the font size times the line-height multiplier minus one.
    pub fn line_spacing(&self) -> (r: Length)
        requires
            self.line_height_permille >= 0,
            i64::MIN <= self.font.size@ * (self.line_height_permille - 1000) <= i64::MAX,
        ensures
            r@ == div_trunc(self.font.size@ * (self.line_height_permille - 1000), 1000),
    {
        self.font.size.scale(self.line_height_permille - 1000).div_scalar(1000)
    }
}

impl Default for TextStyle {
    /// The default font, left alignment, no justification, single spacing.
    fn default() -> (r: Self)
        ensures
            r.font.family@ == "serif"@,
            r.font.size@ == 10 * crate::length::SUB_PER_PT,
            r.font.weight == FontWeight::Normal,
            r.font.style == FontStyle::Normal,
            r.alignment == TextAlignment::Left,
            r.justify == false,
            r.line_height_permille == 1000,
    {
        TextStyle {
            font: FontSpec::default(),
            alignment: TextAlignment::Left,
            justify: false,
            line_height_permille: 1000,
        }
    }
}

} // verus!
