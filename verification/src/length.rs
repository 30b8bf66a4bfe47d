//! A scalar distance with a known unit, stored exactly.
//!
//! A [`Length`] counts integer *subunits*.  The subunit is chosen so that all
//! supported units are whole numbers of subunits: one point is subdivided
//! into 1024 device units (the text backend's fixed-point grid), one inch is
//! 72 points, and one millimeter is 5/127 of an inch (25.4 mm per inch), so
//! splitting each device unit into 127 parts makes every conversion exact.

use vstd::prelude::*;

verus! {

/// Device units per point: the text backend's fixed-point subdivision.
pub const DEVICE_PER_PT: i64 = 1024;
/// Points per inch.
pub const PT_PER_INCH: i64 = 72;
/// Subunits per device unit, so that a millimeter is whole: 1 mm = 5/127 inch.
pub const SUB_PER_DEVICE_UNIT: i64 = 127;
/// Subunits per point.
pub const SUB_PER_PT: i64 = SUB_PER_DEVICE_UNIT * DEVICE_PER_PT;
/// Subunits per inch.
pub const SUB_PER_INCH: i64 = SUB_PER_PT * PT_PER_INCH;
/// Subunits per millimeter: 1 mm is 5/127 inch (25.4 mm per inch), so the
/// factor of 127 cancels and a millimeter is 5 device-unit grids wide.
pub const SUB_PER_MM: i64 = DEVICE_PER_PT * PT_PER_INCH * 5;
/// Subunits per centimeter.
pub const SUB_PER_CM: i64 = SUB_PER_MM * 10;

/// The largest measured extent the layout arithmetic admits, in subunits
/// (2^40 subunits, roughly three kilometers): keeping every metric under
/// this bound lets sums over many elements stay within an `i64`.
pub const MAX_METRIC: i64 = 0x100_0000_0000;

/// Whether a measured extent is nonnegative and small enough for layout
/// arithmetic.
pub open spec fn metric_in_range(v: int) -> bool {
    0 <= v <= MAX_METRIC
}

/// The view of an optional length.
pub open spec fn opt_len_view(o: Option<Length>) -> Option<int> {
    match o {
        Some(l) => Some(l@),
        None => None,
    }
}

/// Truncating integer division (the semantics of `/` on machine integers),
/// for a positive divisor.
pub open spec fn div_trunc(x: int, d: int) -> int
    recommends
        d > 0,
{
    if x >= 0 {
        x / d
    } else {
        -((-x) / d)
    }
}

/// A length with known unit.
///
/// Internally, all values are stored as a whole number of subunits.
#[derive(Debug, Clone, Copy, PartialEq, Eq, Structural)]
pub struct Length {
    sub: i64,
}

impl View for Length {
    type V = int;

    closed spec fn view(&self) -> int {
        self.sub as int
    }
}

impl Length {
    /// Create a length of zero.
    pub fn zero() -> (r: Self)
        ensures
            r@ == 0,
    {
        Length { sub: 0 }
    }

    /// Create a length from a whole number of millimeters.
    pub fn from_mm(value: i64) -> (r: Self)
        requires
            i64::MIN <= value * SUB_PER_MM <= i64::MAX,
        ensures
            r@ == value * SUB_PER_MM,
    {
        Length { sub: value * SUB_PER_MM }
    }

    /// Create a length from a whole number of centimeters.
    pub fn from_cm(value: i64) -> (r: Self)
        requires
            i64::MIN <= value * SUB_PER_CM <= i64::MAX,
        ensures
            r@ == value * SUB_PER_CM,
    {
        Length { sub: value * SUB_PER_CM }
    }

    /// Create a length from a whole number of inches.
    pub fn from_inch(value: i64) -> (r: Self)
        requires
            i64::MIN <= value * SUB_PER_INCH <= i64::MAX,
        ensures
            r@ == value * SUB_PER_INCH,
    {
        Length { sub: value * SUB_PER_INCH }
    }

    /// Create a length from a whole number of points (1/72 inch).
    pub fn from_pt(value: i64) -> (r: Self)
        requires
            i64::MIN <= value * SUB_PER_PT <= i64::MAX,
        ensures
            r@ == value * SUB_PER_PT,
    {
        Length { sub: value * SUB_PER_PT }
    }

    /// Create a length from backend device units (1/1024 point).
    pub fn from_device_units(value: i64) -> (r: Self)
        requires
            i64::MIN <= value * SUB_PER_DEVICE_UNIT <= i64::MAX,
        ensures
            r@ == value * SUB_PER_DEVICE_UNIT,
    {
        Length { sub: value * SUB_PER_DEVICE_UNIT }
    }

    /// Get the length in whole millimeters, truncated toward zero.
    pub fn as_mm(self) -> (r: i64)
        ensures
            r == div_trunc(self@, SUB_PER_MM as int),
    {
        div_sub(self.sub, SUB_PER_MM)
    }

    /// Get the length in whole centimeters, truncated toward zero.
    pub fn as_cm(self) -> (r: i64)
        ensures
            r == div_trunc(self@, SUB_PER_CM as int),
    {
        div_sub(self.sub, SUB_PER_CM)
    }

    /// Get the length in whole inches, truncated toward zero.
    pub fn as_inch(self) -> (r: i64)
        ensures
            r == div_trunc(self@, SUB_PER_INCH as int),
    {
        div_sub(self.sub, SUB_PER_INCH)
    }

    /// Get the length in whole points (1/72 inch), truncated toward zero.
    pub fn as_pt(self) -> (r: i64)
        ensures
            r == div_trunc(self@, SUB_PER_PT as int),
    {
        div_sub(self.sub, SUB_PER_PT)
    }

    /// Get the length in whole backend device units (1/1024 point),
    /// truncated toward zero.
    pub fn as_device_units(self) -> (r: i64)
        ensures
            r == div_trunc(self@, SUB_PER_DEVICE_UNIT as int),
    {
        div_sub(self.sub, SUB_PER_DEVICE_UNIT)
    }

    /// The length holding the given subunit count (the ghost counterpart
    /// of [`Length::from_subunits`]).
    pub closed spec fn spec_from_subunits(v: int) -> Length {
        Length { sub: v as i64 }
    }

    /// Within the `i64` range, the ghost constructor's view is its
    /// argument.
    pub proof fn lemma_from_subunits_view(v: int)
        ensures
            i64::MIN <= v <= i64::MAX ==> Self::spec_from_subunits(v)@ == v,
    {
    }

    /// Create a length from a raw subunit count.
    pub fn from_subunits(value: i64) -> (r: Self)
        ensures
            r@ == value,
    {
        Length { sub: value }
    }

    /// Get the raw subunit count of the length.
    pub fn as_subunits(self) -> (r: i64)
        ensures
            r == self@,
    {
        self.sub
    }

    /// Add two lengths.
    pub fn add(self, rhs: Self) -> (r: Self)
        requires
            i64::MIN <= self@ + rhs@ <= i64::MAX,
        ensures
            r@ == self@ + rhs@,
    {
        Length { sub: self.sub + rhs.sub }
    }

    /// Subtract a length.
    pub fn sub(self, rhs: Self) -> (r: Self)
        requires
            i64::MIN <= self@ - rhs@ <= i64::MAX,
        ensures
            r@ == self@ - rhs@,
    {
        Length { sub: self.sub - rhs.sub }
    }

    /// Negate the length.
    pub fn neg(self) -> (r: Self)
        requires
            self@ > i64::MIN,
        ensures
            r@ == -self@,
    {
        Length { sub: -self.sub }
    }

    /// Get the lowest value of `self` and `other`.
    pub fn min(self, other: Self) -> (r: Self)
        ensures
            r@ == if self@ <= other@ { self@ } else { other@ },
    {
        if other.sub < self.sub {
            other
        } else {
            self
        }
    }

    /// Get the highest value of `self` and `other`.
    pub fn max(self, other: Self) -> (r: Self)
        ensures
            r@ == if self@ >= other@ { self@ } else { other@ },
    {
        if other.sub > self.sub {
            other
        } else {
            self
        }
    }

    /// Whether `self` is at most `other`.
    pub fn le(self, other: Self) -> (r: bool)
        ensures
            r == (self@ <= other@),
    {
        self.sub <= other.sub
    }

    /// Whether `self` is strictly below `other`.
    pub fn lt(self, other: Self) -> (r: bool)
        ensures
            r == (self@ < other@),
    {
        self.sub < other.sub
    }

    /// Scale the length by an integer factor.
    pub fn scale(self, factor: i64) -> (r: Self)
        requires
            i64::MIN <= self@ * factor <= i64::MAX,
        ensures
            r@ == self@ * factor,
    {
        Length { sub: self.sub * factor }
    }

    /// Divide the length by a positive integer, truncating toward zero.
    pub fn div_scalar(self, divisor: i64) -> (r: Self)
        requires
            divisor > 0,
        ensures
            r@ == div_trunc(self@, divisor as int),
    {
        Length { sub: div_sub(self.sub, divisor) }
    }

    /// Half of the length, truncated toward zero.
    pub fn half(self) -> (r: Self)
        ensures
            r@ == div_trunc(self@, 2),
    {
        Length { sub: div_sub(self.sub, 2) }
    }
}

/// Scaling an integer up by a positive factor and dividing it back down
/// restores the integer.
proof fn lemma_scale_round_trip(x: int, s: int)
    requires
        s > 0,
    ensures
        div_trunc(x * s, s) == x,
{
    if x >= 0 {
        vstd::arithmetic::div_mod::lemma_div_multiples_vanish(x, s);
        assert(x * s == s * x) by (nonlinear_arith);
    } else {
        vstd::arithmetic::div_mod::lemma_div_multiples_vanish(-x, s);
        assert(-(x * s) == s * (-x)) by (nonlinear_arith);
    }
}

/// Law: a length built from a whole number of any supported unit reads back
/// as that same number in the same unit.
pub proof fn lemma_unit_round_trip(x: int)
    ensures
        div_trunc(x * SUB_PER_MM, SUB_PER_MM as int) == x,
        div_trunc(x * SUB_PER_CM, SUB_PER_CM as int) == x,
        div_trunc(x * SUB_PER_INCH, SUB_PER_INCH as int) == x,
        div_trunc(x * SUB_PER_PT, SUB_PER_PT as int) == x,
        div_trunc(x * SUB_PER_DEVICE_UNIT, SUB_PER_DEVICE_UNIT as int) == x,
{
    lemma_scale_round_trip(x, SUB_PER_MM as int);
    lemma_scale_round_trip(x, SUB_PER_CM as int);
    lemma_scale_round_trip(x, SUB_PER_INCH as int);
    lemma_scale_round_trip(x, SUB_PER_PT as int);
    lemma_scale_round_trip(x, SUB_PER_DEVICE_UNIT as int);
}

/// Interpret a plain number as a length in a given unit.
pub trait IntoLength: Sized {
    /// The number itself, as a mathematical integer.
    spec fn as_int(&self) -> int;

    /// Interpret the value as a length in centimeters.
    fn cm(self) -> (r: Length)
        requires
            i64::MIN <= self.as_int() * SUB_PER_CM <= i64::MAX,
        ensures
            r@ == self.as_int() * SUB_PER_CM,
    ;

    /// Interpret the value as a length in millimeters.
    fn mm(self) -> (r: Length)
        requires
            i64::MIN <= self.as_int() * SUB_PER_MM <= i64::MAX,
        ensures
            r@ == self.as_int() * SUB_PER_MM,
    ;

    /// Interpret the value as a length in inches.
    fn inch(self) -> (r: Length)
        requires
            i64::MIN <= self.as_int() * SUB_PER_INCH <= i64::MAX,
        ensures
            r@ == self.as_int() * SUB_PER_INCH,
    ;

    /// Interpret the value as a length in points (1/72 inch).
    fn pt(self) -> (r: Length)
        requires
            i64::MIN <= self.as_int() * SUB_PER_PT <= i64::MAX,
        ensures
            r@ == self.as_int() * SUB_PER_PT,
    ;
}

impl IntoLength for i64 {
    open spec fn as_int(&self) -> int {
        *self as int
    }

    fn cm(self) -> (r: Length) {
        Length::from_cm(self)
    }

    fn mm(self) -> (r: Length) {
        Length::from_mm(self)
    }

    fn inch(self) -> (r: Length) {
        Length::from_inch(self)
    }

    fn pt(self) -> (r: Length) {
        Length::from_pt(self)
    }
}

/// Two lengths with the same view are the same length.
pub broadcast proof fn lemma_length_view_injective(a: Length, b: Length)
    ensures
        #![trigger a.view(), b.view()]
        a@ == b@ ==> a == b,
{
}

/// The views of a sequence of lengths.
pub open spec fn len_views(s: Seq<Length>) -> Seq<int> {
    Seq::new(s.len(), |i: int| s[i]@)
}

/// Truncating division of a subunit count by a positive scale.
pub(crate) fn div_sub(x: i64, d: i64) -> (r: i64)
    requires
        d > 0,
    ensures
        r == div_trunc(x as int, d as int),
{
    match x.checked_div(d) {
        Some(q) => q,
        None => 0,  // unreachable: d > 1 or x / 1 == x, neither overflows
    }
}

} // verus!
