//! A drawable block of highlighted source code.
//!
//! Each line carries a gutter text box with its line number and a text
//! box with the source text, together with the styling attributes the
//! highlighter produced for it.  The attribute computation — turning the
//! highlighter's style runs into byte-addressed span attributes — is the
//! block's own logic and fully verified.

use vstd::prelude::*;
use vstd::string::StringExecFns;
use vstd::utf8::encode_utf8;

use crate::drawable::Drawable;
use crate::drawable::DrawableMut;
use crate::drawable::MAX_CHILDREN;
use crate::length::Length;
use crate::length::MAX_METRIC;
use crate::length::SUB_PER_CM;
use crate::length::SUB_PER_PT;
use crate::length::metric_in_range;
use crate::length::opt_len_view;
use crate::rectangle::Rectangle;
use crate::rectangle::RectangleView;
use crate::style::Color;
use crate::style::FontSpec;
use crate::text_box::TextBox;
use crate::text_box::TextMetrics;
use crate::vector2::Vector2;
use crate::vector2::Vector2View;

verus! {

/// The styling of one run of highlighted text, reduced to plain values:
/// its colors and its font flags.
#[derive(Debug, Clone, Copy, PartialEq, Eq, Structural)]
pub struct StyleInfo {
    pub foreground: Color,
    pub background: Color,
    pub bold: bool,
    pub italic: bool,
    pub underline: bool,
}

/// One styling attribute for the text backend.  Colors carry 16 bits
/// per channel, scaled up from the highlighter's 8.
#[derive(Debug, Clone, Copy, PartialEq, Eq, Structural)]
pub enum SpanKind {
    Bold,
    Italic,
    Underline,
    Background { red: u16, green: u16, blue: u16 },
    BackgroundAlpha { alpha: u16 },
    Foreground { red: u16, green: u16, blue: u16 },
    ForegroundAlpha { alpha: u16 },
}

/// A styling attribute over a byte range of a line of text.
#[derive(Debug, Clone, Copy, PartialEq, Eq, Structural)]
pub struct SpanAttr {
    pub start_index: u32,
    pub end_index: u32,
    pub kind: SpanKind,
}

/// The attributes one style run contributes over its byte range: its
/// font flags, then its background — left out when it equals the
/// theme-wide background — and its foreground likewise, each with an
/// extra alpha attribute when not fully opaque.
pub open spec fn run_attrs(
    info: StyleInfo,
    start: u32,
    end: u32,
    theme_bg: Option<Color>,
    theme_fg: Option<Color>,
) -> Seq<SpanAttr> {
    let s0 = Seq::<SpanAttr>::empty();
    let s1 = if info.bold {
        s0.push(SpanAttr { start_index: start, end_index: end, kind: SpanKind::Bold })
    } else {
        s0
    };
    let s2 = if info.italic {
        s1.push(SpanAttr { start_index: start, end_index: end, kind: SpanKind::Italic })
    } else {
        s1
    };
    let s3 = if info.underline {
        s2.push(SpanAttr { start_index: start, end_index: end, kind: SpanKind::Underline })
    } else {
        s2
    };
    let bg_differs = match theme_bg {
        Some(c) => c != info.background,
        None => true,
    };
    let s4 = if bg_differs {
        s3.push(
            SpanAttr {
                start_index: start,
                end_index: end,
                kind: SpanKind::Background {
                    red: (info.background.red * 257) as u16,
                    green: (info.background.green * 257) as u16,
                    blue: (info.background.blue * 257) as u16,
                },
            },
        )
    } else {
        s3
    };
    let s5 = if bg_differs && info.background.alpha != 255 {
        s4.push(
            SpanAttr {
                start_index: start,
                end_index: end,
                kind: SpanKind::BackgroundAlpha { alpha: (info.background.alpha * 257) as u16 },
            },
        )
    } else {
        s4
    };
    let fg_differs = match theme_fg {
        Some(c) => c != info.foreground,
        None => true,
    };
    let s6 = if fg_differs {
        s5.push(
            SpanAttr {
                start_index: start,
                end_index: end,
                kind: SpanKind::Foreground {
                    red: (info.foreground.red * 257) as u16,
                    green: (info.foreground.green * 257) as u16,
                    blue: (info.foreground.blue * 257) as u16,
                },
            },
        )
    } else {
        s5
    };
    if fg_differs && info.foreground.alpha != 255 {
        s6.push(
            SpanAttr {
                start_index: start,
                end_index: end,
                kind: SpanKind::ForegroundAlpha { alpha: (info.foreground.alpha * 257) as u16 },
            },
        )
    } else {
        s6
    }
}

/// The byte offset at which run `n` of a line starts: the total byte
/// length of the runs before it.
pub open spec fn byte_offset(runs: Seq<(StyleInfo, String)>, n: int) -> int
    decreases n,
{
    if n <= 0 {
        0
    } else {
        byte_offset(runs, n - 1) + (encode_utf8(runs[n - 1].1@).len() as usize)
    }
}

/// The attributes of the first `n` runs of a line, in run order.
pub open spec fn line_attrs_upto(
    runs: Seq<(StyleInfo, String)>,
    theme_bg: Option<Color>,
    theme_fg: Option<Color>,
    n: int,
) -> Seq<SpanAttr>
    decreases n,
{
    if n <= 0 {
        Seq::empty()
    } else {
        line_attrs_upto(runs, theme_bg, theme_fg, n - 1) + run_attrs(
            runs[n - 1].0,
            byte_offset(runs, n - 1) as u32,
            byte_offset(runs, n) as u32,
            theme_bg,
            theme_fg,
        )
    }
}

/// The attributes of a whole line of style runs.
pub open spec fn spec_line_attrs(
    runs: Seq<(StyleInfo, String)>,
    theme_bg: Option<Color>,
    theme_fg: Option<Color>,
) -> Seq<SpanAttr> {
    line_attrs_upto(runs, theme_bg, theme_fg, runs.len() as int)
}

/// The view of a line's style runs: each run's style and the characters
/// of its text.
pub open spec fn run_views(runs: Seq<(StyleInfo, String)>) -> Seq<(StyleInfo, Seq<char>)> {
    runs.map_values(|p: (StyleInfo, String)| (p.0, p.1@))
}

/// The total byte length of a line's style runs.
pub open spec fn total_run_bytes(runs: Seq<(StyleInfo, Seq<char>)>) -> int
    decreases runs.len(),
{
    if runs.len() == 0 {
        0
    } else {
        total_run_bytes(runs.drop_last()) + (encode_utf8(runs.last().1).len() as usize)
    }
}

/// Two run sequences that agree on a prefix have the same byte offsets
/// over it.
proof fn lemma_byte_offset_prefix(
    a: Seq<(StyleInfo, String)>,
    b: Seq<(StyleInfo, String)>,
    n: int,
)
    requires
        0 <= n <= a.len(),
        n <= b.len(),
        forall|i: int| 0 <= i < n ==> a[i] == #[trigger] b[i],
    ensures
        byte_offset(a, n) == byte_offset(b, n),
    decreases n,
{
    if n > 0 {
        lemma_byte_offset_prefix(a, b, n - 1);
    }
}

/// The byte offset past the last run is the total byte length of the
/// runs' views.
pub proof fn lemma_byte_offset_is_total(runs: Seq<(StyleInfo, String)>)
    ensures
        byte_offset(runs, runs.len() as int) == total_run_bytes(run_views(runs)),
    decreases runs.len(),
{
    if runs.len() > 0 {
        lemma_byte_offset_is_total(runs.drop_last());
        assert(run_views(runs).drop_last() =~= run_views(runs.drop_last()));
        lemma_byte_offset_prefix(runs.drop_last(), runs, runs.len() - 1);
    }
}

/// Byte offsets never decrease as runs accumulate.
proof fn lemma_byte_offset_monotonic(runs: Seq<(StyleInfo, String)>, n: int, m: int)
    requires
        0 <= n <= m,
    ensures
        0 <= byte_offset(runs, n) <= byte_offset(runs, m),
    decreases m,
{
    if n == m {
        if m > 0 {
            lemma_byte_offset_monotonic(runs, m - 1, m - 1);
        }
    } else {
        lemma_byte_offset_monotonic(runs, n, m - 1);
    }
}

/// Turn the style runs of one line into span attributes for the text
/// backend: each run covers its byte range of the line, and contributes
/// its font flags and the colors that differ from the theme's.
///
/// Returns `None` exactly when the line is too long for 32-bit byte
/// offsets.
#[verifier::rlimit(60)]
pub fn highlights_to_attrs(
    runs: &Vec<(StyleInfo, String)>,
    theme_bg: Option<Color>,
    theme_fg: Option<Color>,
) -> (r: Option<Vec<SpanAttr>>)
    ensures
        match r {
            Some(attrs) => byte_offset(runs@, runs@.len() as int) <= u32::MAX && attrs@
                == spec_line_attrs(runs@, theme_bg, theme_fg),
            None => byte_offset(runs@, runs@.len() as int) > u32::MAX,
        },
{
    let ghost rs = runs@;
    let mut attrs: Vec<SpanAttr> = Vec::new();
    let mut start: u32 = 0;
    let mut i: usize = 0;
    while i < runs.len()
        invariant
            i <= rs.len(),
            runs@ == rs,
            start == byte_offset(rs, i as int),
            attrs@ == line_attrs_upto(rs, theme_bg, theme_fg, i as int),
        decreases rs.len() - i,
    {
        let text_len: usize = runs[i].1.as_str().len();
        proof {
            assert(text_len == encode_utf8(rs[i as int].1@).len() as usize);
            lemma_byte_offset_monotonic(rs, 0, i as int);
        }
        if text_len > (u32::MAX - start) as usize {
            proof {
                lemma_byte_offset_monotonic(rs, i + 1, rs.len() as int);
            }
            return None;
        }
        let end: u32 = start + (text_len as u32);
        let info = runs[i].0;
        if info.bold {
            attrs.push(SpanAttr { start_index: start, end_index: end, kind: SpanKind::Bold });
        }
        if info.italic {
            attrs.push(SpanAttr { start_index: start, end_index: end, kind: SpanKind::Italic });
        }
        if info.underline {
            attrs.push(SpanAttr { start_index: start, end_index: end, kind: SpanKind::Underline });
        }
        let bg_differs = match theme_bg {
            Some(c) => c != info.background,
            None => true,
        };
        if bg_differs {
            attrs.push(
                SpanAttr {
                    start_index: start,
                    end_index: end,
                    kind: SpanKind::Background {
                        red: (info.background.red as u16) * 257,
                        green: (info.background.green as u16) * 257,
                        blue: (info.background.blue as u16) * 257,
                    },
                },
            );
            if info.background.alpha != 255 {
                attrs.push(
                    SpanAttr {
                        start_index: start,
                        end_index: end,
                        kind: SpanKind::BackgroundAlpha {
                            alpha: (info.background.alpha as u16) * 257,
                        },
                    },
                );
            }
        }
        let fg_differs = match theme_fg {
            Some(c) => c != info.foreground,
            None => true,
        };
        if fg_differs {
            attrs.push(
                SpanAttr {
                    start_index: start,
                    end_index: end,
                    kind: SpanKind::Foreground {
                        red: (info.foreground.red as u16) * 257,
                        green: (info.foreground.green as u16) * 257,
                        blue: (info.foreground.blue as u16) * 257,
                    },
                },
            );
            if info.foreground.alpha != 255 {
                attrs.push(
                    SpanAttr {
                        start_index: start,
                        end_index: end,
                        kind: SpanKind::ForegroundAlpha {
                            alpha: (info.foreground.alpha as u16) * 257,
                        },
                    },
                );
            }
        }
        proof {
            assert(attrs@ =~= line_attrs_upto(rs, theme_bg, theme_fg, i + 1));
        }
        start = end;
        i = i + 1;
    }
    Some(attrs)
}

/// The decimal digit character for a value below ten.
pub open spec fn spec_digit_char(d: int) -> char {
    if d == 0 {
        '0'
    } else if d == 1 {
        '1'
    } else if d == 2 {
        '2'
    } else if d == 3 {
        '3'
    } else if d == 4 {
        '4'
    } else if d == 5 {
        '5'
    } else if d == 6 {
        '6'
    } else if d == 7 {
        '7'
    } else if d == 8 {
        '8'
    } else {
        '9'
    }
}

/// The decimal digits of a nonnegative number, most significant first.
pub open spec fn spec_decimal(n: int) -> Seq<char>
    decreases n,
{
    if n < 10 {
        seq![spec_digit_char(n)]
    } else {
        spec_decimal(n / 10).push(spec_digit_char(n % 10))
    }
}

/// The one-character string for a decimal digit.
fn digit_str(d: u64) -> (r: &'static str)
    requires
        d < 10,
    ensures
        r@ == seq![spec_digit_char(d as int)],
{
    proof {
        reveal_strlit("0");
        reveal_strlit("1");
        reveal_strlit("2");
        reveal_strlit("3");
        reveal_strlit("4");
        reveal_strlit("5");
        reveal_strlit("6");
        reveal_strlit("7");
        reveal_strlit("8");
        reveal_strlit("9");
    }
    match d {
        0 => "0",
        1 => "1",
        2 => "2",
        3 => "3",
        4 => "4",
        5 => "5",
        6 => "6",
        7 => "7",
        8 => "8",
        _ => "9",
    }
}

/// The decimal rendering of a number.
fn decimal_string(n: u64) -> (r: String)
    ensures
        r@ == spec_decimal(n as int),
    decreases n,
{
    if n < 10 {
        let r = digit_str(n).to_owned();
        proof {
            assert(r@ =~= spec_decimal(n as int));
        }
        r
    } else {
        let mut r = decimal_string(n / 10);
        r.append(digit_str(n % 10));
        proof {
            assert(r@ =~= spec_decimal(n as int));
        }
        r
    }
}

/// The gutter text for a line number: its decimal digits and a trailing
/// space.
pub fn line_number_text(n: u64) -> (r: String)
    ensures
        r@ == spec_decimal(n as int).push(' '),
{
    proof {
        reveal_strlit(" ");
    }
    let mut r = decimal_string(n);
    r.append(" ");
    proof {
        assert(r@ =~= spec_decimal(n as int).push(' '));
    }
    r
}

/// A text box after replacing its font: everything else stays, and the
/// new font matches the given one field by field.
pub open spec fn refonted(old_box: TextBox, new_box: TextBox, font: FontSpec) -> bool {
    &&& new_box.text == old_box.text
    &&& new_box.metrics == old_box.metrics
    &&& new_box.max_width == old_box.max_width
    &&& new_box.color == old_box.color
    &&& new_box.style.alignment == old_box.style.alignment
    &&& new_box.style.justify == old_box.style.justify
    &&& new_box.style.line_height_permille == old_box.style.line_height_permille
    &&& new_box.style.font.family@ == font.family@
    &&& new_box.style.font.size == font.size
    &&& new_box.style.font.weight == font.weight
    &&& new_box.style.font.style == font.style
}

/// One line of a source-code block: the gutter text with the line
/// number, the source text, its styling attributes, and the paragraph
/// indent the backend applies to the source text — negative values hang
/// the wrapped continuations of the line.
#[derive(Debug, Clone)]
pub struct SourceLine {
    pub number: TextBox,
    pub source: TextBox,
    pub attrs: Vec<SpanAttr>,
    pub indent: Length,
}

impl SourceLine {
    /// Both text boxes carry sound measurements.
    pub open spec fn wf(&self) -> bool {
        self.number.wf() && self.source.wf()
    }
}

/// The widest gutter text of the block (zero if empty).
pub open spec fn fold_number_width(lines: Seq<SourceLine>) -> int
    decreases lines.len(),
{
    if lines.len() == 0 {
        0
    } else {
        let rest = fold_number_width(lines.drop_last());
        let last = lines.last().number.spec_size().x;
        if last >= rest {
            last
        } else {
            rest
        }
    }
}

/// The widest source text of the block, at least one centimeter.
pub open spec fn fold_source_width(lines: Seq<SourceLine>) -> int
    decreases lines.len(),
{
    if lines.len() == 0 {
        SUB_PER_CM as int
    } else {
        let rest = fold_source_width(lines.drop_last());
        let last = lines.last().source.spec_size().x;
        if last >= rest {
            last
        } else {
            rest
        }
    }
}

/// The widest natural source text of the block, at least one centimeter.
pub open spec fn fold_natural_source_width(lines: Seq<SourceLine>) -> int
    decreases lines.len(),
{
    if lines.len() == 0 {
        SUB_PER_CM as int
    } else {
        let rest = fold_natural_source_width(lines.drop_last());
        let last = lines.last().source.spec_natural_width();
        if last >= rest {
            last
        } else {
            rest
        }
    }
}

/// The height of one line: its source or gutter text, whichever is
/// taller.
pub open spec fn line_height_of(line: SourceLine) -> int {
    let s = line.source.spec_size().y;
    let n = line.number.spec_size().y;
    if s >= n {
        s
    } else {
        n
    }
}

/// The total height of the block: the lines stacked.
pub open spec fn fold_code_height(lines: Seq<SourceLine>) -> int
    decreases lines.len(),
{
    if lines.len() == 0 {
        0
    } else {
        fold_code_height(lines.drop_last()) + line_height_of(lines.last())
    }
}

/// All lines of the sequence are well-formed.
pub open spec fn all_lines_wf(lines: Seq<SourceLine>) -> bool {
    forall|i: int| 0 <= i < lines.len() ==> (#[trigger] lines[i]).wf()
}

/// Over well-formed lines the folds stay within easy bounds.
proof fn lemma_code_fold_bounds(lines: Seq<SourceLine>)
    requires
        all_lines_wf(lines),
    ensures
        metric_in_range(fold_number_width(lines)),
        metric_in_range(fold_source_width(lines)),
        metric_in_range(fold_natural_source_width(lines)),
        0 <= fold_code_height(lines) <= lines.len() * MAX_METRIC,
    decreases lines.len(),
{
    if lines.len() > 0 {
        assert(all_lines_wf(lines.drop_last()));
        lemma_code_fold_bounds(lines.drop_last());
        assert((lines.len() - 1) * MAX_METRIC + MAX_METRIC == lines.len() * MAX_METRIC)
            by (nonlinear_arith);
    }
}

/// The measured extents of a source-code block: the width of the gutter
/// column, the width of the source column under the current constraint,
/// the natural source width, and the total height.
#[derive(Debug, Clone, Copy, PartialEq, Eq, Structural)]
pub struct SourceCodeSizeInfo {
    pub line_nr_width: Length,
    pub source_width: Length,
    pub natural_source_width: Length,
    pub height: Length,
}

impl SourceCodeSizeInfo {
    /// The cached extents agree with the lines they were computed from.
    pub open spec fn matches(&self, lines: Seq<SourceLine>) -> bool {
        &&& self.line_nr_width@ == fold_number_width(lines)
        &&& self.source_width@ == fold_source_width(lines)
        &&& self.natural_source_width@ == fold_natural_source_width(lines)
        &&& self.height@ == fold_code_height(lines)
    }

    /// Measure the block: one pass over the lines, taking maxima of the
    /// widths and accumulating the heights.
    pub fn compute(lines: &Vec<SourceLine>) -> (r: Self)
        requires
            lines@.len() <= MAX_CHILDREN,
            all_lines_wf(lines@),
        ensures
            r.matches(lines@),
    {
        let ghost ls = lines@;
        proof {
            lemma_code_fold_bounds(ls);
        }
        let mut line_nr_width = Length::zero();
        let mut source_width = Length::from_cm(1);
        let mut natural_source_width = Length::from_cm(1);
        let mut height = Length::zero();
        let mut i: usize = 0;
        while i < lines.len()
            invariant
                i <= ls.len(),
                lines@ == ls,
                ls.len() <= MAX_CHILDREN,
                all_lines_wf(ls),
                line_nr_width@ == fold_number_width(ls.subrange(0, i as int)),
                source_width@ == fold_source_width(ls.subrange(0, i as int)),
                natural_source_width@ == fold_natural_source_width(ls.subrange(0, i as int)),
                height@ == fold_code_height(ls.subrange(0, i as int)),
                metric_in_range(line_nr_width@),
                metric_in_range(source_width@),
                metric_in_range(natural_source_width@),
                0 <= height@ <= i * MAX_METRIC,
            decreases ls.len() - i,
        {
            let line = &lines[i];
            proof {
                assert(ls[i as int].wf());
                assert(ls.subrange(0, i + 1).drop_last() == ls.subrange(0, i as int));
                assert(i * MAX_METRIC + MAX_METRIC == (i + 1) * MAX_METRIC) by (nonlinear_arith);
                assert((i + 1) * MAX_METRIC <= MAX_CHILDREN * MAX_METRIC) by (nonlinear_arith)
                    requires
                        0 <= i + 1 <= MAX_CHILDREN,
                ;
            }
            natural_source_width = natural_source_width.max(line.source.metrics.natural_width);
            source_width = source_width.max(line.source.metrics.size.x);
            line_nr_width = line_nr_width.max(line.number.metrics.size.x);
            height = height.add(line.source.metrics.size.y.max(line.number.metrics.size.y));
            i = i + 1;
        }
        proof {
            assert(ls.subrange(0, ls.len() as int) == ls);
        }
        SourceCodeSizeInfo { line_nr_width, source_width, natural_source_width, height }
    }
}

/// A drawable block of highlighted source code.
#[derive(Debug, Clone)]
pub struct HighlightedSourceCode {
    /// The lines of the block.
    pub lines: Vec<SourceLine>,
    /// The width constraint of the whole block.
    pub max_width: Option<Length>,
    /// The cached extents of the block.
    pub size_info: SourceCodeSizeInfo,
    /// The background of the source column, if any.
    pub background: Option<Color>,
    /// The default text color of the source column, if any.
    pub foreground: Option<Color>,
    /// The background of the gutter column, if any.
    pub line_nr_background: Option<Color>,
    /// The text color of the gutter column, if any.
    pub line_nr_foreground: Option<Color>,
}

impl HighlightedSourceCode {
    /// The lines are sound and the cached extents agree with them.
    pub open spec fn spec_wf(&self) -> bool {
        &&& self.lines@.len() <= MAX_CHILDREN
        &&& all_lines_wf(self.lines@)
        &&& self.size_info.matches(self.lines@)
    }

    /// Create a block from its prepared lines and theme colors.
    pub fn new(
        lines: Vec<SourceLine>,
        background: Option<Color>,
        foreground: Option<Color>,
        line_nr_background: Option<Color>,
        line_nr_foreground: Option<Color>,
    ) -> (r: Self)
        requires
            lines@.len() <= MAX_CHILDREN,
            all_lines_wf(lines@),
        ensures
            r.spec_wf(),
            r.lines@ == lines@,
            r.max_width is None,
            r.background == background,
            r.foreground == foreground,
            r.line_nr_background == line_nr_background,
            r.line_nr_foreground == line_nr_foreground,
    {
        let size_info = SourceCodeSizeInfo::compute(&lines);
        HighlightedSourceCode {
            lines,
            max_width: None,
            size_info,
            background,
            foreground,
            line_nr_background,
            line_nr_foreground,
        }
    }

    /// Store fresh extents for one line from the text backend, and bring
    /// the cached block extents up to date.
    pub fn set_line_metrics(&mut self, index: usize, number: TextMetrics, source: TextMetrics)
        requires
            old(self).spec_wf(),
            index < old(self).lines@.len(),
            number.wf(),
            source.wf(),
        ensures
            final(self).spec_wf(),
            final(self).lines@.len() == old(self).lines@.len(),
            forall|i: int| 0 <= i < old(self).lines@.len() && i != index
                ==> #[trigger] final(self).lines@[i] == old(self).lines@[i],
            final(self).lines@[index as int].number.metrics == number,
            final(self).lines@[index as int].source.metrics == source,
            final(self).lines@[index as int].number.text == old(self).lines@[
                index as int].number.text,
            final(self).lines@[index as int].number.style == old(self).lines@[
                index as int].number.style,
            final(self).lines@[index as int].number.max_width == old(self).lines@[
                index as int].number.max_width,
            final(self).lines@[index as int].source.text == old(self).lines@[
                index as int].source.text,
            final(self).lines@[index as int].source.style == old(self).lines@[
                index as int].source.style,
            final(self).lines@[index as int].source.max_width == old(self).lines@[
                index as int].source.max_width,
            final(self).lines@[index as int].attrs == old(self).lines@[index as int].attrs,
            final(self).lines@[index as int].indent == old(self).lines@[index as int].indent,
            final(self).max_width == old(self).max_width,
            final(self).background == old(self).background,
            final(self).foreground == old(self).foreground,
            final(self).line_nr_background == old(self).line_nr_background,
            final(self).line_nr_foreground == old(self).line_nr_foreground,
    {
        self.lines[index].number.apply_metrics(number);
        self.lines[index].source.apply_metrics(source);
        self.size_info = SourceCodeSizeInfo::compute(&self.lines);
    }

    /// Set the font of every line's gutter and source text.
    ///
    /// The stored measurements — and with them the cached block extents —
    /// stay in place until the backend measures the restyled lines again
    /// through [`HighlightedSourceCode::set_line_metrics`].
    pub fn set_font(&mut self, font: FontSpec)
        requires
            old(self).spec_wf(),
        ensures
            final(self).spec_wf(),
            final(self).lines@.len() == old(self).lines@.len(),
            forall|k: int| 0 <= k < old(self).lines@.len() ==> refonted(
                #[trigger] old(self).lines@[k].number,
                final(self).lines@[k].number,
                font,
            ) && refonted(old(self).lines@[k].source, final(self).lines@[k].source, font)
                && final(self).lines@[k].attrs == old(self).lines@[k].attrs
                && final(self).lines@[k].indent == old(self).lines@[k].indent,
            final(self).max_width == old(self).max_width,
            final(self).size_info == old(self).size_info,
            final(self).background == old(self).background,
            final(self).foreground == old(self).foreground,
            final(self).line_nr_background == old(self).line_nr_background,
            final(self).line_nr_foreground == old(self).line_nr_foreground,
    {
        let ghost orig = *old(self);
        let mut k: usize = 0;
        while k < self.lines.len()
            invariant
                k <= orig.lines@.len(),
                self.lines@.len() == orig.lines@.len(),
                self.max_width == orig.max_width,
                self.size_info == orig.size_info,
                self.background == orig.background,
                self.foreground == orig.foreground,
                self.line_nr_background == orig.line_nr_background,
                self.line_nr_foreground == orig.line_nr_foreground,
                orig.spec_wf(),
                forall|t: int| k <= t < orig.lines@.len() ==> #[trigger] self.lines@[t]
                    == orig.lines@[t],
                forall|t: int| 0 <= t < k ==> refonted(
                    #[trigger] orig.lines@[t].number,
                    self.lines@[t].number,
                    font,
                ) && refonted(orig.lines@[t].source, self.lines@[t].source, font)
                    && self.lines@[t].attrs == orig.lines@[t].attrs
                    && self.lines@[t].indent == orig.lines@[t].indent,
            decreases orig.lines@.len() - k,
        {
            let number_font = FontSpec {
                family: font.family.clone(),
                size: font.size,
                weight: font.weight,
                style: font.style,
            };
            let source_font = FontSpec {
                family: font.family.clone(),
                size: font.size,
                weight: font.weight,
                style: font.style,
            };
            self.lines[k].number.apply_font(number_font);
            self.lines[k].source.apply_font(source_font);
            k = k + 1;
        }
        proof {
            assert forall|i: int| 0 <= i < self.lines@.len()
                implies #[trigger] self.lines@[i].number.metrics == orig.lines@[i].number.metrics
                && self.lines@[i].source.metrics == orig.lines@[i].source.metrics
                && self.lines@[i].wf() by {
            }
            lemma_code_folds_congruent(orig.lines@, self.lines@);
        }
    }

    /// Where the gutter and the source text of line `k` land when the
    /// block is drawn at `origin`: both sit below the lines before them;
    /// the gutter text is right-aligned against the gutter column, and
    /// the source text starts right after it.
    pub open spec fn spec_line_placement(&self, origin: Vector2View, k: int) -> LinePlacementView {
        let y = origin.y + fold_code_height(self.lines@.subrange(0, k));
        let gutter_end = origin.x + fold_number_width(self.lines@);
        LinePlacementView {
            number_position: Vector2View {
                x: gutter_end - self.lines@[k].number.spec_size().x,
                y,
            },
            source_position: Vector2View { x: gutter_end, y },
        }
    }

    /// Compute, for every line in order, where its gutter text and its
    /// source text are drawn when the block is drawn at `position`.
    pub fn line_placements(&self, position: Vector2) -> (r: Vec<LinePlacement>)
        requires
            self.spec_wf(),
            -0x2000_0000_0000_0000 <= position@.x <= 0x2000_0000_0000_0000,
            -0x2000_0000_0000_0000 <= position@.y <= 0x2000_0000_0000_0000,
        ensures
            r@.len() == self.lines@.len(),
            forall|k: int| 0 <= k < r@.len() ==> (#[trigger] r@[k]).view_of()
                == self.spec_line_placement(position@, k),
    {
        let ghost ls = self.lines@;
        proof {
            lemma_code_fold_bounds(ls);
        }
        let gutter_end = position.x.add(self.size_info.line_nr_width);
        let mut placements: Vec<LinePlacement> = Vec::new();
        let mut y = position.y;
        let mut k: usize = 0;
        while k < self.lines.len()
            invariant
                k <= ls.len(),
                self.lines@ == ls,
                self.spec_wf(),
                -0x2000_0000_0000_0000 <= position@.x <= 0x2000_0000_0000_0000,
                -0x2000_0000_0000_0000 <= position@.y <= 0x2000_0000_0000_0000,
                gutter_end@ == position@.x + fold_number_width(ls),
                y@ == position@.y + fold_code_height(ls.subrange(0, k as int)),
                0 <= fold_code_height(ls.subrange(0, k as int)) <= k * MAX_METRIC,
                placements@.len() == k,
                forall|t: int| 0 <= t < k ==> (#[trigger] placements@[t]).view_of()
                    == self.spec_line_placement(position@, t),
            decreases ls.len() - k,
        {
            let line = &self.lines[k];
            proof {
                assert(ls[k as int].wf());
                assert(ls.subrange(0, k + 1).drop_last() == ls.subrange(0, k as int));
                assert(k * MAX_METRIC + MAX_METRIC == (k + 1) * MAX_METRIC) by (nonlinear_arith);
                assert((k + 1) * MAX_METRIC <= MAX_CHILDREN * MAX_METRIC) by (nonlinear_arith)
                    requires
                        0 <= k + 1 <= MAX_CHILDREN,
                ;
                lemma_code_fold_bounds(ls.subrange(0, k as int));
                lemma_code_fold_bounds(ls);
            }
            placements.push(
                LinePlacement {
                    number_position: Vector2::new(
                        gutter_end.sub(line.number.metrics.size.x),
                        y,
                    ),
                    source_position: Vector2::new(gutter_end, y),
                },
            );
            let line_height = line.source.metrics.size.y.max(line.number.metrics.size.y);
            y = y.add(line_height);
            k = k + 1;
        }
        placements
    }

    /// The rectangle the gutter background fills when the block is drawn
    /// at `position`, if a gutter background color is set: the gutter
    /// column over the block's full height.
    pub fn gutter_background_rect(&self, position: Vector2) -> (r: Option<Rectangle>)
        requires
            self.spec_wf(),
            -0x2000_0000_0000_0000 <= position@.x <= 0x2000_0000_0000_0000,
            -0x2000_0000_0000_0000 <= position@.y <= 0x2000_0000_0000_0000,
        ensures
            r is Some <==> self.line_nr_background is Some,
            match r {
                Some(rect) => rect@ == (RectangleView {
                    min: position@,
                    max: Vector2View {
                        x: position@.x + fold_number_width(self.lines@),
                        y: position@.y + fold_code_height(self.lines@),
                    },
                }),
                None => true,
            },
    {
        proof {
            lemma_code_fold_bounds(self.lines@);
        }
        match self.line_nr_background {
            Some(_) => Some(
                Rectangle::from_pos_size(
                    position,
                    Vector2::new(self.size_info.line_nr_width, self.size_info.height),
                ),
            ),
            None => None,
        }
    }

    /// The rectangle the source background fills when the block is drawn
    /// at `position`, if a background color is set: the source column
    /// over the block's full height, widened by one point to the left so
    /// it meets the gutter.
    pub fn source_background_rect(&self, position: Vector2) -> (r: Option<Rectangle>)
        requires
            self.spec_wf(),
            -0x2000_0000_0000_0000 <= position@.x <= 0x2000_0000_0000_0000,
            -0x2000_0000_0000_0000 <= position@.y <= 0x2000_0000_0000_0000,
        ensures
            r is Some <==> self.background is Some,
            match r {
                Some(rect) => rect@ == (RectangleView {
                    min: Vector2View {
                        x: position@.x + fold_number_width(self.lines@) - SUB_PER_PT,
                        y: position@.y,
                    },
                    max: Vector2View {
                        x: position@.x + fold_number_width(self.lines@) + fold_source_width(
                            self.lines@,
                        ),
                        y: position@.y + fold_code_height(self.lines@),
                    },
                }),
                None => true,
            },
    {
        proof {
            lemma_code_fold_bounds(self.lines@);
        }
        match self.background {
            Some(_) => {
                let x = position.x.add(self.size_info.line_nr_width);
                let min = Vector2::new(x.sub(Length::from_pt(1)), position.y);
                let max = Vector2::new(
                    x.add(self.size_info.source_width),
                    position.y.add(self.size_info.height),
                );
                Some(Rectangle::from_min_max(min, max))
            },
            None => None,
        }
    }
}

/// Where one line of a source-code block is drawn: the gutter text and
/// the source text.
#[derive(Debug, Clone, Copy, PartialEq, Eq, Structural)]
pub struct LinePlacement {
    pub number_position: Vector2,
    pub source_position: Vector2,
}

/// The mathematical value of a [`LinePlacement`].
#[verifier::ext_equal]
pub struct LinePlacementView {
    pub number_position: Vector2View,
    pub source_position: Vector2View,
}

impl LinePlacement {
    /// Both positions in subunits.
    pub open spec fn view_of(&self) -> LinePlacementView {
        LinePlacementView {
            number_position: self.number_position@,
            source_position: self.source_position@,
        }
    }
}

impl Drawable for HighlightedSourceCode {
    open spec fn wf(&self) -> bool {
        self.spec_wf()
    }

    open spec fn spec_max_width(&self) -> Option<int> {
        opt_len_view(self.max_width)
    }

    open spec fn spec_size(&self) -> Vector2View {
        Vector2View {
            x: fold_number_width(self.lines@) + fold_source_width(self.lines@),
            y: fold_code_height(self.lines@),
        }
    }

    open spec fn spec_baseline(&self) -> Option<int> {
        if self.lines@.len() == 0 {
            None
        } else {
            Some(self.lines@[0].number.metrics.baseline@)
        }
    }

    open spec fn spec_natural_width(&self) -> int {
        fold_number_width(self.lines@) + fold_natural_source_width(self.lines@)
    }

    open spec fn spec_min_width(&self) -> int {
        if self.lines@.len() == 0 {
            0
        } else {
            fold_number_width(self.lines@) + SUB_PER_CM
        }
    }

    proof fn wf_bounds(&self) {
        lemma_code_fold_bounds(self.lines@);
    }

    fn min_width(&self) -> (r: Length) {
        if self.lines.len() == 0 {
            Length::zero()
        } else {
            proof {
                lemma_code_fold_bounds(self.lines@);
            }
            self.size_info.line_nr_width.add(Length::from_cm(1))
        }
    }

    fn max_width(&self) -> (r: Option<Length>) {
        self.max_width
    }

    fn compute_size(&self) -> (r: Vector2) {
        proof {
            lemma_code_fold_bounds(self.lines@);
        }
        Vector2::new(
            self.size_info.line_nr_width.add(self.size_info.source_width),
            self.size_info.height,
        )
    }

    fn compute_width(&self) -> (r: Length) {
        self.compute_size().x
    }

    fn compute_height(&self) -> (r: Length) {
        self.compute_size().y
    }

    fn compute_baseline(&self) -> (r: Option<Length>) {
        if self.lines.len() == 0 {
            None
        } else {
            Some(self.lines[0].number.metrics.baseline)
        }
    }

    fn compute_natural_width(&self) -> (r: Length) {
        proof {
            lemma_code_fold_bounds(self.lines@);
        }
        self.size_info.line_nr_width.add(self.size_info.natural_source_width)
    }
}

/// Pointwise preserved measurements leave the block folds unchanged.
pub(crate) proof fn lemma_code_folds_congruent(a: Seq<SourceLine>, b: Seq<SourceLine>)
    requires
        a.len() == b.len(),
        forall|i: int| 0 <= i < a.len() ==> #[trigger] b[i].number.metrics == a[i].number.metrics
            && b[i].source.metrics == a[i].source.metrics,
    ensures
        fold_number_width(a) == fold_number_width(b),
        fold_source_width(a) == fold_source_width(b),
        fold_natural_source_width(a) == fold_natural_source_width(b),
        fold_code_height(a) == fold_code_height(b),
    decreases a.len(),
{
    if a.len() > 0 {
        lemma_code_folds_congruent(a.drop_last(), b.drop_last());
    }
}

impl DrawableMut for HighlightedSourceCode {
    open spec fn set_max_width_ok(&self, width: Option<int>) -> bool {
        match width {
            Some(w) => i64::MIN <= w - fold_number_width(self.lines@) <= i64::MAX,
            None => true,
        }
    }

    open spec fn with_max_width_rel(&self, new: &Self, width: Option<int>) -> bool {
        let forwarded = match width {
            Some(w) => Some(w - fold_number_width(self.lines@)),
            None => None,
        };
        &&& opt_len_view(new.max_width) == width
        &&& new.background == self.background
        &&& new.foreground == self.foreground
        &&& new.line_nr_background == self.line_nr_background
        &&& new.line_nr_foreground == self.line_nr_foreground
        &&& new.lines@.len() == self.lines@.len()
        &&& forall|i: int| 0 <= i < self.lines@.len() ==> #[trigger] new.lines@[i].number
            == self.lines@[i].number && new.lines@[i].attrs == self.lines@[i].attrs
            && self.lines@[i].source.with_max_width_rel(&new.lines@[i].source, forwarded)
    }

    /// Constraining the block to a width leaves the difference after the
    /// gutter column to every line's source text.
    fn set_max_width(&mut self, width: Option<Length>) {
        let source_limit = match width {
            Some(w) => Some(w.sub(self.size_info.line_nr_width)),
            None => None,
        };
        let ghost orig = *old(self);
        let ghost forwarded = match opt_len_view(width) {
            Some(w) => Some(w - fold_number_width(orig.lines@)),
            None => None,
        };
        proof {
            assert(opt_len_view(source_limit) == forwarded);
        }
        let mut k: usize = 0;
        while k < self.lines.len()
            invariant
                k <= orig.lines@.len(),
                self.lines@.len() == orig.lines@.len(),
                self.max_width == orig.max_width,
                self.size_info == orig.size_info,
                self.background == orig.background,
                self.foreground == orig.foreground,
                self.line_nr_background == orig.line_nr_background,
                self.line_nr_foreground == orig.line_nr_foreground,
                orig.spec_wf(),
                opt_len_view(source_limit) == forwarded,
                forall|t: int| k <= t < orig.lines@.len() ==> #[trigger] self.lines@[t]
                    == orig.lines@[t],
                forall|t: int| 0 <= t < k ==> #[trigger] self.lines@[t].number
                    == orig.lines@[t].number && self.lines@[t].attrs == orig.lines@[t].attrs
                    && orig.lines@[t].source.with_max_width_rel(&self.lines@[t].source, forwarded)
                    && self.lines@[t].source.wf(),
            decreases orig.lines@.len() - k,
        {
            DrawableMut::set_max_width(&mut self.lines[k].source, source_limit);
            k = k + 1;
        }
        self.max_width = width;
        proof {
            assert forall|i: int| 0 <= i < self.lines@.len() implies #[trigger] self.lines@[i].wf()
                && self.lines@[i].number == orig.lines@[i].number
                && self.lines@[i].source.metrics == orig.lines@[i].source.metrics by {
            }
            lemma_code_folds_congruent(orig.lines@, self.lines@);
        }
        self.size_info = SourceCodeSizeInfo::compute(&self.lines);
    }
}

} // verus!
