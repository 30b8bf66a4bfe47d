//! Syntax highlighting for source-code blocks.
//!
//! The heavy lifting — grammars, themes and the highlighting automaton —
//! is done by the `syntect` crate behind the trusted items below; the
//! logic around it (theme lookup, building the lines of a block, turning
//! style runs into span attributes) is the library's own and verified.

use vstd::prelude::*;
use vstd::string::StringExecFns;

use crate::drawable::MAX_CHILDREN;
use crate::length::Length;
use crate::source_code::HighlightedSourceCode;
use crate::source_code::SourceLine;
use crate::source_code::StyleInfo;
use crate::source_code::highlights_to_attrs;
use crate::source_code::line_number_text;
use crate::source_code::run_views;
use crate::source_code::total_run_bytes;
use crate::style::Color;
use crate::style::FontSpec;
use crate::style::FontStyle;
use crate::style::FontWeight;
use crate::text_box::TextBox;

verus! {

#[verifier::external_type_specification]
#[verifier::external_body]
pub struct ExSyntaxSet(syntect::parsing::SyntaxSet);

#[verifier::external_type_specification]
#[verifier::external_body]
pub struct ExSyntaxReference(syntect::parsing::SyntaxReference);

#[verifier::external_type_specification]
#[verifier::external_body]
pub struct ExThemeSet(syntect::highlighting::ThemeSet);

#[verifier::external_type_specification]
#[verifier::external_body]
pub struct ExTheme(syntect::highlighting::Theme);

#[verifier::external_type_specification]
#[verifier::external_body]
pub struct ExStyle(syntect::highlighting::Style);

/// The names of the themes a theme set holds.
pub uninterp spec fn theme_names_of(themes: syntect::highlighting::ThemeSet) -> Set<Seq<char>>;

/// Whether the syntax set has a grammar for the given language token
/// (a file extension, or a case-insensitive language name).
pub uninterp spec fn has_syntax_for(syntaxes: syntect::parsing::SyntaxSet, token: Seq<char>) -> bool;

/// Whether a grammar belongs to a syntax set.  The highlighter resolves
/// a grammar's context references against the set it is driven with and
/// may panic when handed a grammar from a different set, so every
/// highlighting call demands this membership.
pub uninterp spec fn syntax_in_set(
    syntax: syntect::parsing::SyntaxReference,
    syntaxes: syntect::parsing::SyntaxSet,
) -> bool;

/// The pieces the line splitter cuts a text into: split after every
/// newline, endings kept.
pub uninterp spec fn lines_of(code: Seq<char>) -> Seq<Seq<char>>;

/// What the highlighter produces for the given lines, fed to one fresh
/// automaton for the grammar and theme in order: per line its styled
/// runs — each reduced to plain values — or `None` where the grammar
/// fails on this input.  The outcome is a function of these arguments
/// alone.
pub uninterp spec fn highlighted_runs(
    syntax: syntect::parsing::SyntaxReference,
    theme: syntect::highlighting::Theme,
    syntaxes: syntect::parsing::SyntaxSet,
    lines: Seq<Seq<char>>,
) -> Option<Seq<Seq<(StyleInfo, Seq<char>)>>>;

/// The theme's background, foreground, gutter and gutter-foreground
/// colors, as plain values.
pub uninterp spec fn theme_color_settings(theme: syntect::highlighting::Theme) -> (
    Option<Color>,
    Option<Color>,
    Option<Color>,
    Option<Color>,
);

/// The views of a sequence of strings.
pub open spec fn str_views(pieces: Seq<String>) -> Seq<Seq<char>> {
    pieces.map_values(|s: String| s@)
}

/// The views of every line's style runs.
pub open spec fn all_run_views(runs: Seq<Vec<(StyleInfo, String)>>) -> Seq<
    Seq<(StyleInfo, Seq<char>)>,
> {
    runs.map_values(|v: Vec<(StyleInfo, String)>| crate::source_code::run_views(v@))
}

/// A line without one trailing newline, or unchanged if it has none.
pub open spec fn spec_strip_newline(s: Seq<char>) -> Seq<char> {
    if s.len() > 0 && s.last() == '\n' {
        s.drop_last()
    } else {
        s
    }
}

/// Relies on `syntect::parsing::SyntaxSet::load_defaults_newlines`: the
/// grammars bundled with the highlighter, for lines that keep their
/// endings.
#[verifier::external_body]
fn load_default_syntaxes() -> syntect::parsing::SyntaxSet {
    syntect::parsing::SyntaxSet::load_defaults_newlines()
}

/// Relies on `syntect::highlighting::ThemeSet::load_defaults`: the color
/// themes bundled with the highlighter.
#[verifier::external_body]
fn load_default_themes() -> syntect::highlighting::ThemeSet {
    syntect::highlighting::ThemeSet::load_defaults()
}

/// Relies on `BTreeMap::contains_key` on `ThemeSet::themes`: whether the
/// set holds a theme of that name.
#[verifier::external_body]
fn theme_exists(themes: &syntect::highlighting::ThemeSet, name: &str) -> (r: bool)
    ensures
        r == theme_names_of(*themes).contains(name@),
{
    themes.themes.contains_key(name)
}

/// Relies on `BTreeMap::get` on `ThemeSet::themes`: the theme of that
/// name, present exactly when the name is among the set's theme names.
#[verifier::external_body]
fn get_theme<'a>(themes: &'a syntect::highlighting::ThemeSet, name: &str) -> (r: Option<
    &'a syntect::highlighting::Theme>)
    ensures
        r is Some <==> theme_names_of(*themes).contains(name@),
{
    themes.themes.get(name)
}

/// Relies on `BTreeMap::keys` on `ThemeSet::themes`: exactly the theme
/// names of the set, each once.
#[verifier::external_body]
fn theme_name_list(themes: &syntect::highlighting::ThemeSet) -> (r: Vec<String>)
    ensures
        forall|i: int| 0 <= i < r@.len() ==> theme_names_of(*themes).contains(#[trigger] r@[i]@),
        forall|name: Seq<char>| #[trigger] theme_names_of(*themes).contains(name) ==> exists|i: int|
            0 <= i < r@.len() && #[trigger] r@[i]@ == name,
        forall|i: int, j: int| 0 <= i < j < r@.len() ==> #[trigger] r@[i]@ != #[trigger] r@[j]@,
{
    themes.themes.keys().cloned().collect()
}

/// Relies on `BTreeMap::keys` on `ThemeSet::themes`: some theme name of
/// the set, or `None` exactly when the set is empty.
#[verifier::external_body]
fn first_theme_name(themes: &syntect::highlighting::ThemeSet) -> (r: Option<String>)
    ensures
        match r {
            Some(name) => theme_names_of(*themes).contains(name@),
            None => theme_names_of(*themes) =~= Set::empty(),
        },
{
    themes.themes.keys().next().cloned()
}

/// Relies on `syntect::parsing::SyntaxSet::find_syntax_by_token`: the
/// grammar for a language token, found exactly when the set has one —
/// and found in the set itself, so it may be highlighted with it.
#[verifier::external_body]
fn find_syntax<'a>(syntaxes: &'a syntect::parsing::SyntaxSet, token: &str) -> (r: Option<
    &'a syntect::parsing::SyntaxReference>)
    ensures
        r is Some <==> has_syntax_for(*syntaxes, token@),
        match r {
            Some(syntax) => syntax_in_set(*syntax, *syntaxes),
            None => true,
        },
{
    syntaxes.find_syntax_by_token(token)
}

/// Relies on `syntect::easy::HighlightLines`: one fresh automaton for
/// the grammar and theme (`new`), driven over the given lines in order
/// (`highlight_line`).  Returns each line's styled runs with the styles
/// reduced to plain values, or the first error rendered as a string.
/// The grammar must belong to the passed set: the highlighter resolves
/// its context references against that set and may panic otherwise.
/// The automaton is deterministic, so the outcome is the one the name
/// [`highlighted_runs`] stands for.
#[verifier::external_body]
fn highlight_lines(
    syntax: &syntect::parsing::SyntaxReference,
    theme: &syntect::highlighting::Theme,
    syntaxes: &syntect::parsing::SyntaxSet,
    lines: &Vec<String>,
) -> (r: Result<Vec<Vec<(StyleInfo, String)>>, String>)
    requires
        syntax_in_set(*syntax, *syntaxes),
    ensures
        match r {
            Ok(runs) => highlighted_runs(*syntax, *theme, *syntaxes, str_views(lines@)) == Some(
                all_run_views(runs@),
            ) && runs@.len() == lines@.len(),
            Err(_) => highlighted_runs(*syntax, *theme, *syntaxes, str_views(lines@)) is None,
        },
        lines@.len() == 0 ==> r is Ok,
{
    let mut highlighter = syntect::easy::HighlightLines::new(syntax, theme);
    let mut out = Vec::new();
    for line in lines.iter() {
        match highlighter.highlight_line(line, syntaxes) {
            Ok(runs) => out.push(runs.into_iter().map(|(s, t)| (style_info(&s), t.to_owned())).collect()),
            Err(e) => return Err(e.to_string()),
        }
    }
    Ok(out)
}

/// Relies on the public fields of `syntect::highlighting::Style` and on
/// `syntect::highlighting::FontStyle::contains`: the run's colors and
/// font flags as plain values.
#[verifier::external_body]
fn style_info(style: &syntect::highlighting::Style) -> StyleInfo {
    let of = |c: syntect::highlighting::Color| Color { red: c.r, green: c.g, blue: c.b, alpha: c.a };
    StyleInfo {
        foreground: of(style.foreground),
        background: of(style.background),
        bold: style.font_style.contains(syntect::highlighting::FontStyle::BOLD),
        italic: style.font_style.contains(syntect::highlighting::FontStyle::ITALIC),
        underline: style.font_style.contains(syntect::highlighting::FontStyle::UNDERLINE),
    }
}

/// Relies on the public fields of `syntect::highlighting::ThemeSettings`:
/// the theme's background, foreground, gutter and gutter-foreground
/// colors as plain values — what the name [`theme_color_settings`]
/// stands for.
#[verifier::external_body]
fn theme_colors(theme: &syntect::highlighting::Theme) -> (r: (Option<Color>, Option<Color>, Option<
    Color>, Option<Color>))
    ensures
        r == theme_color_settings(*theme),
{
    let of = |c: syntect::highlighting::Color| Color { red: c.r, green: c.g, blue: c.b, alpha: c.a };
    let s = &theme.settings;
    (s.background.map(of), s.foreground.map(of), s.gutter.map(of), s.gutter_foreground.map(of))
}

/// Relies on `syntect::util::LinesWithEndings`: the input split after
/// every newline, keeping the endings — the cut the name [`lines_of`]
/// stands for.  The pieces are nonempty, concatenate back to the input,
/// and hold a newline only as their last character; every piece but the
/// last ends with one.
#[verifier::external_body]
fn split_lines(code: &str) -> (r: Vec<String>)
    ensures
        str_views(r@) == lines_of(code@),
        str_views(r@).flatten() == code@,
        forall|i: int| 0 <= i < r@.len() ==> (#[trigger] r@[i]@).len() > 0,
        forall|i: int| 0 <= i < r@.len() - 1 ==> (#[trigger] r@[i]@).last() == '\n',
        forall|i: int, j: int| 0 <= i < r@.len() && 0 <= j < r@[i]@.len() - 1
            ==> #[trigger] r@[i]@[j] != '\n',
        code@.len() == 0 ==> r@.len() == 0,
{
    syntect::util::LinesWithEndings::from(code).map(|l| l.to_owned()).collect()
}

/// Relies on `str::strip_suffix`: the line without one trailing newline,
/// or unchanged if it has none.
#[verifier::external_body]
fn strip_newline(line: &str) -> (r: String)
    ensures
        r@ == spec_strip_newline(line@),
{
    match line.strip_suffix('\n') {
        Some(stripped) => stripped.to_owned(),
        None => line.to_owned(),
    }
}

/// The highlighting context: the bundled grammars and themes, and the
/// name of the theme used when none is chosen.
pub struct HighlightContext {
    pub syntax_set: syntect::parsing::SyntaxSet,
    pub themes: syntect::highlighting::ThemeSet,
    pub default_theme: String,
}

impl HighlightContext {
    /// Load the bundled grammars and themes; the default theme is the
    /// first of the bundled ones.
    pub fn new() -> (r: Self)
        ensures
            theme_names_of(r.themes).contains(r.default_theme@) || theme_names_of(r.themes)
                =~= Set::empty(),
    {
        let syntax_set = load_default_syntaxes();
        let themes = load_default_themes();
        let default_theme = match first_theme_name(&themes) {
            Some(name) => name,
            None => String::new(),
        };
        HighlightContext { syntax_set, themes, default_theme }
    }

    /// Choose the theme used when none is chosen explicitly.
    ///
    /// Succeeds exactly when the set has a theme of that name; otherwise
    /// the context is unchanged.
    pub fn set_default_theme(&mut self, theme: &str) -> (r: Result<(), String>)
        ensures
            r is Ok <==> theme_names_of(old(self).themes).contains(theme@),
            final(self).syntax_set == old(self).syntax_set,
            final(self).themes == old(self).themes,
            r is Ok ==> final(self).default_theme@ == theme@,
            r is Err ==> final(self).default_theme == old(self).default_theme,
    {
        if theme_exists(&self.themes, theme) {
            self.default_theme = theme.to_owned();
            Ok(())
        } else {
            let mut message = "unknown theme: ".to_owned();
            message.append(theme);
            Err(message)
        }
    }

    /// The names of the themes the context holds: exactly the theme
    /// names, each once.
    pub fn themes(&self) -> (r: Vec<String>)
        ensures
            forall|i: int| 0 <= i < r@.len() ==> theme_names_of(self.themes).contains(
                #[trigger] r@[i]@,
            ),
            forall|name: Seq<char>| #[trigger] theme_names_of(self.themes).contains(name)
                ==> exists|i: int| 0 <= i < r@.len() && #[trigger] r@[i]@ == name,
            forall|i: int, j: int| 0 <= i < j < r@.len() ==> #[trigger] r@[i]@ != #[trigger] r@[j]@,
    {
        theme_name_list(&self.themes)
    }
}

/// A source-code block being configured: the code, its language's
/// grammar, the theme, the font and color overrides.
pub struct SourceCode<'a> {
    pub context: &'a HighlightContext,
    pub code: &'a str,
    pub syntax: &'a syntect::parsing::SyntaxReference,
    pub theme: &'a syntect::highlighting::Theme,
    pub font: FontSpec,
    pub background: Option<Color>,
    pub foreground: Option<Color>,
}

impl<'a> SourceCode<'a> {
    /// The grammar belongs to the context's syntax set, so highlighting
    /// with the pair is safe.  [`SourceCode::new`] establishes this and
    /// every setter keeps it.
    pub open spec fn spec_wf(&self) -> bool {
        syntax_in_set(*self.syntax, self.context.syntax_set)
    }

    /// Start a source-code block for the given language token.
    ///
    /// Succeeds exactly when the context has a grammar for the token and
    /// a theme under its default-theme name.  The font starts as a
    /// 10-point monospace font.
    pub fn new(context: &'a HighlightContext, language: &str) -> (r: Result<Self, String>)
        ensures
            r is Ok <==> has_syntax_for(context.syntax_set, language@) && theme_names_of(
                context.themes,
            ).contains(context.default_theme@),
            match r {
                Ok(sc) => {
                    &&& sc.spec_wf()
                    &&& sc.context == context
                    &&& sc.code@ == Seq::<char>::empty()
                    &&& sc.font.family@ == "monospace"@
                    &&& sc.font.size@ == 10 * crate::length::SUB_PER_PT
                    &&& sc.font.weight == FontWeight::Normal
                    &&& sc.font.style == FontStyle::Normal
                    &&& sc.background is None
                    &&& sc.foreground is None
                },
                Err(_) => true,
            },
    {
        let syntax = match find_syntax(&context.syntax_set, language) {
            Some(s) => s,
            None => {
                let mut message = "unknown language: ".to_owned();
                message.append(language);
                return Err(message);
            },
        };
        let theme = match get_theme(&context.themes, context.default_theme.as_str()) {
            Some(t) => t,
            None => {
                let mut message = "unknown theme: ".to_owned();
                message.append(context.default_theme.as_str());
                return Err(message);
            },
        };
        proof {
            reveal_strlit("");
        }
        Ok(
            SourceCode {
                context,
                code: "",
                syntax,
                theme,
                font: FontSpec::plain("monospace".to_owned(), Length::from_pt(10)),
                background: None,
                foreground: None,
            },
        )
    }

    /// Set the code to highlight.
    pub fn set_code(self, code: &'a str) -> (r: Self)
        ensures
            self.spec_wf() ==> r.spec_wf(),
            r.code@ == code@,
            r.context == self.context,
            r.syntax == self.syntax,
            r.theme == self.theme,
            r.font == self.font,
            r.background == self.background,
            r.foreground == self.foreground,
    {
        SourceCode { code, ..self }
    }

    /// Choose the theme by name.  Succeeds exactly when the context has
    /// a theme of that name; otherwise the block is returned unchanged.
    pub fn set_theme(self, theme: &str) -> (r: Result<Self, String>)
        ensures
            r is Ok <==> theme_names_of(self.context.themes).contains(theme@),
            match r {
                Ok(sc) => {
                    &&& self.spec_wf() ==> sc.spec_wf()
                    &&& sc.context == self.context
                    &&& sc.code == self.code
                    &&& sc.syntax == self.syntax
                    &&& sc.font == self.font
                    &&& sc.background == self.background
                    &&& sc.foreground == self.foreground
                },
                Err(_) => true,
            },
    {
        match get_theme(&self.context.themes, theme) {
            Some(t) => Ok(SourceCode { theme: t, ..self }),
            None => {
                let mut message = "unknown highlighting theme: ".to_owned();
                message.append(theme);
                Err(message)
            },
        }
    }

    /// Set the font of the block.
    pub fn set_font(self, font: FontSpec) -> (r: Self)
        ensures
            self.spec_wf() ==> r.spec_wf(),
            r.font == font,
            r.context == self.context,
            r.code == self.code,
            r.syntax == self.syntax,
            r.theme == self.theme,
            r.background == self.background,
            r.foreground == self.foreground,
    {
        SourceCode { font, ..self }
    }

    /// Override the text color of the block.
    pub fn set_text_color(self, color: Option<Color>) -> (r: Self)
        ensures
            self.spec_wf() ==> r.spec_wf(),
            r.foreground == color,
            r.context == self.context,
            r.code == self.code,
            r.syntax == self.syntax,
            r.theme == self.theme,
            r.font == self.font,
            r.background == self.background,
    {
        SourceCode { foreground: color, ..self }
    }

    /// Override the background color of the block.
    pub fn set_background_color(self, color: Option<Color>) -> (r: Self)
        ensures
            self.spec_wf() ==> r.spec_wf(),
            r.background == color,
            r.context == self.context,
            r.code == self.code,
            r.syntax == self.syntax,
            r.theme == self.theme,
            r.font == self.font,
            r.foreground == self.foreground,
    {
        SourceCode { background: color, ..self }
    }

    /// Highlight the code: split it into lines, run the highlighter
    /// over them, and collect for every line its numbered gutter text,
    /// its text without the line ending, and its span attributes.  The
    /// block's colors fall back to the theme's where not overridden.
    ///
    /// Succeeds exactly when the code's lines fit a composite, the
    /// highlighter accepts them, and every line fits 32-bit byte
    /// offsets; the two failures of the block's own making each come
    /// with their fixed message.  The returned block still needs its
    /// lines measured by the text backend.
    pub fn highlight(&self) -> (r: Result<HighlightedSourceCode, String>)
        requires
            self.spec_wf(),
            i64::MIN <= self.font.size@ * (-2) <= i64::MAX,
        ensures
            ({
                let ls = lines_of(self.code@);
                let hr = highlighted_runs(*self.syntax, *self.theme, self.context.syntax_set, ls);
                &&& (r is Ok <==> ls.len() <= MAX_CHILDREN && match hr {
                    Some(rs) => forall|k: int| 0 <= k < rs.len() ==> total_run_bytes(
                        #[trigger] rs[k],
                    ) <= u32::MAX,
                    None => false,
                })
                &&& ((r matches Err(m) && m@ == "too many lines to lay out"@) <==> ls.len()
                    > MAX_CHILDREN)
                &&& ((r matches Err(m) && m@ == "source line too long to attribute"@) <==> (
                ls.len() <= MAX_CHILDREN && match hr {
                    Some(rs) => exists|k: int| 0 <= k < rs.len() && total_run_bytes(
                        #[trigger] rs[k],
                    ) > u32::MAX,
                    None => false,
                }))
                &&& (self.code@.len() == 0 ==> r is Ok)
            }),
            match r {
                Ok(block) => ({
                    let ls = lines_of(self.code@);
                    let colors = theme_color_settings(*self.theme);
                    &&& block.spec_wf()
                    &&& block.max_width is None
                    &&& block.lines@.len() == ls.len()
                    &&& forall|k: int| 0 <= k < ls.len()
                        ==> (#[trigger] block.lines@[k]).number.text@
                        == crate::source_code::spec_decimal(k).push(' ')
                    &&& forall|k: int| 0 <= k < ls.len()
                        ==> (#[trigger] block.lines@[k]).source.text@ == spec_strip_newline(ls[k])
                    &&& forall|k: int| 0 <= k < ls.len()
                        ==> (#[trigger] block.lines@[k]).source.max_width is None
                        && block.lines@[k].source.metrics.is_zero()
                        && block.lines@[k].source.style.font.family@ == self.font.family@
                        && block.lines@[k].source.style.font.size == self.font.size
                        && block.lines@[k].indent@ == self.font.size@ * (-2)
                    &&& block.background == if self.background is Some {
                        self.background
                    } else {
                        colors.0
                    }
                    &&& block.foreground == if self.foreground is Some {
                        self.foreground
                    } else {
                        colors.1
                    }
                    &&& block.line_nr_background == colors.2
                    &&& block.line_nr_foreground == colors.3
                }),
                Err(_) => true,
            },
    {
        let ghost ls = lines_of(self.code@);
        let pieces = split_lines(self.code);
        proof {
            reveal_strlit("too many lines to lay out");
            reveal_strlit("source line too long to attribute");
            reveal_strlit("highlighting failed: ");
            assert(ls.len() == pieces@.len());
        }
        if pieces.len() > MAX_CHILDREN {
            proof {
                assert(("too many lines to lay out"@)[0] == 't');
                assert(("source line too long to attribute"@)[0] == 's');
                assert("too many lines to lay out"@ != "source line too long to attribute"@);
            }
            return Err("too many lines to lay out".to_owned());
        }
        let all_runs = match highlight_lines(
            self.syntax,
            self.theme,
            &self.context.syntax_set,
            &pieces,
        ) {
            Ok(rs) => rs,
            Err(e) => {
                let mut message = "highlighting failed: ".to_owned();
                message.append(e.as_str());
                proof {
                    assert(message@[0] == 'h');
                    assert(("too many lines to lay out"@)[0] == 't');
                    assert(("source line too long to attribute"@)[0] == 's');
                    assert(message@ != "too many lines to lay out"@);
                    assert(message@ != "source line too long to attribute"@);
                }
                return Err(message);
            },
        };
        let ghost hruns = all_run_views(all_runs@);
        let (theme_bg, theme_fg, gutter_bg, gutter_fg) = theme_colors(self.theme);
        let background = match self.background {
            Some(c) => Some(c),
            None => theme_bg,
        };
        let foreground = match self.foreground {
            Some(c) => Some(c),
            None => theme_fg,
        };

        let mut lines: Vec<SourceLine> = Vec::new();
        let mut line_nr: usize = 0;
        while line_nr < pieces.len()
            invariant
                line_nr <= pieces@.len(),
                pieces@.len() <= MAX_CHILDREN,
                all_runs@.len() == pieces@.len(),
                hruns == all_run_views(all_runs@),
                ls == str_views(pieces@),
                ls == lines_of(self.code@),
                ls.len() == pieces@.len(),
                hruns.len() == pieces@.len(),
                self.code@.len() == 0 ==> pieces@.len() == 0,
                highlighted_runs(*self.syntax, *self.theme, self.context.syntax_set, ls) == Some(
                    hruns,
                ),
                lines@.len() == line_nr,
                crate::source_code::all_lines_wf(lines@),
                forall|k: int| 0 <= k < lines@.len() ==> (#[trigger] lines@[k]).number.text@
                    == crate::source_code::spec_decimal(k).push(' '),
                forall|k: int| 0 <= k < lines@.len() ==> (#[trigger] lines@[k]).source.text@
                    == spec_strip_newline(ls[k]),
                forall|k: int| 0 <= k < lines@.len() ==> (#[trigger] lines@[k]).source.max_width
                    is None && lines@[k].source.metrics.is_zero()
                    && lines@[k].source.style.font.family@ == self.font.family@
                    && lines@[k].source.style.font.size == self.font.size
                    && lines@[k].indent@ == self.font.size@ * (-2),
                i64::MIN <= self.font.size@ * (-2) <= i64::MAX,
                forall|t: int| 0 <= t < line_nr ==> total_run_bytes(#[trigger] hruns[t])
                    <= u32::MAX,
            decreases pieces@.len() - line_nr,
        {
            let piece = &pieces[line_nr];
            proof {
                assert(hruns[line_nr as int] == run_views(all_runs@[line_nr as int]@));
                crate::source_code::lemma_byte_offset_is_total(all_runs@[line_nr as int]@);
                reveal_strlit("too many lines to lay out");
                reveal_strlit("source line too long to attribute");
            }
            let attrs = match highlights_to_attrs(&all_runs[line_nr], theme_bg, theme_fg) {
                Some(attrs) => attrs,
                None => {
                    proof {
                        assert(total_run_bytes(hruns[line_nr as int]) > u32::MAX);
                        assert(("too many lines to lay out"@)[0] == 't');
                        assert(("source line too long to attribute"@)[0] == 's');
                        assert("source line too long to attribute"@ != "too many lines to lay out"@);
                        // The line at hand witnesses that not every line
                        // fits 32-bit offsets.
                        assert(!(ls.len() <= MAX_CHILDREN && match highlighted_runs(
                            *self.syntax,
                            *self.theme,
                            self.context.syntax_set,
                            ls,
                        ) {
                            Some(rs) => forall|k: int| 0 <= k < rs.len() ==> total_run_bytes(
                                #[trigger] rs[k],
                            ) <= u32::MAX,
                            None => false,
                        }));
                    }
                    return Err("source line too long to attribute".to_owned());
                },
            };
            let font = FontSpec {
                family: self.font.family.clone(),
                size: self.font.size,
                weight: self.font.weight,
                style: self.font.style,
            };
            let number = TextBox::new().set_text(line_number_text(line_nr as u64)).set_font(
                FontSpec {
                    family: self.font.family.clone(),
                    size: self.font.size,
                    weight: self.font.weight,
                    style: self.font.style,
                },
            );
            let source = TextBox::new().set_text(strip_newline(piece.as_str())).set_font(font);
            // Wrapped continuations of a source line hang by twice the
            // font size.
            let indent = self.font.size.scale(-2);
            lines.push(SourceLine { number, source, attrs, indent });
            line_nr = line_nr + 1;
        }
        Ok(HighlightedSourceCode::new(lines, background, foreground, gutter_bg, gutter_fg))
    }
}

} // verus!
