use pagelayout::Color;
use pagelayout::HighlightContext;
use pagelayout::SourceCode;
use pagelayout::SpanAttr;
use pagelayout::SpanKind;
use pagelayout::StyleInfo;
use pagelayout::highlights_to_attrs;
use pagelayout::line_number_text;

fn style(fg: Color, bg: Color) -> StyleInfo {
    StyleInfo { foreground: fg, background: bg, bold: false, italic: false, underline: false }
}

fn gray(v: u8) -> Color {
    Color { red: v, green: v, blue: v, alpha: 255 }
}

#[test]
fn attrs_cover_byte_ranges() {
    let fg = gray(10);
    let bg = gray(200);
    let runs = vec![
        (style(fg, bg), "let".to_owned()),
        (style(gray(30), bg), " x = 1;".to_owned()),
    ];
    // The theme colors match neither run's foreground, so every run gets
    // a foreground attribute; the backgrounds all match the theme and
    // are left out.
    let attrs = highlights_to_attrs(&runs, Some(bg), Some(gray(99))).unwrap();
    assert_eq!(
        attrs,
        vec![
            SpanAttr {
                start_index: 0,
                end_index: 3,
                kind: SpanKind::Foreground { red: 2570, green: 2570, blue: 2570 },
            },
            SpanAttr {
                start_index: 3,
                end_index: 10,
                kind: SpanKind::Foreground { red: 7710, green: 7710, blue: 7710 },
            },
        ]
    );
}

#[test]
fn attrs_scale_channels_to_16_bits() {
    let fg = Color { red: 255, green: 0, blue: 1, alpha: 255 };
    let runs = vec![(style(fg, gray(0)), "x".to_owned())];
    let attrs = highlights_to_attrs(&runs, Some(gray(0)), None).unwrap();
    assert_eq!(attrs.len(), 1);
    assert_eq!(
        attrs[0].kind,
        SpanKind::Foreground { red: 65535, green: 0, blue: 257 }
    );
}

#[test]
fn attrs_add_alpha_when_translucent() {
    let fg = Color { red: 1, green: 2, blue: 3, alpha: 128 };
    let runs = vec![(style(fg, gray(0)), "x".to_owned())];
    let attrs = highlights_to_attrs(&runs, Some(gray(0)), None).unwrap();
    assert_eq!(attrs.len(), 2);
    assert_eq!(attrs[1].kind, SpanKind::ForegroundAlpha { alpha: 128 * 257 });
}

#[test]
fn attrs_mark_font_flags() {
    let info = StyleInfo {
        foreground: gray(1),
        background: gray(2),
        bold: true,
        italic: true,
        underline: true,
    };
    let runs = vec![(info, "word".to_owned())];
    // Both colors equal the theme's, so only the three flags remain.
    let attrs = highlights_to_attrs(&runs, Some(gray(2)), Some(gray(1))).unwrap();
    let kinds: Vec<SpanKind> = attrs.iter().map(|a| a.kind).collect();
    assert_eq!(kinds, vec![SpanKind::Bold, SpanKind::Italic, SpanKind::Underline]);
}

#[test]
fn attrs_use_utf8_byte_lengths() {
    let runs = vec![
        (style(gray(9), gray(0)), "\u{e9}\u{e9}".to_owned()),
        (style(gray(8), gray(0)), "x".to_owned()),
    ];
    let attrs = highlights_to_attrs(&runs, Some(gray(0)), None).unwrap();
    // The accented characters take two bytes each.
    assert_eq!(attrs[0].start_index, 0);
    assert_eq!(attrs[0].end_index, 4);
    assert_eq!(attrs[1].start_index, 4);
    assert_eq!(attrs[1].end_index, 5);
}

#[test]
fn line_numbers_render_in_decimal() {
    assert_eq!(line_number_text(0), "0 ");
    assert_eq!(line_number_text(9), "9 ");
    assert_eq!(line_number_text(10), "10 ");
    assert_eq!(line_number_text(407), "407 ");
}

#[test]
fn context_has_bundled_themes() {
    let context = HighlightContext::new();
    let themes = context.themes();
    assert!(!themes.is_empty());
    assert!(themes.iter().any(|t| t == "InspiredGitHub"));
    assert!(!context.default_theme.is_empty());
}

#[test]
fn set_default_theme_checks_the_name() {
    let mut context = HighlightContext::new();
    assert!(context.set_default_theme("InspiredGitHub").is_ok());
    assert_eq!(context.default_theme, "InspiredGitHub");

    let err = context.set_default_theme("no such theme").unwrap_err();
    assert_eq!(err, "unknown theme: no such theme");
    assert_eq!(context.default_theme, "InspiredGitHub");
}

#[test]
fn unknown_language_is_rejected() {
    let context = HighlightContext::new();
    let err = match SourceCode::new(&context, "not-a-language") {
        Err(e) => e,
        Ok(_) => panic!("expected an error"),
    };
    assert_eq!(err, "unknown language: not-a-language");
}

#[test]
fn unknown_theme_is_rejected() {
    let context = HighlightContext::new();
    let source = SourceCode::new(&context, "rs").unwrap();
    let err = match source.set_theme("no such theme") {
        Err(e) => e,
        Ok(_) => panic!("expected an error"),
    };
    assert_eq!(err, "unknown highlighting theme: no such theme");
}

#[test]
fn highlighting_builds_numbered_lines() {
    let context = HighlightContext::new();
    let code = "fn main() {\n    let x = 1;\n}\n";
    let source = SourceCode::new(&context, "rs").unwrap().set_code(code);
    let block = source.highlight().unwrap();
    assert_eq!(block.lines.len(), 3);
    assert_eq!(block.lines[0].number.text, "0 ");
    assert_eq!(block.lines[1].number.text, "1 ");
    assert_eq!(block.lines[2].number.text, "2 ");
    assert_eq!(block.lines[0].source.text, "fn main() {");
    assert_eq!(block.lines[1].source.text, "    let x = 1;");
    assert_eq!(block.lines[2].source.text, "}");
    assert!(block.max_width.is_none());
    // Wrapped continuations hang by twice the 10-point default font.
    assert_eq!(block.lines[0].indent.as_pt(), -20);
    // The keyword is styled differently from plain text somewhere.
    assert!(block.lines.iter().any(|l| !l.attrs.is_empty()));
}

#[test]
fn too_many_lines_are_rejected() {
    let context = HighlightContext::new();
    let code = "\n".repeat(0x10_0000 + 1);
    let source = SourceCode::new(&context, "rs").unwrap().set_code(&code);
    let err = match source.highlight() {
        Err(e) => e,
        Ok(_) => panic!("expected an error"),
    };
    assert_eq!(err, "too many lines to lay out");
}

#[test]
fn empty_code_highlights_to_no_lines() {
    let context = HighlightContext::new();
    let source = SourceCode::new(&context, "rs").unwrap();
    let block = source.highlight().unwrap();
    assert_eq!(block.lines.len(), 0);
}
