use pagelayout::Color;
use pagelayout::Drawable;
use pagelayout::DrawableMut;
use pagelayout::HighlightedSourceCode;
use pagelayout::Length;
use pagelayout::SourceLine;
use pagelayout::TextBox;
use pagelayout::TextMetrics;
use pagelayout::Vector2;

fn mm(v: i64) -> Length {
    Length::from_mm(v)
}

fn measured(width_mm: i64, height_mm: i64) -> TextBox {
    TextBox::new().set_metrics(TextMetrics::new(
        Vector2::new(mm(width_mm), mm(height_mm)),
        mm(height_mm),
        mm(width_mm),
    ))
}

fn line(number_w: i64, source_w: i64, height: i64) -> SourceLine {
    SourceLine {
        number: measured(number_w, height),
        source: measured(source_w, height),
        attrs: Vec::new(),
        indent: mm(0),
    }
}

fn block() -> HighlightedSourceCode {
    HighlightedSourceCode::new(
        vec![line(4, 40, 5), line(5, 60, 6)],
        Some(Color { red: 1, green: 1, blue: 1, alpha: 255 }),
        None,
        Some(Color { red: 2, green: 2, blue: 2, alpha: 255 }),
        None,
    )
}

#[test]
fn block_size_folds_over_lines() {
    let b = block();
    // Gutter: widest line number; source: widest line; height: stacked.
    assert_eq!(b.compute_size(), Vector2::new(mm(5 + 60), mm(11)));
    assert_eq!(b.compute_natural_width(), mm(5 + 60));
    // The minimum width is the gutter plus one centimeter of source.
    assert_eq!(b.min_width(), mm(5 + 10));
    assert_eq!(b.compute_baseline(), Some(mm(5)));
}

#[test]
fn empty_block_measures_one_centimeter_of_source() {
    let b = HighlightedSourceCode::new(Vec::new(), None, None, None, None);
    // The source column never reports less than a centimeter.
    assert_eq!(b.compute_size(), Vector2::new(mm(10), mm(0)));
    assert_eq!(b.min_width(), mm(0));
    assert_eq!(b.compute_baseline(), None);
}

#[test]
fn block_forwards_width_minus_gutter() {
    let mut b = block();
    b.set_max_width(Some(mm(50)));
    assert_eq!(b.max_width, Some(mm(50)));
    for l in b.lines.iter() {
        assert_eq!(l.source.max_width, Some(mm(50 - 5)));
    }
}

#[test]
fn fresh_line_metrics_update_the_size() {
    let mut b = block();
    b.set_line_metrics(
        1,
        TextMetrics::new(Vector2::new(mm(5), mm(6)), mm(5), mm(5)),
        TextMetrics::new(Vector2::new(mm(30), mm(12)), mm(5), mm(60)),
    );
    // The second line got taller and narrower after rewrapping.
    assert_eq!(b.compute_size(), Vector2::new(mm(5 + 40), mm(17)));
}

#[test]
fn line_placements_right_align_the_gutter() {
    let b = block();
    let placements = b.line_placements(Vector2::new(mm(100), mm(10)));
    assert_eq!(placements.len(), 2);
    // Gutter text is right-aligned against the 5mm gutter column.
    assert_eq!(placements[0].number_position, Vector2::new(mm(101), mm(10)));
    assert_eq!(placements[0].source_position, Vector2::new(mm(105), mm(10)));
    assert_eq!(placements[1].number_position, Vector2::new(mm(100), mm(15)));
    assert_eq!(placements[1].source_position, Vector2::new(mm(105), mm(15)));
}

#[test]
fn set_font_restyles_every_line() {
    let mut b = block();
    b.set_font(pagelayout::FontSpec::bold("mono".to_owned(), Length::from_pt(11)));
    for l in b.lines.iter() {
        assert_eq!(l.number.style.font.family, "mono");
        assert_eq!(l.source.style.font.family, "mono");
        assert_eq!(l.source.style.font.size.as_pt(), 11);
    }
    // Measurements stay until the backend measures the restyled lines.
    assert_eq!(b.compute_size(), Vector2::new(mm(5 + 60), mm(11)));
}

#[test]
fn code_block_as_list_item() {
    // A source block stands in a bulleted list like any other element:
    // its natural width enters the list's running maximum, and the
    // list's constraint is forwarded to the block.
    let bullet = measured(2, 4);
    let mut list = pagelayout::ItemList::new(bullet)
        .add_item(pagelayout::Element::Code(block()));
    assert_eq!(list.compute_natural_width(), mm(65 + 2 + 2));
    assert_eq!(list.compute_size(), Vector2::new(mm(65 + 4), mm(11)));

    pagelayout::DrawableMut::set_max_width(&mut list, Some(mm(50)));
    match &list.items()[0] {
        pagelayout::Element::Code(c) => {
            assert_eq!(c.max_width, Some(mm(50 - 2 - 2)));
            // The block reserves its gutter before forwarding in turn.
            assert_eq!(c.lines[0].source.max_width, Some(mm(50 - 4 - 5)));
        },
        _ => panic!("expected a code item"),
    }
}

#[test]
fn background_rectangles() {
    let b = block();
    let origin = Vector2::new(mm(0), mm(0));

    let gutter = b.gutter_background_rect(origin).unwrap();
    assert_eq!(gutter.min(), Vector2::new(mm(0), mm(0)));
    assert_eq!(gutter.max(), Vector2::new(mm(5), mm(11)));

    let source = b.source_background_rect(origin).unwrap();
    // Widened by one point to the left so it meets the gutter.
    assert_eq!(source.min().x, mm(5).sub(Length::from_pt(1)));
    assert_eq!(source.max(), Vector2::new(mm(5 + 60), mm(11)));

    let bare = HighlightedSourceCode::new(Vec::new(), None, None, None, None);
    assert!(bare.gutter_background_rect(origin).is_none());
    assert!(bare.source_background_rect(origin).is_none());
}
