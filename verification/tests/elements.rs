use pagelayout::AnchorY;
use pagelayout::Drawable;
use pagelayout::DrawableMut;
use pagelayout::Element;
use pagelayout::FontSpec;
use pagelayout::FontStyle;
use pagelayout::FontWeight;
use pagelayout::Image;
use pagelayout::ItemList;
use pagelayout::Length;
use pagelayout::Offset;
use pagelayout::ScaleMode;
use pagelayout::TextAlignment;
use pagelayout::TextBox;
use pagelayout::TextMetrics;
use pagelayout::Vector2;

fn mm(v: i64) -> Length {
    Length::from_mm(v)
}

fn measured(natural_mm: i64, height_mm: i64) -> TextBox {
    TextBox::new().set_metrics(TextMetrics::new(
        Vector2::new(mm(natural_mm), mm(height_mm)),
        mm(height_mm),
        mm(natural_mm),
    ))
}

#[test]
fn text_box_defaults_and_builders() {
    let b = TextBox::new();
    assert_eq!(b.text, "");
    assert_eq!(b.style.alignment, TextAlignment::Left);
    assert!(!b.style.justify);
    assert_eq!(b.style.line_height_permille, 1000);
    assert!(b.max_width.is_none());

    let b = b
        .set_text("hello".to_owned())
        .set_font(FontSpec::bold("sans".to_owned(), Length::from_pt(12)))
        .align_center()
        .set_justify(true)
        .set_line_height(1500);
    assert_eq!(b.text, "hello");
    assert_eq!(b.style.font.family, "sans");
    assert_eq!(b.style.font.weight, FontWeight::Bold);
    assert_eq!(b.style.font.size.as_pt(), 12);
    assert_eq!(b.style.alignment, TextAlignment::Center);
    assert!(b.style.justify);
    assert_eq!(b.style.line_height_permille, 1500);

    let b = b.make_italic().make_thin().set_font_family("serif".to_owned());
    assert_eq!(b.style.font.style, FontStyle::Italic);
    assert_eq!(b.style.font.weight, FontWeight::Thin);
    assert_eq!(b.style.font.family, "serif");
}

#[test]
fn text_box_measurements() {
    let b = measured(30, 4);
    assert_eq!(b.compute_size(), Vector2::new(mm(30), mm(4)));
    assert_eq!(b.compute_width(), mm(30));
    assert_eq!(b.compute_height(), mm(4));
    assert_eq!(b.compute_baseline(), Some(mm(4)));
    assert_eq!(b.compute_natural_width(), mm(30));
    assert_eq!(b.min_width(), mm(0));

    let b = b.set_max_width(Some(mm(20)));
    assert_eq!(b.max_width, Some(mm(20)));
    // The stored measurement stays until the backend measures again.
    assert_eq!(b.compute_width(), mm(30));
}

#[test]
fn line_spacing_from_style() {
    let style = pagelayout::TextStyle {
        font: FontSpec::plain("serif".to_owned(), Length::from_pt(10)),
        alignment: TextAlignment::Left,
        justify: false,
        line_height_permille: 1500,
    };
    assert_eq!(style.line_spacing(), Length::from_pt(5));
}

#[test]
fn image_scaling() {
    let img = Image::new(200, 100);
    // Unconstrained: one point per pixel.
    assert_eq!(img.compute_size(), Vector2::new(Length::from_pt(200), Length::from_pt(100)));
    assert_eq!(img.compute_natural_width(), Length::from_pt(200));
    assert_eq!(img.compute_baseline(), None);

    // A width alone scales the height by the aspect ratio.
    let by_width = img.set_width(Some(Length::from_pt(50)));
    assert_eq!(by_width.compute_size(), Vector2::new(Length::from_pt(50), Length::from_pt(25)));

    // A height alone scales the width.
    let by_height = Image::new(200, 100).set_height(Some(Length::from_pt(10)));
    assert_eq!(by_height.compute_size(), Vector2::new(Length::from_pt(20), Length::from_pt(10)));

    // Stretch fills the box exactly.
    let stretched = Image::new(200, 100)
        .set_width(Some(Length::from_pt(30)))
        .set_height(Some(Length::from_pt(40)))
        .stretch();
    assert_eq!(stretched.compute_size(), Vector2::new(Length::from_pt(30), Length::from_pt(40)));

    // Fit keeps the aspect ratio inside the box.
    let fitted = stretched.fit();
    assert_eq!(fitted.scale_mode, ScaleMode::Fit);
    assert_eq!(fitted.compute_size(), Vector2::new(Length::from_pt(30), Length::from_pt(15)));
}

#[test]
fn item_list_natural_width() {
    // Two items of natural widths 30mm and 50mm, no constraint: the
    // natural width is the widest item plus the bullet column and its
    // spacing.
    let bullet = measured(2, 4);
    let list = ItemList::new(bullet)
        .add_item(Element::Text(measured(30, 10)))
        .add_item(Element::Text(measured(50, 12)));
    assert_eq!(list.compute_natural_width(), mm(50 + 2 + 2));
    assert_eq!(list.min_width(), mm(0 + 2 + 2));
    assert_eq!(list.compute_size(), Vector2::new(mm(50 + 4), mm(22)));
    assert_eq!(list.compute_baseline(), Some(mm(10)));
}

#[test]
fn empty_item_list_is_zero() {
    let list = ItemList::new(measured(2, 4));
    assert!(list.is_empty());
    assert_eq!(list.compute_natural_width(), mm(0));
    assert_eq!(list.min_width(), mm(0));
    assert_eq!(list.compute_size(), Vector2::zero());
    assert_eq!(list.compute_baseline(), None);
}

#[test]
fn item_list_forwards_max_width() {
    let bullet = measured(2, 4);
    let mut list = ItemList::new(bullet)
        .add_item(Element::Text(measured(30, 10)))
        .add_item(Element::Text(measured(50, 12)));
    list.set_max_width(Some(mm(40)));
    assert_eq!(list.max_width, Some(mm(40)));
    for item in list.items().iter() {
        match item {
            Element::Text(t) => assert_eq!(t.max_width, Some(mm(40 - 2 - 2))),
            _ => panic!("expected a text item"),
        }
    }
}

#[test]
fn item_list_placements_stack_vertically() {
    let bullet = measured(2, 4);
    let list = ItemList::new(bullet)
        .add_item(Element::Text(measured(30, 10)))
        .add_item(Element::Text(measured(50, 12)));
    let placements = list.placements(Vector2::new(mm(7), mm(11)));
    assert_eq!(placements.len(), 2);
    assert_eq!(placements[0].bullet_position, Vector2::new(mm(7), mm(11)));
    assert_eq!(placements[0].item_position, Vector2::new(mm(11), mm(11)));
    assert_eq!(placements[1].bullet_position, Vector2::new(mm(7), mm(21)));
    assert_eq!(placements[1].item_position, Vector2::new(mm(11), mm(21)));
}

#[test]
fn clear_resets_the_list() {
    let mut list = ItemList::new(measured(2, 4)).add_item(Element::Text(measured(30, 10)));
    list.clear();
    assert!(list.is_empty());
    assert_eq!(list.compute_natural_width(), mm(0));
}

#[test]
fn offset_anchor_center_bottom() {
    // A child of size (w, h) drawn at P with anchor (Center, Bottom)
    // has its top-left corner at P - (w/2, h).
    let child = measured(10, 4);
    let wrapped = Offset::new(child, Vector2::zero()).anchor_center_x().anchor_bottom();
    let p = Vector2::new(mm(100), mm(50));
    assert_eq!(wrapped.child_position(p), Vector2::new(mm(95), mm(46)));
}

#[test]
fn offset_top_left_adds_only_the_offset() {
    let child = measured(10, 4);
    let wrapped = Offset::new(child, Vector2::new(mm(3), mm(7)));
    let p = Vector2::new(mm(100), mm(50));
    assert_eq!(wrapped.child_position(p), Vector2::new(mm(103), mm(57)));
}

#[test]
fn offset_baseline_anchor() {
    let child = measured(10, 4);
    let wrapped = Offset::new(child, Vector2::zero()).anchor_baseline();
    let p = Vector2::new(mm(0), mm(10));
    // The baseline of the measured text is its height here.
    assert_eq!(wrapped.child_position(p), Vector2::new(mm(0), mm(6)));
}

#[test]
fn offset_delegates_measurements() {
    let child = measured(10, 4);
    let wrapped = Offset::new(child, Vector2::new(mm(1), mm(2)));
    assert_eq!(wrapped.compute_size(), Vector2::new(mm(10), mm(4)));
    assert_eq!(wrapped.compute_natural_width(), mm(10));
    assert_eq!(wrapped.compute_baseline(), Some(mm(4)));
    let inner = wrapped.into_inner();
    assert_eq!(inner.compute_width(), mm(10));
}

#[test]
fn add_item_forwards_the_constraint_unreduced() {
    // Adding hands the list's constraint on as it stands; only setting
    // the constraint on the list reserves the bullet column first.
    let mut list = ItemList::new(measured(2, 4));
    list.set_max_width(Some(mm(40)));
    let list = list.add_item(Element::Text(measured(30, 10)));
    match &list.items()[0] {
        Element::Text(t) => assert_eq!(t.max_width, Some(mm(40))),
        _ => panic!("expected a text item"),
    }
}

#[test]
fn bullet_glyph_box() {
    let bullet = pagelayout::bullet_text_box(FontSpec::plain("serif".to_owned(), Length::from_pt(9)));
    assert_eq!(bullet.text, "\u{2022}");
    assert_eq!(bullet.style.font.family, "serif");
    assert_eq!(bullet.style.font.size.as_pt(), 9);
    // Not measured yet: the backend fills the metrics in.
    assert_eq!(bullet.compute_width(), mm(0));
}

#[test]
fn item_list_forwards_to_images_too() {
    let mut list = ItemList::new(measured(2, 4)).add_item(Element::Image(Image::new(100, 50)));
    list.set_max_width(Some(mm(40)));
    match &list.items()[0] {
        Element::Image(i) => assert_eq!(i.width, Some(mm(36))),
        _ => panic!("expected an image item"),
    }
}

#[test]
fn drawable_offset_wraps_with_top_left_anchor() {
    let wrapped = measured(10, 4).offset(Vector2::new(mm(2), mm(3)));
    let p = Vector2::new(mm(1), mm(1));
    assert_eq!(wrapped.child_position(p), Vector2::new(mm(3), mm(4)));
}

#[test]
fn offset_accumulates_offsets() {
    let wrapped = Offset::new(measured(10, 4), Vector2::new(mm(1), mm(2)))
        .add_offset(Vector2::new(mm(3), mm(4)))
        .sub_offset(Vector2::new(mm(1), mm(1)));
    assert_eq!(wrapped.offset, Vector2::new(mm(3), mm(5)));
    assert_eq!(wrapped.anchor_y, AnchorY::Top);
}
