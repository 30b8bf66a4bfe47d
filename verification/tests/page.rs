use pagelayout::Length;
use pagelayout::Margins;
use pagelayout::Page;
use pagelayout::Vector2;
use pagelayout::a4;

fn mm(v: i64) -> Length {
    Length::from_mm(v)
}

#[test]
fn a4_dimensions() {
    let size = a4();
    assert_eq!(size.x.as_mm(), 210);
    assert_eq!(size.y.as_mm(), 297);
}

#[test]
fn page_defaults() {
    let page = Page::new();
    assert_eq!(page.size(), a4());
    assert_eq!(page.margins.top.as_mm(), 30);
    assert_eq!(page.margins.bottom.as_mm(), 30);
    assert_eq!(page.margins.left.as_mm(), 20);
    assert_eq!(page.margins.right.as_mm(), 20);
}

#[test]
fn text_area_shrinks_by_margins() {
    let page = Page::new();
    assert_eq!(page.text_width().as_mm(), 210 - 40);
    assert_eq!(page.text_height().as_mm(), 297 - 60);

    let area = page.text_area();
    assert_eq!(area.min(), Vector2::new(mm(20), mm(30)));
    assert_eq!(area.max(), Vector2::new(mm(190), mm(267)));
}

#[test]
fn margin_setters() {
    let page = Page::new()
        .set_top_margin(mm(1))
        .set_bottom_margin(mm(2))
        .set_left_margin(mm(3))
        .set_right_margin(mm(4));
    assert_eq!(page.margins, Margins::tblr(mm(1), mm(2), mm(3), mm(4)));

    let page = page.set_vertical_margins(mm(5)).set_horizontal_margins(mm(6));
    assert_eq!(page.margins, Margins::vh(mm(5), mm(6)));

    let page = page.set_margins(Margins::uniform(mm(7)));
    assert_eq!(page.margins, Margins::uniform(mm(7)));
}

#[test]
fn page_resizing() {
    let page = Page::new().set_size(Vector2::new(mm(100), mm(100)));
    assert_eq!(page.size().x.as_mm(), 100);
    let page = page.set_size_a4();
    assert_eq!(page.size(), a4());
}
