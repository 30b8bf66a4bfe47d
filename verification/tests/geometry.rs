use pagelayout::IntoLength;
use pagelayout::Length;
use pagelayout::Margins;
use pagelayout::Rectangle;
use pagelayout::Vector2;

fn mm(v: i64) -> Length {
    Length::from_mm(v)
}

#[test]
fn unit_round_trips() {
    for v in [-4000i64, -1, 0, 1, 7, 210, 99999] {
        assert_eq!(Length::from_mm(v).as_mm(), v);
        assert_eq!(Length::from_cm(v).as_cm(), v);
        assert_eq!(Length::from_inch(v).as_inch(), v);
        assert_eq!(Length::from_pt(v).as_pt(), v);
        assert_eq!(Length::from_device_units(v).as_device_units(), v);
    }
}

#[test]
fn unit_conversions_are_exact() {
    assert_eq!(Length::from_inch(1).as_pt(), 72);
    assert_eq!(Length::from_pt(72).as_inch(), 1);
    assert_eq!(Length::from_cm(1).as_mm(), 10);
    assert_eq!(Length::from_inch(5).as_mm(), 127);
    assert_eq!(Length::from_pt(1).as_device_units(), 1024);
    assert_eq!(Length::from_mm(1).as_subunits(), 368640);
}

#[test]
fn truncation_rounds_toward_zero() {
    assert_eq!(Length::from_mm(25).as_pt(), 70);
    assert_eq!(Length::from_mm(-25).as_pt(), -70);
    assert_eq!(Length::from_mm(9).as_cm(), 0);
    assert_eq!(Length::from_mm(-9).as_cm(), 0);
}

#[test]
fn length_arithmetic() {
    let a = mm(30);
    let b = mm(12);
    assert_eq!(a.add(b), mm(42));
    assert_eq!(a.sub(b), mm(18));
    assert_eq!(b.neg(), mm(-12));
    assert_eq!(a.min(b), b);
    assert_eq!(a.max(b), a);
    assert!(b.lt(a));
    assert!(b.le(b));
    assert_eq!(a.half(), mm(15));
    assert_eq!(b.scale(3), mm(36));
    assert_eq!(a.div_scalar(3), mm(10));
    assert_eq!(Length::zero().as_mm(), 0);
}

#[test]
fn into_length_suffixes() {
    assert_eq!(10i64.mm(), mm(10));
    assert_eq!(2i64.cm(), mm(20));
    assert_eq!(1i64.inch(), Length::from_pt(72));
    assert_eq!(7i64.pt(), Length::from_pt(7));
}

#[test]
fn vector_arithmetic() {
    let a = Vector2::new(mm(3), mm(4));
    let b = Vector2::new(mm(1), mm(2));
    assert_eq!(a.add(b), Vector2::new(mm(4), mm(6)));
    assert_eq!(a.sub(b), Vector2::new(mm(2), mm(2)));
    assert_eq!(b.neg(), Vector2::new(mm(-1), mm(-2)));
    assert_eq!(Vector2::zero(), Vector2::new(mm(0), mm(0)));
}

#[test]
fn margins_constructors() {
    let m = Margins::tblr(mm(1), mm(2), mm(3), mm(4));
    assert_eq!(m.total_vertical(), mm(3));
    assert_eq!(m.total_horizontal(), mm(7));

    let vh = Margins::vh(mm(5), mm(6));
    assert_eq!(vh.top, mm(5));
    assert_eq!(vh.bottom, mm(5));
    assert_eq!(vh.left, mm(6));
    assert_eq!(vh.right, mm(6));

    let u = Margins::uniform(mm(9));
    assert_eq!(u.total_vertical(), mm(18));
    assert_eq!(u.total_horizontal(), mm(18));
}

#[test]
fn rectangle_basics() {
    let r = Rectangle::from_xywh(mm(10), mm(20), mm(30), mm(40));
    assert_eq!(r.min(), Vector2::new(mm(10), mm(20)));
    assert_eq!(r.max(), Vector2::new(mm(40), mm(60)));
    assert_eq!(r.size(), Vector2::new(mm(30), mm(40)));

    let same = Rectangle::from_pos_size(Vector2::new(mm(10), mm(20)), Vector2::new(mm(30), mm(40)));
    assert_eq!(r, same);
}

#[test]
fn shrink_then_grow_restores_rectangle() {
    let r = Rectangle::from_xywh(mm(10), mm(20), mm(100), mm(200));
    let m = Margins::tblr(mm(1), mm(2), mm(3), mm(4));
    assert_eq!(r.shrink(&m).grow(&m), r);
    assert_eq!(r.grow(&m).shrink(&m), r);
}

#[test]
fn shrink_moves_both_corners() {
    let r = Rectangle::from_min_max(Vector2::new(mm(0), mm(0)), Vector2::new(mm(100), mm(50)));
    let m = Margins::tblr(mm(5), mm(6), mm(7), mm(8));
    let s = r.shrink(&m);
    assert_eq!(s.min(), Vector2::new(mm(7), mm(5)));
    assert_eq!(s.max(), Vector2::new(mm(92), mm(44)));
}
