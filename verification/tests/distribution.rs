use pagelayout::ColumnSpec;
use pagelayout::Length;
use pagelayout::divide_width;

fn mm(v: i64) -> Length {
    Length::from_mm(v)
}

fn columns(grows: &[bool]) -> Vec<ColumnSpec> {
    grows.iter().map(|&grow| ColumnSpec { grow, max_width: None }).collect()
}

fn widths_mm(widths: &[Length]) -> Vec<i64> {
    widths.iter().map(|w| w.as_mm()).collect()
}

#[test]
fn surplus_all_columns_grow() {
    let cols = columns(&[true, true, true]);
    let naturals = vec![mm(10), mm(10), mm(10)];
    let widths = divide_width(&cols, &naturals, mm(36));
    assert_eq!(widths_mm(&widths), vec![12, 12, 12]);
}

#[test]
fn surplus_one_column_grows() {
    let cols = columns(&[false, true, false]);
    let naturals = vec![mm(10), mm(10), mm(10)];
    let widths = divide_width(&cols, &naturals, mm(36));
    assert_eq!(widths_mm(&widths), vec![10, 16, 10]);
}

#[test]
fn surplus_no_column_grows() {
    // The leftover width stays unused: the table may end up narrower
    // than the available width.
    let cols = columns(&[false, false, false]);
    let naturals = vec![mm(10), mm(10), mm(10)];
    let widths = divide_width(&cols, &naturals, mm(36));
    assert_eq!(widths_mm(&widths), vec![10, 10, 10]);
}

#[test]
fn deficit_redistributes_proportionally() {
    // Natural widths 5/20/5 against 18 available: the fair share is 6,
    // the outer columns keep their natural 5 and donate their slack of 1
    // each, the middle column is over budget and receives the whole pool
    // of 1 + 1 + 6 in proportion to its natural width: 8 * 20 / 20 = 8.
    let cols = columns(&[false, false, false]);
    let naturals = vec![mm(5), mm(20), mm(5)];
    let widths = divide_width(&cols, &naturals, mm(18));
    assert_eq!(widths_mm(&widths), vec![5, 8, 5]);
}

#[test]
fn deficit_two_columns_share_pool() {
    // Natural widths 2/6/12 against 12 available: fair share 4; the
    // first column keeps 2 and donates 2; the others contribute 4 each
    // to the pool of 10 and split it 6:12 -> floor(10*6/18) = 3 and
    // floor(10*12/18) = 6.
    let cols = columns(&[false, false, false]);
    let naturals = vec![mm(2), mm(6), mm(12)];
    let widths = divide_width(&cols, &naturals, mm(12));
    assert_eq!(widths_mm(&widths), vec![2, 3, 6]);
}

#[test]
fn tiny_total_is_clamped_to_one_millimeter() {
    // A total natural width below one millimeter is treated as one
    // millimeter before comparing against the available width.
    let cols = columns(&[true, true]);
    let naturals = vec![Length::zero(), Length::zero()];
    let widths = divide_width(&cols, &naturals, mm(5));
    // excess = 5mm - 1mm = 4mm, divided over both growing columns.
    assert_eq!(widths_mm(&widths), vec![2, 2]);
}

#[test]
fn single_column_deficit() {
    let cols = columns(&[false]);
    let naturals = vec![mm(50)];
    let widths = divide_width(&cols, &naturals, mm(20));
    // fair = 20; the only column is over budget, pool = 20, and it gets
    // 20 * 50 / 50 = 20.
    assert_eq!(widths_mm(&widths), vec![20]);
}
