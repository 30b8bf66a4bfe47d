use pagelayout::ColumnBound;
use pagelayout::Length;
use pagelayout::Margins;
use pagelayout::Table;
use pagelayout::TextAlignment;
use pagelayout::TextBox;
use pagelayout::TextMetrics;
use pagelayout::Vector2;

fn mm(v: i64) -> Length {
    Length::from_mm(v)
}

fn text(natural_mm: i64, height_mm: i64) -> TextBox {
    TextBox::new().set_metrics(TextMetrics::new(
        Vector2::new(mm(natural_mm), mm(height_mm)),
        mm(height_mm),
        mm(natural_mm),
    ))
}

fn no_padding_table() -> Table {
    Table::new().set_cell_padding(Margins::uniform(Length::zero()))
}

#[test]
fn empty_table_layout_is_empty() {
    let layout = Table::new().layout();
    assert_eq!(layout.column_widths.len(), 0);
    assert_eq!(layout.row_heights.len(), 0);
    let size = layout.compute_size();
    assert_eq!(size.x.as_mm(), 0);
    assert_eq!(size.y.as_mm(), 0);
}

#[test]
fn columns_without_cells_still_empty() {
    let layout = Table::new().add_column(true, None).add_column(false, None).layout();
    assert_eq!(layout.column_widths.len(), 0);
    assert_eq!(layout.row_heights.len(), 0);
    assert_eq!(layout.compute_width().as_mm(), 0);
    assert_eq!(layout.compute_height().as_mm(), 0);
}

#[test]
fn natural_widths_without_budget() {
    let layout = no_padding_table()
        .add_column(false, None)
        .add_column(false, None)
        .add_cell(text(10, 5), TextAlignment::Left, None)
        .add_cell(text(30, 5), TextAlignment::Left, None)
        .add_cell(text(20, 7), TextAlignment::Left, None)
        .add_cell(text(15, 4), TextAlignment::Left, None)
        .layout();
    let widths: Vec<i64> = layout.column_widths.iter().map(|w| w.as_mm()).collect();
    assert_eq!(widths, vec![20, 30]);
    let heights: Vec<i64> = layout.row_heights.iter().map(|h| h.as_mm()).collect();
    assert_eq!(heights, vec![5, 7]);
    assert_eq!(layout.compute_width().as_mm(), 50);
    assert_eq!(layout.compute_height().as_mm(), 12);
}

#[test]
fn surplus_budget_grows_all_columns() {
    let layout = no_padding_table()
        .set_max_width(Some(mm(36)))
        .add_column(true, None)
        .add_column(true, None)
        .add_column(true, None)
        .add_cell(text(10, 5), TextAlignment::Left, None)
        .add_cell(text(10, 5), TextAlignment::Left, None)
        .add_cell(text(10, 5), TextAlignment::Left, None)
        .layout();
    let widths: Vec<i64> = layout.column_widths.iter().map(|w| w.as_mm()).collect();
    assert_eq!(widths, vec![12, 12, 12]);
}

#[test]
fn budget_constrains_cells_to_content_width() {
    let layout = no_padding_table()
        .set_max_width(Some(mm(36)))
        .add_column(false, None)
        .add_column(true, None)
        .add_column(false, None)
        .add_cell(text(10, 5), TextAlignment::Left, None)
        .add_cell(text(10, 5), TextAlignment::Left, None)
        .add_cell(text(10, 5), TextAlignment::Left, None)
        .layout();
    let widths: Vec<i64> = layout.column_widths.iter().map(|w| w.as_mm()).collect();
    assert_eq!(widths, vec![10, 16, 10]);
    // With no padding, each cell's new constraint equals its column width.
    let constraints: Vec<i64> = layout
        .table
        .cells
        .iter()
        .map(|c| c.text.max_width.unwrap().as_mm())
        .collect();
    assert_eq!(constraints, vec![10, 16, 10]);
}

#[test]
fn padding_enters_natural_width_and_heights() {
    let layout = Table::new()
        .set_cell_padding(Margins::vh(mm(1), mm(2)))
        .add_column(false, None)
        .add_cell(text(10, 5), TextAlignment::Left, None)
        .layout();
    // Natural column width is the text plus 2mm padding on both sides;
    // the row height is the text plus 1mm above and below.
    assert_eq!(layout.compute_width().as_mm(), 14);
    assert_eq!(layout.compute_height().as_mm(), 7);
}

#[test]
fn cell_padding_override_wins() {
    let layout = Table::new()
        .set_cell_padding(Margins::uniform(mm(5)))
        .add_column(false, None)
        .add_cell(text(10, 5), TextAlignment::Left, Some(Margins::uniform(mm(1))))
        .layout();
    assert_eq!(layout.compute_width().as_mm(), 12);
    assert_eq!(layout.compute_height().as_mm(), 7);
}

#[test]
fn ragged_last_row_gets_a_height() {
    let table = no_padding_table()
        .add_column(false, None)
        .add_column(false, None)
        .add_cell(text(10, 5), TextAlignment::Left, None)
        .add_cell(text(10, 6), TextAlignment::Left, None)
        .add_cell(text(10, 9), TextAlignment::Left, None);
    assert_eq!(table.rows(), 2);
    let layout = table.layout();
    let heights: Vec<i64> = layout.row_heights.iter().map(|h| h.as_mm()).collect();
    assert_eq!(heights, vec![6, 9]);
}

#[test]
fn baseline_of_rows() {
    let layout = no_padding_table()
        .add_column(false, None)
        .add_cell(
            TextBox::new().set_metrics(TextMetrics::new(
                Vector2::new(mm(10), mm(5)),
                mm(4),
                mm(10),
            )),
            TextAlignment::Left,
            None,
        )
        .add_cell(
            TextBox::new().set_metrics(TextMetrics::new(
                Vector2::new(mm(10), mm(7)),
                mm(6),
                mm(10),
            )),
            TextAlignment::Left,
            None,
        )
        .layout();
    assert_eq!(layout.comput_baseline(0).as_mm(), 4);
    assert_eq!(layout.comput_baseline(1).as_mm(), 11);
}

#[test]
fn horizontal_border_positions() {
    let layout = no_padding_table()
        .add_column(false, None)
        .add_column(false, None)
        .add_column(false, None)
        .add_cell(text(10, 5), TextAlignment::Left, None)
        .add_cell(text(20, 5), TextAlignment::Left, None)
        .add_cell(text(30, 5), TextAlignment::Left, None)
        .layout();

    let all = layout.horizontal_border(0, ColumnBound::Unbounded, ColumnBound::Unbounded);
    assert_eq!(all.x1.as_mm(), 0);
    assert_eq!(all.x2.as_mm(), 60);
    assert_eq!(all.y.as_mm(), 0);

    let bottom = layout.horizontal_border(1, ColumnBound::Unbounded, ColumnBound::Unbounded);
    assert_eq!(bottom.y.as_mm(), 5);

    let middle = layout.horizontal_border(0, ColumnBound::Included(1), ColumnBound::Included(1));
    assert_eq!(middle.x1.as_mm(), 10);
    assert_eq!(middle.x2.as_mm(), 30);

    let tail = layout.horizontal_border(0, ColumnBound::Excluded(0), ColumnBound::Unbounded);
    assert_eq!(tail.x1.as_mm(), 10);
    assert_eq!(tail.x2.as_mm(), 60);
}

#[test]
fn cell_placements_follow_alignment() {
    let layout = no_padding_table()
        .set_max_width(Some(mm(60)))
        .add_column(true, None)
        .add_cell(text(10, 5), TextAlignment::Left, None)
        .add_cell(text(10, 5), TextAlignment::Center, None)
        .add_cell(text(10, 5), TextAlignment::Right, None)
        .layout();
    // One growing column of width 60; the cell text is 10 wide.
    let placements = layout.cell_placements(Vector2::new(mm(100), mm(200)));
    assert_eq!(placements.len(), 3);
    assert_eq!(placements[0].x.as_mm(), 100);
    assert_eq!(placements[0].y.as_mm(), 200);
    assert_eq!(placements[1].x.as_mm(), 100 + 30 - 5);
    assert_eq!(placements[1].y.as_mm(), 205);
    assert_eq!(placements[2].x.as_mm(), 100 + 60 - 10);
    assert_eq!(placements[2].y.as_mm(), 210);
}

#[test]
fn remeasured_cells_update_row_heights() {
    // Constraining the table forces the cells to re-wrap; the backend
    // reports the wrapped extents, and the row heights follow.
    let mut layout = no_padding_table()
        .set_max_width(Some(mm(10)))
        .add_column(false, None)
        .add_cell(text(20, 5), TextAlignment::Left, None)
        .add_cell(text(8, 5), TextAlignment::Left, None)
        .layout();
    let heights: Vec<i64> = layout.row_heights.iter().map(|h| h.as_mm()).collect();
    assert_eq!(heights, vec![5, 5]);

    // The first cell wrapped onto two lines when squeezed to 10mm.
    layout.set_cell_metrics(
        0,
        TextMetrics::new(Vector2::new(mm(10), mm(10)), mm(4), mm(20)),
    );
    let heights: Vec<i64> = layout.row_heights.iter().map(|h| h.as_mm()).collect();
    assert_eq!(heights, vec![10, 5]);
    // The fixed column widths stay.
    assert_eq!(layout.column_widths[0].as_mm(), 10);
    assert_eq!(layout.table.cells[0].text.metrics.size.y.as_mm(), 10);
}

#[test]
fn into_table_returns_the_table() {
    let layout = no_padding_table()
        .add_column(false, None)
        .add_cell(text(10, 5), TextAlignment::Left, None)
        .layout();
    let table = layout.into_table();
    assert_eq!(table.cells.len(), 1);
    assert_eq!(table.columns.len(), 1);
}
