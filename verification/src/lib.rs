//! A document-layout library: unit-safe geometry, a box model for layout
//! elements, and the column-width distribution algorithm used by tables.
//!
//! All distances are held in an exact integer subunit (see [`Length`]), so
//! every conversion and every layout computation is exact arithmetic.  The
//! text-shaping and drawing backend stays outside: elements carry the
//! extents it measured for them, and drawing computations return the
//! placements it is to paint.

mod drawable;
mod element;
mod highlight;
mod image;
mod item_list;
mod length;
mod margins;
mod offset;
mod page;
mod rectangle;
mod source_code;
mod style;
mod table;
mod text_box;
mod vector2;

pub use drawable::Drawable;
pub use drawable::DrawableMut;
pub use drawable::MAX_CHILDREN;
pub use element::Element;
pub use highlight::HighlightContext;
pub use highlight::SourceCode;
pub use highlight::all_run_views;
pub use highlight::has_syntax_for;
pub use highlight::highlighted_runs;
pub use highlight::lines_of;
pub use highlight::spec_strip_newline;
pub use highlight::str_views;
pub use highlight::syntax_in_set;
pub use highlight::theme_color_settings;
pub use highlight::theme_names_of;
pub use image::Image;
pub use image::ScaleMode;
pub use item_list::ItemList;
pub use item_list::ItemPlacement;
pub use item_list::bullet_text_box;
pub use item_list::max_natural_width;
pub use item_list::sum_heights;
pub use length::IntoLength;
pub use length::Length;
pub use length::MAX_METRIC;
pub use length::lemma_unit_round_trip;
pub use margins::Margins;
pub use margins::MarginsView;
pub use offset::AnchorX;
pub use offset::AnchorY;
pub use offset::Offset;
pub use offset::lemma_anchor_center_bottom;
pub use page::Page;
pub use page::a4;
pub use rectangle::Rectangle;
pub use rectangle::RectangleView;
pub use rectangle::lemma_shrink_grow_inverse;
pub use source_code::HighlightedSourceCode;
pub use source_code::LinePlacement;
pub use source_code::SourceCodeSizeInfo;
pub use source_code::SourceLine;
pub use source_code::SpanAttr;
pub use source_code::SpanKind;
pub use source_code::StyleInfo;
pub use source_code::highlights_to_attrs;
pub use source_code::line_number_text;
pub use source_code::refonted;
pub use source_code::run_views;
pub use source_code::total_run_bytes;
pub use style::Color;
pub use style::FontSpec;
pub use style::FontStyle;
pub use style::FontWeight;
pub use style::TextAlignment;
pub use style::TextStyle;
pub use table::BorderLine;
pub use table::ColumnBound;
pub use table::ColumnSpec;
pub use table::Table;
pub use table::TableCell;
pub use table::TableLayout;
pub use table::cell_natural;
pub use table::cell_pad;
pub use table::divide_width;
pub use table::lemma_deficit_keeps_fitting;
pub use table::lemma_surplus_distribution;
pub use table::spec_column_widths;
pub use table::spec_divide_width;
pub use table::spec_row_height;
pub use table::spec_rows;
pub use text_box::TextBox;
pub use text_box::TextMetrics;
pub use vector2::Vector2;
pub use vector2::Vector2View;
