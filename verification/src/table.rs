//! The table layout engine: column-width distribution and grid placement.
//!
//! A table holds per-column specifications and a row-major sequence of
//! cells.  Laying it out fixes the column widths — distributing the
//! available width over the columns' natural demands — and the row
//! heights, producing an immutable [`TableLayout`].

use vstd::prelude::*;

use crate::drawable::Drawable;
use crate::drawable::DrawableMut;
use crate::drawable::MAX_CHILDREN;
use crate::length::Length;
use crate::length::MAX_METRIC;
use crate::length::SUB_PER_MM;
use crate::length::SUB_PER_PT;
use crate::length::div_trunc;
use crate::length::len_views;
use crate::length::metric_in_range;
use crate::length::opt_len_view;
use crate::margins::Margins;
use crate::style::TextAlignment;
use crate::text_box::TextBox;
use crate::text_box::TextMetrics;
use crate::vector2::Vector2;
use crate::vector2::Vector2View;

verus! {

/// The per-column configuration: whether the column absorbs leftover
/// width, and an optional hard width cap.
#[derive(Debug, Clone)]
pub struct ColumnSpec {
    pub grow: bool,
    pub max_width: Option<Length>,
}

/// The sum of a sequence of integers.
pub open spec fn sum_ints(s: Seq<int>) -> int
    decreases s.len(),
{
    if s.len() == 0 {
        0
    } else {
        sum_ints(s.drop_last()) + s.last()
    }
}

/// How many of the columns are flagged to grow.
pub open spec fn count_growers(columns: Seq<ColumnSpec>) -> int
    decreases columns.len(),
{
    if columns.len() == 0 {
        0
    } else {
        count_growers(columns.drop_last()) + if columns.last().grow {
            1int
        } else {
            0int
        }
    }
}

/// The pool of width that can be divided over the over-budget columns:
/// each column within the fair share contributes its slack, each column
/// over it contributes the fair share itself.
pub open spec fn dividable_of(naturals: Seq<int>, fair: int) -> int
    decreases naturals.len(),
{
    if naturals.len() == 0 {
        0
    } else {
        dividable_of(naturals.drop_last(), fair) + if naturals.last() <= fair {
            fair - naturals.last()
        } else {
            fair
        }
    }
}

/// The total natural width of the over-budget columns.
pub open spec fn shrunk_of(naturals: Seq<int>, fair: int) -> int
    decreases naturals.len(),
{
    if naturals.len() == 0 {
        0
    } else {
        shrunk_of(naturals.drop_last(), fair) + if naturals.last() > fair {
            naturals.last()
        } else {
            0int
        }
    }
}

/// How an available width is distributed over columns with the given
/// natural widths.
///
/// With room to spare, every column keeps its natural width and the
/// leftover is divided evenly over the growing columns alone.  With a
/// deficit, each column whose natural width fits within the fair share
/// (the available width split evenly) keeps its natural width; the pool
/// formed by the remaining columns' fair shares and the fitting columns'
/// slack is divided over the over-budget columns in proportion to their
/// natural widths.  The total natural width is clamped to at least one
/// millimeter before the comparison.
///
/// Note that the resulting widths need not add up to the available
/// width exactly: in the surplus case nothing grows unless a column is
/// flagged to, and in the deficit case the proportional shares truncate.
/// This is long-standing behavior that callers rely on, not a defect.
pub open spec fn spec_divide_width(
    columns: Seq<ColumnSpec>,
    naturals: Seq<int>,
    available: int,
) -> Seq<int> {
    let count = naturals.len() as int;
    let total_raw = sum_ints(naturals);
    let total = if total_raw >= SUB_PER_MM {
        total_raw
    } else {
        SUB_PER_MM as int
    };
    let fair = available / count;
    if total <= available {
        let excess = available - total;
        let growers = count_growers(columns);
        let spacing = if growers > 0 {
            excess / growers
        } else {
            0
        };
        Seq::new(naturals.len(), |j: int| if columns[j].grow {
            naturals[j] + spacing
        } else {
            naturals[j]
        })
    } else {
        let dividable = dividable_of(naturals, fair);
        let shrunk = shrunk_of(naturals, fair);
        Seq::new(naturals.len(), |j: int| if naturals[j] <= fair {
            naturals[j]
        } else {
            dividable * naturals[j] / shrunk
        })
    }
}

/// A column natural width never exceeds three metric bounds: the widest
/// cell plus a horizontal padding on either side.
pub open spec fn natural_in_range(v: int) -> bool {
    0 <= v <= 3 * MAX_METRIC
}

/// Folds over a prefix stay bounded by the prefix length times the
/// per-column bounds, and the deficit pool never exceeds the fair share
/// times the column count.
proof fn lemma_division_folds(naturals: Seq<int>, fair: int)
    requires
        fair >= 0,
        forall|j: int| 0 <= j < naturals.len() ==> natural_in_range(#[trigger] naturals[j]),
    ensures
        0 <= dividable_of(naturals, fair) <= naturals.len() * fair,
        0 <= shrunk_of(naturals, fair) <= naturals.len() * (3 * MAX_METRIC),
        sum_ints(naturals) >= 0,
        forall|j: int| 0 <= j < naturals.len() && naturals[j] > fair ==> shrunk_of(
            naturals,
            fair,
        ) >= #[trigger] naturals[j],
    decreases naturals.len(),
{
    if naturals.len() > 0 {
        let rest = naturals.drop_last();
        assert(forall|j: int| 0 <= j < rest.len() ==> natural_in_range(#[trigger] rest[j]));
        lemma_division_folds(rest, fair);
        assert((naturals.len() - 1) * fair + fair == naturals.len() * fair) by (nonlinear_arith);
        assert((naturals.len() - 1) * (3 * MAX_METRIC) + 3 * MAX_METRIC == naturals.len() * (3
            * MAX_METRIC)) by (nonlinear_arith);
        assert forall|j: int|
            0 <= j < naturals.len() && naturals[j] > fair implies shrunk_of(naturals, fair)
            >= #[trigger] naturals[j] by {
            if j < rest.len() {
                assert(rest[j] == naturals[j]);
                assert(shrunk_of(rest, fair) >= naturals[j]);
            }
        }
    }
}

/// Law: with room to spare, every column keeps at least its natural
/// width, and a column not flagged to grow keeps exactly its natural
/// width — the table may stay narrower than the available width.
pub proof fn lemma_surplus_distribution(
    columns: Seq<ColumnSpec>,
    naturals: Seq<int>,
    available: int,
)
    requires
        naturals.len() == columns.len(),
        naturals.len() > 0,
        forall|j: int| 0 <= j < naturals.len() ==> 0 <= #[trigger] naturals[j],
        available >= 0,
        (if sum_ints(naturals) >= SUB_PER_MM {
            sum_ints(naturals)
        } else {
            SUB_PER_MM as int
        }) <= available,
    ensures
        forall|j: int| 0 <= j < naturals.len() && !columns[j].grow
            ==> #[trigger] spec_divide_width(columns, naturals, available)[j] == naturals[j],
        forall|j: int| 0 <= j < naturals.len() && columns[j].grow
            ==> #[trigger] spec_divide_width(columns, naturals, available)[j] >= naturals[j],
{
    let total_raw = sum_ints(naturals);
    let total = if total_raw >= SUB_PER_MM {
        total_raw
    } else {
        SUB_PER_MM as int
    };
    let excess = available - total;
    let growers = count_growers(columns);
    if growers > 0 {
        vstd::arithmetic::div_mod::lemma_div_pos_is_pos(excess, growers);
    }
}

/// Law: in the deficit case, a column whose natural width fits within
/// the fair share keeps exactly its natural width.
pub proof fn lemma_deficit_keeps_fitting(
    columns: Seq<ColumnSpec>,
    naturals: Seq<int>,
    available: int,
)
    requires
        naturals.len() == columns.len(),
        naturals.len() > 0,
        available >= 0,
        (if sum_ints(naturals) >= SUB_PER_MM {
            sum_ints(naturals)
        } else {
            SUB_PER_MM as int
        }) > available,
    ensures
        forall|j: int|
            0 <= j < naturals.len() && naturals[j] <= available / (naturals.len() as int)
                ==> #[trigger] spec_divide_width(columns, naturals, available)[j] == naturals[j],
{
}

/// The sum of a sequence of bounded values is bounded by the count times
/// the bound.
proof fn lemma_sum_bounds(s: Seq<int>, bound: int)
    requires
        bound >= 0,
        forall|j: int| 0 <= j < s.len() ==> 0 <= #[trigger] s[j] <= bound,
    ensures
        0 <= sum_ints(s) <= s.len() * bound,
    decreases s.len(),
{
    if s.len() > 0 {
        let rest = s.drop_last();
        assert(forall|j: int| 0 <= j < rest.len() ==> 0 <= #[trigger] rest[j] <= bound);
        lemma_sum_bounds(rest, bound);
        assert((s.len() - 1) * bound + bound == s.len() * bound) by (nonlinear_arith);
    }
}

/// The product of two nonnegative values that fit an `i64` fits an
/// `i128`.
proof fn lemma_wide_product_fits(a: int, b: int)
    requires
        0 <= a <= i64::MAX,
        0 <= b <= i64::MAX,
    ensures
        0 <= a * b <= i128::MAX,
{
    assert(0 <= a * b <= i128::MAX) by (nonlinear_arith)
        requires
            0 <= a <= i64::MAX,
            0 <= b <= i64::MAX,
    ;
}

/// Divide the available width over the columns according to their
/// natural widths, as [`spec_divide_width`] describes.
///
/// Every resulting width is nonnegative; in the deficit case none
/// exceeds the available width plus the widest natural demand.
pub fn divide_width(columns: &Vec<ColumnSpec>, natural_widths: &Vec<Length>, available_width: Length) -> (
    r: Vec<Length>)
    requires
        columns@.len() == natural_widths@.len(),
        0 < natural_widths@.len() <= MAX_CHILDREN,
        forall|j: int| 0 <= j < natural_widths@.len() ==> natural_in_range(
            #[trigger] natural_widths@[j]@,
        ),
        metric_in_range(available_width@),
    ensures
        r@.len() == natural_widths@.len(),
        len_views(r@) == spec_divide_width(columns@, len_views(natural_widths@), available_width@),
        forall|j: int| 0 <= j < r@.len() ==> 0 <= #[trigger] r@[j]@ <= 4 * MAX_METRIC,
{
    let ghost naturals = len_views(natural_widths@);
    let count = natural_widths.len();

    let mut total: i64 = 0;
    let mut i: usize = 0;
    while i < count
        invariant
            i <= count,
            count == natural_widths@.len(),
            forall|j: int| 0 <= j < count ==> natural_in_range(#[trigger] natural_widths@[j]@),
            naturals == len_views(natural_widths@),
            total == sum_ints(naturals.subrange(0, i as int)),
            0 <= total <= i * (3 * MAX_METRIC),
            count <= MAX_CHILDREN,
        decreases count - i,
    {
        proof {
            assert(naturals.subrange(0, i + 1).drop_last() == naturals.subrange(0, i as int));
            assert(i * (3 * MAX_METRIC) + 3 * MAX_METRIC == (i + 1) * (3 * MAX_METRIC))
                by (nonlinear_arith);
            assert((i + 1) * (3 * MAX_METRIC) <= MAX_CHILDREN * (3 * MAX_METRIC))
                by (nonlinear_arith)
                requires
                    0 <= i + 1 <= MAX_CHILDREN,
            ;
        }
        total = total + natural_widths[i].as_subunits();
        i = i + 1;
    }
    proof {
        assert(naturals.subrange(0, count as int) == naturals);
    }
    let total_natural: i64 = if total >= SUB_PER_MM {
        total
    } else {
        SUB_PER_MM
    };

    let available: i64 = available_width.as_subunits();
    let fair: i64 = crate::length::div_sub(available, count as i64);
    proof {
        vstd::arithmetic::div_mod::lemma_fundamental_div_mod(available as int, count as int);
        vstd::arithmetic::div_mod::lemma_mod_pos_bound(available as int, count as int);
        vstd::arithmetic::div_mod::lemma_div_pos_is_pos(available as int, count as int);
        assert(fair >= 0);
        assert(fair * count <= available) by (nonlinear_arith)
            requires
                available as int == fair * count + (available as int) % (count as int),
                0 <= (available as int) % (count as int),
        ;
    }

    if total_natural <= available {
        // Room to spare: divide the excess evenly over the growing columns.
        let excess: i64 = available - total_natural;
        let mut growers: usize = 0;
        let mut i: usize = 0;
        while i < count
            invariant
                i <= count,
                count == columns@.len(),
                growers == count_growers(columns@.subrange(0, i as int)),
                growers <= i,
            decreases count - i,
        {
            proof {
                assert(columns@.subrange(0, i + 1).drop_last() == columns@.subrange(0, i as int));
            }
            if columns[i].grow {
                growers = growers + 1;
            }
            i = i + 1;
        }
        proof {
            assert(columns@.subrange(0, count as int) == columns@);
        }
        let spacing: i64 = if growers > 0 {
            crate::length::div_sub(excess, growers as i64)
        } else {
            0
        };
        proof {
            if growers > 0 {
                vstd::arithmetic::div_mod::lemma_div_pos_is_pos(excess as int, growers as int);
                vstd::arithmetic::div_mod::lemma_div_is_ordered_by_denominator(
                    excess as int,
                    1,
                    growers as int,
                );
            }
            assert(0 <= spacing <= excess);
        }

        let mut widths: Vec<Length> = Vec::new();
        let mut i: usize = 0;
        while i < count
            invariant
                i <= count,
                count == columns@.len() == natural_widths@.len(),
                naturals == len_views(natural_widths@),
                forall|j: int| 0 <= j < count ==> natural_in_range(#[trigger] natural_widths@[j]@),
                widths@.len() == i,
                forall|j: int| 0 <= j < i ==> #[trigger] widths@[j]@ == if columns@[j].grow {
                    naturals[j] + spacing
                } else {
                    naturals[j]
                },
                0 <= spacing <= excess,
                excess <= available_width@,
                metric_in_range(available_width@),
            decreases count - i,
        {
            if columns[i].grow {
                widths.push(natural_widths[i].add(Length::from_subunits(spacing)));
            } else {
                widths.push(natural_widths[i]);
            }
            i = i + 1;
        }
        proof {
            assert(len_views(widths@) =~= spec_divide_width(columns@, naturals, available_width@));
        }
        return widths;
    }

    // Deficit: columns within the fair share keep their natural width and
    // donate their slack; the others split the pool in proportion to
    // their natural widths.
    let mut dividable: i64 = 0;
    let mut total_shrunk: i64 = 0;
    let mut i: usize = 0;
    while i < count
        invariant
            i <= count,
            count == natural_widths@.len(),
            naturals == len_views(natural_widths@),
            forall|j: int| 0 <= j < count ==> natural_in_range(#[trigger] natural_widths@[j]@),
            dividable == dividable_of(naturals.subrange(0, i as int), fair as int),
            total_shrunk == shrunk_of(naturals.subrange(0, i as int), fair as int),
            0 <= dividable <= i * (fair as int),
            0 <= total_shrunk <= i * (3 * MAX_METRIC),
            0 <= fair <= available_width@,
            metric_in_range(available_width@),
            count <= MAX_CHILDREN,
        decreases count - i,
    {
        proof {
            assert(naturals.subrange(0, i + 1).drop_last() == naturals.subrange(0, i as int));
            assert(i * (fair as int) + fair <= (i + 1) * (fair as int)) by (nonlinear_arith);
            assert((i + 1) * (fair as int) <= MAX_CHILDREN * (fair as int)) by (nonlinear_arith)
                requires
                    0 <= i + 1 <= MAX_CHILDREN,
                    0 <= fair,
            ;
            assert(i * (3 * MAX_METRIC) + 3 * MAX_METRIC == (i + 1) * (3 * MAX_METRIC))
                by (nonlinear_arith);
            assert((i + 1) * (3 * MAX_METRIC) <= MAX_CHILDREN * (3 * MAX_METRIC))
                by (nonlinear_arith)
                requires
                    0 <= i + 1 <= MAX_CHILDREN,
            ;
        }
        let natural = natural_widths[i].as_subunits();
        if natural <= fair {
            dividable = dividable + (fair - natural);
        } else {
            dividable = dividable + fair;
            total_shrunk = total_shrunk + natural;
        }
        i = i + 1;
    }
    proof {
        assert(naturals.subrange(0, count as int) == naturals);
        lemma_division_folds(naturals, fair as int);
        assert(dividable <= available) by {
            assert(naturals.len() * (fair as int) == count * (fair as int));
            assert(count * (fair as int) == (fair as int) * count) by (nonlinear_arith);
        }
    }

    let mut widths: Vec<Length> = Vec::new();
    let mut i: usize = 0;
    while i < count
        invariant
            i <= count,
            count == natural_widths@.len(),
            naturals == len_views(natural_widths@),
            forall|j: int| 0 <= j < count ==> natural_in_range(#[trigger] natural_widths@[j]@),
            widths@.len() == i,
            forall|j: int| 0 <= j < i ==> #[trigger] widths@[j]@ == if naturals[j] <= fair {
                naturals[j]
            } else {
                dividable * naturals[j] / (total_shrunk as int)
            },
            forall|j: int| 0 <= j < i ==> 0 <= #[trigger] widths@[j]@ <= 4 * MAX_METRIC,
            dividable == dividable_of(naturals, fair as int),
            total_shrunk == shrunk_of(naturals, fair as int),
            0 <= dividable <= available_width@,
            metric_in_range(available_width@),
            0 <= fair,
        decreases count - i,
    {
        let natural = natural_widths[i].as_subunits();
        if natural <= fair {
            widths.push(natural_widths[i]);
        } else {
            proof {
                lemma_division_folds(naturals, fair as int);
                assert(naturals[i as int] == natural);
                assert(total_shrunk >= natural);
                lemma_wide_product_fits(dividable as int, natural as int);
            }
            let product: i128 = (dividable as i128) * (natural as i128);
            let quotient: i128 = match product.checked_div(total_shrunk as i128) {
                Some(q) => q,
                None => 0,  // unreachable: the divisor is positive
            };
            proof {
                assert(quotient == dividable * naturals[i as int] / (total_shrunk as int));
                assert(0 <= quotient <= dividable) by {
                    vstd::arithmetic::div_mod::lemma_div_pos_is_pos(
                        product as int,
                        total_shrunk as int,
                    );
                    assert(dividable * natural <= dividable * total_shrunk) by (nonlinear_arith)
                        requires
                            0 <= dividable,
                            0 < natural <= total_shrunk,
                    ;
                    vstd::arithmetic::div_mod::lemma_div_is_ordered(
                        dividable * natural,
                        dividable * total_shrunk,
                        total_shrunk as int,
                    );
                    vstd::arithmetic::div_mod::lemma_div_multiples_vanish(
                        dividable as int,
                        total_shrunk as int,
                    );
                    assert(dividable * total_shrunk == total_shrunk * dividable)
                        by (nonlinear_arith);
                }
            }
            widths.push(Length::from_subunits(quotient as i64));
        }
        i = i + 1;
    }
    proof {
        assert(len_views(widths@) =~= spec_divide_width(columns@, naturals, available_width@));
    }
    widths
}

/// One cell of a table: its text, its alignment within the column, and
/// an optional padding override.
#[derive(Debug, Clone)]
pub struct TableCell {
    pub text: TextBox,
    pub alignment: TextAlignment,
    pub padding: Option<Margins>,
}

/// The effective padding of a cell: its own override, or the table-wide
/// default.
pub open spec fn cell_pad(cell: TableCell, default: Margins) -> Margins {
    match cell.padding {
        Some(p) => p,
        None => default,
    }
}

/// The total horizontal padding of a margins value.
pub open spec fn pad_h(m: Margins) -> int {
    m@.left + m@.right
}

/// The total vertical padding of a margins value.
pub open spec fn pad_v(m: Margins) -> int {
    m@.top + m@.bottom
}

/// The width a cell naturally demands of its column: the text's natural
/// width plus the cell's horizontal padding.
pub open spec fn cell_natural(cell: TableCell, default: Margins) -> int {
    cell.text.spec_natural_width() + pad_h(cell_pad(cell, default))
}

/// The height a cell demands of its row: the text's current height plus
/// the cell's vertical padding.
pub open spec fn cell_height(cell: TableCell, default: Margins) -> int {
    cell.text.spec_size().y + pad_v(cell_pad(cell, default))
}

/// A cell whose measurements and paddings are sound for layout
/// arithmetic.
pub open spec fn cell_wf(cell: TableCell) -> bool {
    &&& cell.text.wf()
    &&& match cell.padding {
        Some(p) => p@.in_range(),
        None => true,
    }
}

/// The natural width of column `j`, taking only the first `n` cells into
/// account: the largest demand of a cell in that column, or zero.
pub open spec fn col_natural_upto(
    cells: Seq<TableCell>,
    default: Margins,
    ncols: int,
    n: int,
    j: int,
) -> int
    decreases n,
{
    if n <= 0 {
        0
    } else {
        let prev = col_natural_upto(cells, default, ncols, n - 1, j);
        if (n - 1) % ncols == j {
            let w = cell_natural(cells[n - 1], default);
            if w >= prev {
                w
            } else {
                prev
            }
        } else {
            prev
        }
    }
}

/// The natural width of column `j` over all cells.
pub open spec fn spec_col_natural(cells: Seq<TableCell>, default: Margins, ncols: int, j: int) -> int {
    col_natural_upto(cells, default, ncols, cells.len() as int, j)
}

/// The natural widths of all columns.
pub open spec fn spec_natural_widths(cells: Seq<TableCell>, default: Margins, ncols: int) -> Seq<int> {
    Seq::new(ncols as nat, |j: int| spec_col_natural(cells, default, ncols, j))
}

/// The height of row `r`, taking the first `k` cells of that row into
/// account: the largest demand of a cell in the row, or zero.
pub open spec fn row_height_upto(
    cells: Seq<TableCell>,
    default: Margins,
    ncols: int,
    r: int,
    k: int,
) -> int
    decreases k,
{
    if k <= 0 {
        0
    } else {
        let prev = row_height_upto(cells, default, ncols, r, k - 1);
        let idx = r * ncols + (k - 1);
        if 0 <= idx < cells.len() {
            let h = cell_height(cells[idx], default);
            if h >= prev {
                h
            } else {
                prev
            }
        } else {
            prev
        }
    }
}

/// The height of row `r` over its whole width.
pub open spec fn spec_row_height(cells: Seq<TableCell>, default: Margins, ncols: int, r: int) -> int {
    row_height_upto(cells, default, ncols, r, ncols)
}

/// How many rows the given number of row-major cells fills over the
/// given number of columns, counting a ragged last row.
pub open spec fn spec_rows(ncells: int, ncols: int) -> int {
    (ncells + ncols - 1) / ncols
}

/// A column's natural width stays within three metric bounds.
proof fn lemma_col_natural_bounds(cells: Seq<TableCell>, default: Margins, ncols: int, n: int, j: int)
    requires
        forall|i: int| 0 <= i < cells.len() ==> cell_wf(#[trigger] cells[i]),
        default@.in_range(),
        n <= cells.len(),
    ensures
        natural_in_range(col_natural_upto(cells, default, ncols, n, j)),
    decreases n,
{
    if n > 0 {
        lemma_col_natural_bounds(cells, default, ncols, n - 1, j);
    }
}

/// A row's height stays within three metric bounds.
proof fn lemma_row_height_bounds(cells: Seq<TableCell>, default: Margins, ncols: int, r: int, k: int)
    requires
        forall|i: int| 0 <= i < cells.len() ==> cell_wf(#[trigger] cells[i]),
        default@.in_range(),
    ensures
        0 <= row_height_upto(cells, default, ncols, r, k) <= 3 * MAX_METRIC,
    decreases k,
{
    if k > 0 {
        lemma_row_height_bounds(cells, default, ncols, r, k - 1);
    }
}

/// Once a row's cells are exhausted, taking more of its width into
/// account does not change its height.
proof fn lemma_row_height_stable(
    cells: Seq<TableCell>,
    default: Margins,
    ncols: int,
    r: int,
    k0: int,
    k: int,
)
    requires
        0 <= k0 <= k,
        r >= 0,
        ncols >= 1,
        r * ncols + k0 >= cells.len(),
    ensures
        row_height_upto(cells, default, ncols, r, k) == row_height_upto(
            cells,
            default,
            ncols,
            r,
            k0,
        ),
    decreases k - k0,
{
    if k > k0 {
        lemma_row_height_stable(cells, default, ncols, r, k0, k - 1);
    }
}

/// Laying a table out keeps everything about a cell except its width
/// constraint: the text, style, color and stored measurements stay, as
/// do the alignment and the padding override.
pub open spec fn cell_preserved(old_cell: TableCell, new_cell: TableCell) -> bool {
    &&& new_cell.alignment == old_cell.alignment
    &&& new_cell.padding == old_cell.padding
    &&& new_cell.text.text == old_cell.text.text
    &&& new_cell.text.style == old_cell.text.style
    &&& new_cell.text.color == old_cell.text.color
    &&& new_cell.text.metrics == old_cell.text.metrics
}

/// Stepping one cell forward in row-major order either stays in the
/// same row or opens the next one.
proof fn lemma_step_divmod(i: int, n: int)
    requires
        0 <= i,
        1 <= n,
    ensures
        i % n == n - 1 ==> (i + 1) / n == i / n + 1 && (i + 1) % n == 0,
        i % n < n - 1 ==> (i + 1) / n == i / n && (i + 1) % n == i % n + 1,
{
    vstd::arithmetic::div_mod::lemma_fundamental_div_mod(i, n);
    vstd::arithmetic::div_mod::lemma_mod_pos_bound(i, n);
    if i % n == n - 1 {
        assert(i + 1 == (i / n + 1) * n + 0) by (nonlinear_arith)
            requires
                i == n * (i / n) + i % n,
                i % n == n - 1,
        ;
        vstd::arithmetic::div_mod::lemma_fundamental_div_mod_converse_div(i + 1, n, i / n + 1, 0);
        vstd::arithmetic::div_mod::lemma_fundamental_div_mod_converse_mod(i + 1, n, i / n + 1, 0);
    } else {
        assert(i + 1 == (i / n) * n + (i % n + 1)) by (nonlinear_arith)
            requires
                i == n * (i / n) + i % n,
        ;
        vstd::arithmetic::div_mod::lemma_fundamental_div_mod_converse_div(
            i + 1,
            n,
            i / n,
            i % n + 1,
        );
        vstd::arithmetic::div_mod::lemma_fundamental_div_mod_converse_mod(
            i + 1,
            n,
            i / n,
            i % n + 1,
        );
    }
}

/// Row heights only read what layout preserves of a cell, so they agree
/// between the cells before and after layout.
proof fn lemma_row_height_congruent_upto(
    a: Seq<TableCell>,
    b: Seq<TableCell>,
    default: Margins,
    ncols: int,
    r: int,
    k: int,
)
    requires
        a.len() == b.len(),
        forall|i: int| 0 <= i < a.len() ==> cell_preserved(a[i], #[trigger] b[i]),
    ensures
        row_height_upto(a, default, ncols, r, k) == row_height_upto(b, default, ncols, r, k),
    decreases k,
{
    if k > 0 {
        lemma_row_height_congruent_upto(a, b, default, ncols, r, k - 1);
    }
}

/// As above, for every row at once.
proof fn lemma_row_heights_congruent(a: Seq<TableCell>, b: Seq<TableCell>, default: Margins, ncols: int)
    requires
        a.len() == b.len(),
        forall|i: int| 0 <= i < a.len() ==> cell_preserved(a[i], #[trigger] b[i]),
    ensures
        forall|r: int| #![trigger spec_row_height(a, default, ncols, r)] spec_row_height(a, default, ncols, r) == spec_row_height(
            b,
            default,
            ncols,
            r,
        ),
{
    assert forall|r: int| spec_row_height(a, default, ncols, r) == spec_row_height(
        b,
        default,
        ncols,
        r,
    ) by {
        lemma_row_height_congruent_upto(a, b, default, ncols, r, ncols);
    }
}

/// The column widths a table's layout fixes: the natural widths, put
/// through the distribution algorithm when a width budget is set.
pub open spec fn spec_column_widths(t: Table) -> Seq<int> {
    let naturals = spec_natural_widths(t.cells@, t.cell_padding, t.columns@.len() as int);
    match t.max_width {
        Some(w) => spec_divide_width(t.columns@, naturals, w@),
        None => naturals,
    }
}

/// A table: per-column specifications, a default cell padding, a
/// row-major sequence of cells, and an optional overall width budget.
#[derive(Debug, Clone)]
pub struct Table {
    pub columns: Vec<ColumnSpec>,
    pub cell_padding: Margins,
    pub cells: Vec<TableCell>,
    pub max_width: Option<Length>,
}

/// The computed layout of a table: the table itself with every cell
/// constrained, the fixed column widths and the fixed row heights.
#[derive(Debug, Clone)]
pub struct TableLayout {
    pub table: Table,
    pub column_widths: Vec<Length>,
    pub row_heights: Vec<Length>,
}

/// Where a column or a row begins: the sum of the widths or heights
/// before the given index.
pub open spec fn spec_start(extents: Seq<int>, index: int) -> int {
    sum_ints(extents.subrange(0, index))
}

/// Which column a border range endpoint names: an inclusive endpoint
/// names its column, an exclusive one its neighbor, and an open one the
/// edge of the table.
#[derive(Debug, Clone, Copy)]
pub enum ColumnBound {
    Included(usize),
    Excluded(usize),
    Unbounded,
}

/// The first column of a border range.
pub open spec fn spec_range_start(bound: ColumnBound) -> int {
    match bound {
        ColumnBound::Included(i) => i as int,
        ColumnBound::Excluded(i) => i + 1,
        ColumnBound::Unbounded => 0,
    }
}

/// The last column of a border range over the given number of columns.
pub open spec fn spec_range_end(bound: ColumnBound, ncols: int) -> int {
    match bound {
        ColumnBound::Included(i) => i as int,
        ColumnBound::Excluded(i) => i - 1,
        ColumnBound::Unbounded => ncols - 1,
    }
}

/// A horizontal border segment in the layout's own coordinates: a line
/// from `(x1, y)` to `(x2, y)`.
#[derive(Debug, Clone, Copy, PartialEq, Eq, Structural)]
pub struct BorderLine {
    pub x1: Length,
    pub x2: Length,
    pub y: Length,
}

impl TableLayout {
    /// Whether the layout's widths and heights are sound for layout
    /// arithmetic.
    pub open spec fn spec_wf(&self) -> bool {
        &&& self.table.spec_wf()
        &&& self.column_widths@.len() <= MAX_CHILDREN
        &&& self.row_heights@.len() <= MAX_CHILDREN
        &&& forall|j: int| 0 <= j < self.column_widths@.len() ==> 0
            <= #[trigger] self.column_widths@[j]@ <= 4 * MAX_METRIC
        &&& forall|r: int| 0 <= r < self.row_heights@.len() ==> 0
            <= #[trigger] self.row_heights@[r]@ <= 3 * MAX_METRIC
    }

    /// Destroy the table layout to get back the original table.
    pub fn into_table(self) -> (r: Table)
        ensures
            r == self.table,
    {
        self.table
    }

    /// Store fresh extents for one cell from the text backend — the
    /// fixed column widths force a re-wrap, and the backend reports the
    /// wrapped extents here — and bring the row heights up to date.
    /// The column widths stay fixed.
    pub fn set_cell_metrics(&mut self, index: usize, metrics: TextMetrics)
        requires
            old(self).spec_wf(),
            old(self).table.columns@.len() > 0,
            index < old(self).table.cells@.len(),
            metrics.wf(),
        ensures
            final(self).spec_wf(),
            final(self).table.columns == old(self).table.columns,
            final(self).table.cell_padding == old(self).table.cell_padding,
            final(self).table.max_width == old(self).table.max_width,
            final(self).column_widths == old(self).column_widths,
            final(self).table.cells@.len() == old(self).table.cells@.len(),
            forall|i: int| 0 <= i < old(self).table.cells@.len() && i != index
                ==> #[trigger] final(self).table.cells@[i] == old(self).table.cells@[i],
            final(self).table.cells@[index as int].alignment == old(self).table.cells@[
                index as int].alignment,
            final(self).table.cells@[index as int].padding == old(self).table.cells@[
                index as int].padding,
            final(self).table.cells@[index as int].text.text == old(self).table.cells@[
                index as int].text.text,
            final(self).table.cells@[index as int].text.style == old(self).table.cells@[
                index as int].text.style,
            final(self).table.cells@[index as int].text.color == old(self).table.cells@[
                index as int].text.color,
            final(self).table.cells@[index as int].text.max_width == old(self).table.cells@[
                index as int].text.max_width,
            final(self).table.cells@[index as int].text.metrics == metrics,
            final(self).row_heights@.len() == spec_rows(
                old(self).table.cells@.len() as int,
                old(self).table.columns@.len() as int,
            ),
            forall|rr: int| 0 <= rr < final(self).row_heights@.len()
                ==> #[trigger] final(self).row_heights@[rr]@ == spec_row_height(
                final(self).table.cells@,
                old(self).table.cell_padding,
                old(self).table.columns@.len() as int,
                rr,
            ),
    {
        self.table.cells[index].text.apply_metrics(metrics);
        self.row_heights = compute_row_heights(
            &self.table.cells,
            self.table.cell_padding,
            self.table.columns.len(),
        );
    }

    /// Where the given column begins: the sum of the column widths
    /// before it.
    pub fn col_start(&self, index: usize) -> (r: Length)
        requires
            self.spec_wf(),
            index <= self.column_widths@.len(),
        ensures
            r@ == spec_start(len_views(self.column_widths@), index as int),
            0 <= r@ <= self.column_widths@.len() * (4 * MAX_METRIC),
            0 <= r@ <= 0x4000_0000_0000_0000,
    {
        sum_prefix(&self.column_widths, index, Ghost(4 * MAX_METRIC))
    }

    /// Where the column after the given one begins.
    pub fn col_end(&self, index: usize) -> (r: Length)
        requires
            self.spec_wf(),
            index < self.column_widths@.len(),
        ensures
            r@ == spec_start(len_views(self.column_widths@), index + 1),
            0 <= r@ <= self.column_widths@.len() * (4 * MAX_METRIC),
            0 <= r@ <= 0x4000_0000_0000_0000,
    {
        self.col_start(index + 1)
    }

    /// Where the given row begins: the sum of the row heights before it.
    pub fn row_start(&self, index: usize) -> (r: Length)
        requires
            self.spec_wf(),
            index <= self.row_heights@.len(),
        ensures
            r@ == spec_start(len_views(self.row_heights@), index as int),
            0 <= r@ <= self.row_heights@.len() * (3 * MAX_METRIC),
            0 <= r@ <= 0x4000_0000_0000_0000,
    {
        sum_prefix(&self.row_heights, index, Ghost(3 * MAX_METRIC))
    }

    /// Compute the size of the laid-out table: all column widths by all
    /// row heights.  An empty layout has size zero.
    pub fn compute_size(&self) -> (r: Vector2)
        requires
            self.spec_wf(),
        ensures
            r@.x == spec_start(
                len_views(self.column_widths@),
                self.column_widths@.len() as int,
            ),
            r@.y == spec_start(len_views(self.row_heights@), self.row_heights@.len() as int),
    {
        Vector2::new(
            self.col_start(self.column_widths.len()),
            self.row_start(self.row_heights.len()),
        )
    }

    /// Compute the width of the laid-out table.
    pub fn compute_width(&self) -> (r: Length)
        requires
            self.spec_wf(),
        ensures
            r@ == spec_start(len_views(self.column_widths@), self.column_widths@.len() as int),
    {
        self.col_start(self.column_widths.len())
    }

    /// Compute the height of the laid-out table.
    pub fn compute_height(&self) -> (r: Length)
        requires
            self.spec_wf(),
        ensures
            r@ == spec_start(len_views(self.row_heights@), self.row_heights@.len() as int),
    {
        self.row_start(self.row_heights.len())
    }

    /// Get the baseline of a table row: where the row begins, plus the
    /// baseline of the first cell in it.
    pub fn comput_baseline(&self, row: usize) -> (r: Length)
        requires
            self.spec_wf(),
            self.table.columns@.len() > 0,
            row <= self.row_heights@.len(),
            row * self.table.columns@.len() < self.table.cells@.len(),
        ensures
            r@ == spec_start(len_views(self.row_heights@), row as int) + self.table.cells@[row
                * self.table.columns@.len()].text.metrics.baseline@,
    {
        let start = self.row_start(row);
        let cell_index = row * self.table.columns.len();
        let cell = &self.table.cells[cell_index];
        start.add(cell.text.metrics.baseline)
    }

    /// Where the text of cell `i` is drawn when the laid-out table's
    /// top-left corner sits at `origin`: the corner of the cell's column
    /// and row, moved in by the cell padding; a center or right
    /// alignment additionally shifts the text within the column by half
    /// of, or the whole, leftover width.
    pub open spec fn spec_cell_position(&self, origin: Vector2View, i: int) -> Vector2View {
        let cc = self.table.columns@.len() as int;
        let col = i % cc;
        let row = i / cc;
        let cell = self.table.cells@[i];
        let pad = cell_pad(cell, self.table.cell_padding);
        let inner_x = origin.x + spec_start(len_views(self.column_widths@), col) + pad@.left;
        let inner_y = origin.y + spec_start(len_views(self.row_heights@), row) + pad@.top;
        let w = self.column_widths@[col]@;
        let tw = cell.text.spec_size().x;
        Vector2View {
            x: match cell.alignment {
                TextAlignment::Left => inner_x,
                TextAlignment::Center => inner_x + div_trunc(w, 2) - div_trunc(tw, 2),
                TextAlignment::Right => inner_x + w - tw,
            },
            y: inner_y,
        }
    }

    /// Compute, for every cell in row-major order, the position at which
    /// its text is drawn when the table's top-left corner sits at
    /// `position`.
    pub fn cell_placements(&self, position: Vector2) -> (r: Vec<Vector2>)
        requires
            self.spec_wf(),
            self.table.columns@.len() > 0,
            self.column_widths@.len() == self.table.columns@.len(),
            self.row_heights@.len() == spec_rows(
                self.table.cells@.len() as int,
                self.table.columns@.len() as int,
            ),
            -0x2000_0000_0000_0000 <= position@.x <= 0x2000_0000_0000_0000,
            -0x2000_0000_0000_0000 <= position@.y <= 0x2000_0000_0000_0000,
        ensures
            r@.len() == self.table.cells@.len(),
            forall|i: int| 0 <= i < r@.len() ==> #[trigger] r@[i]@ == self.spec_cell_position(
                position@,
                i,
            ),
    {
        let cc = self.table.columns.len();
        let ghost len = self.table.cells@.len() as int;
        let mut placements: Vec<Vector2> = Vec::new();
        let mut i: usize = 0;
        while i < self.table.cells.len()
            invariant
                i <= len,
                len == self.table.cells@.len(),
                cc == self.table.columns@.len(),
                cc > 0,
                self.spec_wf(),
                self.column_widths@.len() == cc,
                self.row_heights@.len() == spec_rows(len, cc as int),
                -0x2000_0000_0000_0000 <= position@.x <= 0x2000_0000_0000_0000,
                -0x2000_0000_0000_0000 <= position@.y <= 0x2000_0000_0000_0000,
                placements@.len() == i,
                forall|t: int| 0 <= t < i ==> #[trigger] placements@[t]@
                    == self.spec_cell_position(position@, t),
            decreases len - i,
        {
            proof {
                vstd::arithmetic::div_mod::lemma_fundamental_div_mod(i as int, cc as int);
                vstd::arithmetic::div_mod::lemma_mod_pos_bound(i as int, cc as int);
                vstd::arithmetic::div_mod::lemma_div_pos_is_pos(i as int, cc as int);
                vstd::arithmetic::div_mod::lemma_fundamental_div_mod(len - 1, cc as int);
                vstd::arithmetic::div_mod::lemma_mod_pos_bound(len - 1, cc as int);
                vstd::arithmetic::div_mod::lemma_div_pos_is_pos(len - 1, cc as int);
                assert(len + cc - 1 == ((len - 1) / (cc as int) + 1) * (cc as int) + (len - 1) % (
                cc as int)) by (nonlinear_arith)
                    requires
                        len - 1 == (cc as int) * ((len - 1) / (cc as int)) + (len - 1) % (
                        cc as int),
                ;
                vstd::arithmetic::div_mod::lemma_fundamental_div_mod_converse_div(
                    len + cc - 1,
                    cc as int,
                    (len - 1) / (cc as int) + 1,
                    (len - 1) % (cc as int),
                );
                vstd::arithmetic::div_mod::lemma_div_is_ordered(i as int, len - 1, cc as int);
            }
            let col = i % cc;
            let row = i / cc;
            let cell = &self.table.cells[i];
            let (pad_left, pad_top) = match &cell.padding {
                Some(p) => (p.left, p.top),
                None => (self.table.cell_padding.left, self.table.cell_padding.top),
            };
            let inner_x = position.x.add(self.col_start(col)).add(pad_left);
            let inner_y = position.y.add(self.row_start(row)).add(pad_top);
            let w = self.column_widths[col];
            let tw = cell.text.compute_width();
            let x = match cell.alignment {
                TextAlignment::Left => inner_x,
                TextAlignment::Center => inner_x.add(w.half()).sub(tw.half()),
                TextAlignment::Right => inner_x.add(w).sub(tw),
            };
            placements.push(Vector2::new(x, inner_y));
            i = i + 1;
        }
        placements
    }

    /// The horizontal border segment above the given row, spanning the
    /// given column range: its endpoints are where the range's first
    /// column begins and where its last column ends, and it sits where
    /// the row begins.  Passing the number of rows as `row` gives the
    /// bottom border of the table.
    pub fn horizontal_border(&self, row: usize, start: ColumnBound, end: ColumnBound) -> (r:
        BorderLine)
        requires
            self.spec_wf(),
            row <= self.row_heights@.len(),
            self.column_widths@.len() == self.table.columns@.len(),
            0 <= spec_range_start(start) < self.table.columns@.len(),
            0 <= spec_range_end(end, self.table.columns@.len() as int)
                < self.table.columns@.len(),
        ensures
            r.y@ == spec_start(len_views(self.row_heights@), row as int),
            r.x1@ == spec_start(
                len_views(self.column_widths@),
                spec_range_start(start),
            ),
            r.x2@ == spec_start(
                len_views(self.column_widths@),
                spec_range_end(end, self.table.columns@.len() as int) + 1,
            ),
    {
        let y = self.row_start(row);

        let x1: usize = match start {
            ColumnBound::Included(i) => i,
            ColumnBound::Excluded(i) => i + 1,
            ColumnBound::Unbounded => 0,
        };
        let x2: usize = match end {
            ColumnBound::Included(i) => i,
            ColumnBound::Excluded(i) => i - 1,
            ColumnBound::Unbounded => self.table.columns.len() - 1,
        };

        let x1 = self.col_start(x1);
        let x2 = self.col_end(x2);
        BorderLine { x1, x2, y }
    }
}

/// One pass over the cells in row-major order: each row's height is the
/// largest cell demand in it — the text's current height plus the
/// cell's vertical padding — and a ragged last row counts.
fn compute_row_heights(cells: &Vec<TableCell>, default: Margins, column_count: usize) -> (r: Vec<
    Length>)
    requires
        column_count > 0,
        cells@.len() <= MAX_CHILDREN,
        forall|t: int| 0 <= t < cells@.len() ==> cell_wf(#[trigger] cells@[t]),
        default@.in_range(),
    ensures
        r@.len() == spec_rows(cells@.len() as int, column_count as int),
        r@.len() <= cells@.len(),
        forall|rr: int| 0 <= rr < r@.len() ==> #[trigger] r@[rr]@ == spec_row_height(
            cells@,
            default,
            column_count as int,
            rr,
        ),
        forall|rr: int| 0 <= rr < r@.len() ==> 0 <= #[trigger] r@[rr]@ <= 3 * MAX_METRIC,
{
    let ghost cs = cells@;
    let ghost cc = column_count as int;
    proof {
        vstd::arithmetic::div_mod::lemma_div_pos_is_pos(0, cc);
        vstd::arithmetic::div_mod::lemma_div_nonincreasing(0, cc);
    }
    let mut row_heights: Vec<Length> = Vec::new();
    let mut current_row_height = Length::zero();
    let mut i: usize = 0;
    while i < cells.len()
        invariant
            i <= cs.len(),
            cells@ == cs,
            cs.len() <= MAX_CHILDREN,
            default@.in_range(),
            column_count > 0,
            cc == column_count as int,
            forall|t: int| 0 <= t < cs.len() ==> cell_wf(#[trigger] cs[t]),
            row_heights@.len() == (i as int) / cc,
            forall|rr: int| 0 <= rr < row_heights@.len() ==> #[trigger] row_heights@[rr]@
                == spec_row_height(cs, default, cc, rr),
            current_row_height@ == row_height_upto(
                cs,
                default,
                cc,
                (i as int) / cc,
                (i as int) % cc,
            ),
            0 <= current_row_height@ <= 3 * MAX_METRIC,
        decreases cs.len() - i,
    {
        let padding_v = match &cells[i].padding {
            Some(p) => p.total_vertical(),
            None => default.total_vertical(),
        };
        let demand = cells[i].text.compute_height().add(padding_v);
        proof {
            vstd::arithmetic::div_mod::lemma_fundamental_div_mod(i as int, cc);
            vstd::arithmetic::div_mod::lemma_mod_pos_bound(i as int, cc);
            lemma_step_divmod(i as int, cc);
        }
        current_row_height = current_row_height.max(demand);
        if (i + 1) % column_count == 0 {
            row_heights.push(current_row_height);
            current_row_height = Length::zero();
        }
        i = i + 1;
    }
    proof {
        vstd::arithmetic::div_mod::lemma_fundamental_div_mod(cs.len() as int, cc);
        vstd::arithmetic::div_mod::lemma_mod_pos_bound(cs.len() as int, cc);
        vstd::arithmetic::div_mod::lemma_div_pos_is_pos(cs.len() as int, cc);
    }
    if cells.len() % column_count != 0 {
        proof {
            assert(cs.len() as int / cc * cc + cs.len() as int % cc == cs.len())
                by (nonlinear_arith)
                requires
                    cs.len() as int == cc * (cs.len() as int / cc) + cs.len() as int % cc,
            ;
            lemma_row_height_stable(
                cs,
                default,
                cc,
                cs.len() as int / cc,
                cs.len() as int % cc,
                cc,
            );
            assert(cs.len() as int + cc - 1 == (cs.len() as int / cc + 1) * cc + (cs.len() as int
                % cc - 1)) by (nonlinear_arith)
                requires
                    cs.len() as int == cc * (cs.len() as int / cc) + cs.len() as int % cc,
            ;
            vstd::arithmetic::div_mod::lemma_fundamental_div_mod_converse_div(
                cs.len() as int + cc - 1,
                cc,
                cs.len() as int / cc + 1,
                cs.len() as int % cc - 1,
            );
        }
        row_heights.push(current_row_height);
    } else {
        proof {
            assert(cs.len() as int + cc - 1 == (cs.len() as int / cc) * cc + (cc - 1))
                by (nonlinear_arith)
                requires
                    cs.len() as int == cc * (cs.len() as int / cc) + cs.len() as int % cc,
                    cs.len() as int % cc == 0,
            ;
            vstd::arithmetic::div_mod::lemma_fundamental_div_mod_converse_div(
                cs.len() as int + cc - 1,
                cc,
                cs.len() as int / cc,
                cc - 1,
            );
        }
    }
    proof {
        vstd::arithmetic::div_mod::lemma_div_nonincreasing(cs.len() as int, cc);
        if cs.len() as int % cc != 0 {
            // A ragged row exists only over at least two columns, so the
            // row count still undercuts the cell count.
            assert(cc >= 2) by {
                if cc == 1 {
                    assert(cs.len() as int % 1 == 0);
                }
            }
            vstd::arithmetic::div_mod::lemma_div_decreases(cs.len() as int, cc);
        }
        assert forall|r0: int| 0 <= r0 < row_heights@.len() implies 0 <= #[trigger] row_heights@[
            r0]@ <= 3 * MAX_METRIC by {
            lemma_row_height_bounds(cs, default, cc, r0, cc);
        }
    }
    row_heights
}

/// The sum of the first `index` lengths, each of which is known to lie
/// within the given bound.
fn sum_prefix(extents: &Vec<Length>, index: usize, Ghost(bound): Ghost<int>) -> (r: Length)
    requires
        index <= extents@.len(),
        extents@.len() <= MAX_CHILDREN,
        0 <= bound <= 4 * MAX_METRIC,
        forall|j: int| 0 <= j < extents@.len() ==> 0 <= #[trigger] extents@[j]@ <= bound,
    ensures
        r@ == spec_start(len_views(extents@), index as int),
        0 <= r@ <= extents@.len() * bound,
        0 <= r@ <= 0x4000_0000_0000_0000,
{
    let ghost views = len_views(extents@);
    let mut total = Length::zero();
    let mut i: usize = 0;
    while i < index
        invariant
            i <= index <= extents@.len() <= MAX_CHILDREN,
            views == len_views(extents@),
            0 <= bound <= 4 * MAX_METRIC,
            forall|j: int| 0 <= j < extents@.len() ==> 0 <= #[trigger] extents@[j]@ <= bound,
            total@ == sum_ints(views.subrange(0, i as int)),
            0 <= total@ <= i * bound,
        decreases index - i,
    {
        proof {
            assert(views.subrange(0, i + 1).drop_last() == views.subrange(0, i as int));
            assert(i * bound + bound == (i + 1) * bound) by (nonlinear_arith);
            assert((i + 1) * bound <= MAX_CHILDREN * (4 * MAX_METRIC)) by (nonlinear_arith)
                requires
                    0 <= i + 1 <= MAX_CHILDREN,
                    0 <= bound <= 4 * MAX_METRIC,
            ;
        }
        total = total.add(extents[i]);
        i = i + 1;
    }
    proof {
        lemma_sum_bounds(views.subrange(0, index as int), bound);
        assert(views.subrange(0, index as int).len() * bound <= extents@.len() * bound)
            by (nonlinear_arith)
            requires
                0 <= views.subrange(0, index as int).len() <= extents@.len(),
                bound >= 0,
        ;
        assert(extents@.len() * bound <= 0x4000_0000_0000_0000) by (nonlinear_arith)
            requires
                0 <= extents@.len() <= MAX_CHILDREN,
                0 <= bound <= 4 * MAX_METRIC,
        ;
    }
    total
}

impl Default for Table {
    /// An empty table with the default cell padding.
    fn default() -> (r: Self)
        ensures
            r.columns@.len() == 0,
            r.cells@.len() == 0,
            r.max_width is None,
            r.spec_wf(),
    {
        Table::new()
    }
}

impl Table {
    /// Whether the table's configuration is sound for layout arithmetic.
    pub open spec fn spec_wf(&self) -> bool {
        &&& self.columns@.len() <= MAX_CHILDREN
        &&& self.cells@.len() <= MAX_CHILDREN
        &&& self.cell_padding@.in_range()
        &&& forall|i: int| 0 <= i < self.cells@.len() ==> cell_wf(#[trigger] self.cells@[i])
        &&& match self.max_width {
            Some(w) => metric_in_range(w@),
            None => true,
        }
    }

    /// Create an empty table with the default cell padding of one point
    /// vertically and four points horizontally.
    pub fn new() -> (r: Self)
        ensures
            r.columns@.len() == 0,
            r.cells@.len() == 0,
            r.max_width is None,
            r.cell_padding@.top == SUB_PER_PT,
            r.cell_padding@.bottom == SUB_PER_PT,
            r.cell_padding@.left == 4 * SUB_PER_PT,
            r.cell_padding@.right == 4 * SUB_PER_PT,
            r.spec_wf(),
    {
        Table {
            columns: Vec::new(),
            cell_padding: Margins::vh(Length::from_pt(1), Length::from_pt(4)),
            cells: Vec::new(),
            max_width: None,
        }
    }

    /// Set the width budget for the whole table.
    pub fn set_max_width(self, max_width: Option<Length>) -> (r: Self)
        ensures
            r == (Table { max_width, ..self }),
    {
        Table { max_width, ..self }
    }

    /// Set the default cell padding.
    pub fn set_cell_padding(self, padding: Margins) -> (r: Self)
        ensures
            r == (Table { cell_padding: padding, ..self }),
    {
        Table { cell_padding: padding, ..self }
    }

    /// Replace all column specifications with the given ones.
    pub fn set_columns(self, columns: Vec<ColumnSpec>) -> (r: Self)
        ensures
            r.columns == columns,
            r.cell_padding == self.cell_padding,
            r.cells == self.cells,
            r.max_width == self.max_width,
    {
        let Table { cell_padding, cells, max_width, .. } = self;
        Table { columns, cell_padding, cells, max_width }
    }

    /// Add one column to the table.
    pub fn add_column(self, grow: bool, max_width: Option<Length>) -> (r: Self)
        ensures
            r.columns@.len() == self.columns@.len() + 1,
            forall|i: int| 0 <= i < self.columns@.len() ==> r.columns@[i] == self.columns@[i],
            r.columns@.last() == (ColumnSpec { grow, max_width }),
            r.cell_padding == self.cell_padding,
            r.cells == self.cells,
            r.max_width == self.max_width,
    {
        let Table { mut columns, cell_padding, cells, max_width: table_max_width } = self;
        columns.push(ColumnSpec { grow, max_width });
        Table { columns, cell_padding, cells, max_width: table_max_width }
    }

    /// Add a cell to the table.  Cells must be added in row-major order.
    pub fn add_cell(self, text: TextBox, alignment: TextAlignment, padding: Option<Margins>) -> (r:
        Self)
        ensures
            r.cells@.len() == self.cells@.len() + 1,
            forall|i: int| 0 <= i < self.cells@.len() ==> r.cells@[i] == self.cells@[i],
            r.cells@.last() == (TableCell { text, alignment, padding }),
            r.columns == self.columns,
            r.cell_padding == self.cell_padding,
            r.max_width == self.max_width,
    {
        let Table { columns, cell_padding, mut cells, max_width } = self;
        cells.push(TableCell { text, alignment, padding });
        Table { columns, cell_padding, cells, max_width }
    }

    /// Compute the layout of the table.
    ///
    /// An empty table — no columns or no cells — short-circuits to a
    /// layout with empty width and height vectors.  Otherwise the column
    /// widths are the columns' natural widths, distributed over the
    /// width budget if one is set; with a budget, every cell is
    /// constrained to its column's content width.  Each row's height is
    /// the largest demand among its cells.
    pub fn layout(self) -> (r: TableLayout)
        requires
            self.spec_wf(),
        ensures
            r.table.columns == self.columns,
            r.table.cell_padding == self.cell_padding,
            r.table.max_width == self.max_width,
            r.table.spec_wf(),
            r.spec_wf(),
            r.table.cells@.len() == self.cells@.len(),
            forall|i: int| 0 <= i < self.cells@.len() ==> cell_preserved(
                self.cells@[i],
                #[trigger] r.table.cells@[i],
            ),
            (self.columns@.len() == 0 || self.cells@.len() == 0) ==> (r.column_widths@.len() == 0
                && r.row_heights@.len() == 0 && r.table.cells@ == self.cells@),
            (self.columns@.len() > 0 && self.cells@.len() > 0) ==> {
                &&& len_views(r.column_widths@) == spec_column_widths(self)
                &&& r.row_heights@.len() == spec_rows(
                    self.cells@.len() as int,
                    self.columns@.len() as int,
                )
                &&& forall|rr: int|
                    0 <= rr < r.row_heights@.len() ==> #[trigger] r.row_heights@[rr]@
                        == spec_row_height(
                        self.cells@,
                        self.cell_padding,
                        self.columns@.len() as int,
                        rr,
                    )
                &&& match self.max_width {
                    Some(_) => forall|i: int|
                        0 <= i < self.cells@.len() ==> opt_len_view(
                            #[trigger] r.table.cells@[i].text.max_width,
                        ) == Some(
                            spec_column_widths(self)[i % (self.columns@.len() as int)] - pad_h(
                                cell_pad(self.cells@[i], self.cell_padding),
                            ),
                        ),
                    None => r.table.cells@ == self.cells@,
                }
            },
    {
        let mut table = self;
        if table.columns.len() == 0 || table.cells.len() == 0 {
            return TableLayout { table, column_widths: Vec::new(), row_heights: Vec::new() };
        }
        let column_count = table.columns.len();
        let ghost cells0 = table.cells@;
        let ghost default = table.cell_padding;
        let ghost cc = column_count as int;

        // Compute the natural width of every column.
        let mut natural_widths: Vec<Length> = Vec::new();
        let mut j: usize = 0;
        while j < column_count
            invariant
                j <= column_count,
                natural_widths@.len() == j,
                forall|t: int| 0 <= t < j ==> #[trigger] natural_widths@[t]@ == 0,
            decreases column_count - j,
        {
            natural_widths.push(Length::zero());
            j = j + 1;
        }
        let mut i: usize = 0;
        while i < table.cells.len()
            invariant
                i <= cells0.len(),
                table.cells@ == cells0,
                table.spec_wf(),
                default == table.cell_padding,
                column_count == table.columns@.len(),
                cc == column_count as int,
                column_count > 0,
                natural_widths@.len() == column_count,
                forall|t: int| 0 <= t < cc ==> #[trigger] natural_widths@[t]@ == col_natural_upto(
                    cells0,
                    default,
                    cc,
                    i as int,
                    t,
                ),
            decreases table.cells@.len() - i,
        {
            let column = i % column_count;
            let cell_w = {
                let cell = &table.cells[i];
                let padding = match &cell.padding {
                    Some(p) => p,
                    None => &table.cell_padding,
                };
                cell.text.compute_natural_width().add(padding.total_horizontal())
            };
            proof {
                lemma_col_natural_bounds(cells0, default, cc, i as int, column as int);
                vstd::arithmetic::div_mod::lemma_fundamental_div_mod(i as int, cc);
                vstd::arithmetic::div_mod::lemma_mod_pos_bound(i as int, cc);
            }
            let cur = natural_widths[column];
            let grown = cur.max(cell_w);
            natural_widths[column] = grown;
            proof {
                assert forall|t: int| 0 <= t < cc implies #[trigger] natural_widths@[t]@
                    == col_natural_upto(cells0, default, cc, i + 1, t) by {
                    if t != column as int {
                        assert(natural_widths@[t]@ == col_natural_upto(cells0, default, cc, i as int, t));
                    }
                }
            }
            i = i + 1;
        }
        proof {
            lemma_col_natural_bounds(cells0, default, cc, cells0.len() as int, 0);
            assert forall|t: int| 0 <= t < cc implies natural_in_range(
                #[trigger] natural_widths@[t]@,
            ) by {
                lemma_col_natural_bounds(cells0, default, cc, cells0.len() as int, t);
            }
            assert(len_views(natural_widths@) =~= spec_natural_widths(cells0, default, cc));
        }

        // Fix the column widths, and with a width budget constrain every
        // cell to its column's content width.
        let column_widths: Vec<Length>;
        if let Some(budget) = table.max_width {
            column_widths = divide_width(&table.columns, &natural_widths, budget);
            let mut i: usize = 0;
            while i < table.cells.len()
                invariant
                    i <= cells0.len(),
                    table.cells@.len() == cells0.len(),
                    table.columns@.len() == column_count,
                    cc == column_count as int,
                    column_count > 0,
                    table.cell_padding == default,
                    table.max_width == self.max_width,
                    table.columns == self.columns,
                    column_widths@.len() == column_count,
                    forall|t: int| 0 <= t < cc ==> 0 <= #[trigger] column_widths@[t]@ <= 4
                        * MAX_METRIC,
                    default@.in_range(),
                    forall|t: int| 0 <= t < cells0.len() ==> cell_wf(#[trigger] cells0[t]),
                    forall|t: int| i <= t < cells0.len() ==> #[trigger] table.cells@[t]
                        == cells0[t],
                    forall|t: int| 0 <= t < i ==> cell_preserved(
                        cells0[t],
                        #[trigger] table.cells@[t],
                    ),
                    forall|t: int| 0 <= t < i ==> cell_wf(#[trigger] table.cells@[t]),
                    forall|t: int| 0 <= t < i ==> opt_len_view(
                        #[trigger] table.cells@[t].text.max_width,
                    ) == Some(
                        column_widths@[t % cc]@ - pad_h(cell_pad(cells0[t], default)),
                    ),
                decreases cells0.len() - i,
            {
                let column = i % column_count;
                let padding_h = match &table.cells[i].padding {
                    Some(p) => p.total_horizontal(),
                    None => table.cell_padding.total_horizontal(),
                };
                let content_width = column_widths[column].sub(padding_h);
                DrawableMut::set_max_width(&mut table.cells[i].text, Some(content_width));
                i = i + 1;
            }
        } else {
            column_widths = natural_widths;
        }

        let ghost cells1 = table.cells@;
        proof {
            assert forall|t: int| 0 <= t < cells1.len() implies cell_preserved(
                cells0[t],
                #[trigger] cells1[t],
            ) && cell_wf(cells1[t]) by {
                if table.max_width is None {
                    assert(cells1[t] == cells0[t]);
                }
            }
        }

        let row_heights = compute_row_heights(&table.cells, table.cell_padding, column_count);
        proof {
            lemma_row_heights_congruent(cells0, cells1, default, cc);
        }
        TableLayout { table, column_widths, row_heights }
    }

    /// The number of rows the cells fill, counting a ragged last row.
    pub fn rows(&self) -> (r: usize)
        requires
            self.spec_wf(),
            self.cells@.len() > 0 ==> self.columns@.len() > 0,
        ensures
            r == if self.cells@.len() == 0 {
                0int
            } else {
                spec_rows(self.cells@.len() as int, self.columns@.len() as int)
            },
    {
        if self.cells.len() == 0 {
            0
        } else {
            (self.cells.len() + self.columns.len() - 1) / self.columns.len()
        }
    }
}

} // verus!
