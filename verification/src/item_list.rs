//! A bulleted list: a vertical stack of elements behind a shared bullet
//! column.
//!
//! The list is vertically stacked, so its width is bounded by the widest
//! item — not their sum — while its height accumulates.  The list keeps
//! running maxima of its items' natural and minimum widths.

use vstd::prelude::*;

use crate::drawable::Drawable;
use crate::drawable::DrawableMut;
use crate::drawable::MAX_CHILDREN;
use crate::element::Element;
use crate::element::lemma_rel_preserves_widths;
use crate::length::Length;
use crate::length::MAX_METRIC;
use crate::length::metric_in_range;
use crate::length::opt_len_view;
use crate::style::FontSpec;
use crate::text_box::TextBox;
use crate::vector2::Vector2;
use crate::vector2::Vector2View;

verus! {

/// The largest natural width over a sequence of elements (zero if empty).
pub open spec fn max_natural_width(items: Seq<Element>) -> int
    decreases items.len(),
{
    if items.len() == 0 {
        0
    } else {
        let rest = max_natural_width(items.drop_last());
        let last = items.last().spec_natural_width();
        if last >= rest {
            last
        } else {
            rest
        }
    }
}

/// The largest minimum width over a sequence of elements (zero if empty).
pub open spec fn max_min_width(items: Seq<Element>) -> int
    decreases items.len(),
{
    if items.len() == 0 {
        0
    } else {
        let rest = max_min_width(items.drop_last());
        let last = items.last().spec_min_width();
        if last >= rest {
            last
        } else {
            rest
        }
    }
}

/// The largest current width over a sequence of elements (zero if empty).
pub open spec fn max_item_width(items: Seq<Element>) -> int
    decreases items.len(),
{
    if items.len() == 0 {
        0
    } else {
        let rest = max_item_width(items.drop_last());
        let last = items.last().spec_size().x;
        if last >= rest {
            last
        } else {
            rest
        }
    }
}

/// The sum of the current heights of a sequence of elements.
pub open spec fn sum_heights(items: Seq<Element>) -> int
    decreases items.len(),
{
    if items.len() == 0 {
        0
    } else {
        sum_heights(items.drop_last()) + items.last().spec_size().y
    }
}

/// All elements of the sequence are well-formed.
pub open spec fn all_wf(items: Seq<Element>) -> bool {
    forall|i: int| 0 <= i < items.len() ==> (#[trigger] items[i]).wf()
}

/// Over well-formed elements, the folds above stay within easy bounds:
/// each maximum is a metric, and the height sum is bounded by the count
/// times the metric bound.
proof fn lemma_fold_bounds(items: Seq<Element>)
    requires
        all_wf(items),
    ensures
        metric_in_range(max_natural_width(items)),
        metric_in_range(max_min_width(items)),
        metric_in_range(max_item_width(items)),
        0 <= sum_heights(items) <= items.len() * MAX_METRIC,
    decreases items.len(),
{
    if items.len() > 0 {
        assert(all_wf(items.drop_last()));
        lemma_fold_bounds(items.drop_last());
        items.last().extents_in_range();
        assert((items.len() - 1) * MAX_METRIC + MAX_METRIC == items.len() * MAX_METRIC)
            by (nonlinear_arith);
    }
}

/// A bullet glyph for a list: a text box holding the bullet character
/// in the given font, with no measurements yet — the text backend
/// measures it before the list is built around it.
pub fn bullet_text_box(font: FontSpec) -> (r: TextBox)
    ensures
        r.text@.len() == 1,
        r.text@[0] == '\u{2022}',
        r.metrics.is_zero(),
        r.max_width is None,
        r.wf(),
        r.style.font.family@ == font.family@,
        r.style.font.size == font.size,
        r.style.font.weight == font.weight,
        r.style.font.style == font.style,
{
    proof {
        reveal_strlit("\u{2022}");
    }
    TextBox::new().set_text("\u{2022}".to_owned()).set_font(font)
}

/// A bulleted list of elements.
pub struct ItemList {
    /// The bullet glyph, shared by every item.
    pub bullet: TextBox,
    /// The width of the bullet column, fixed at construction.
    pub bullet_width: Length,
    /// The gap between the bullet column and the items.
    pub bullet_spacing: Length,
    /// The stacked items.
    pub items: Vec<Element>,
    /// The width constraint of the whole list.
    pub max_width: Option<Length>,
    /// Running maximum of the items' minimum widths.
    pub min_text_width: Length,
    /// Running maximum of the items' natural widths.
    pub natural_text_width: Length,
}

impl ItemList {
    /// Create a list around the given, already measured bullet glyph.
    /// The bullet spacing starts out equal to the bullet width.
    pub fn new(bullet: TextBox) -> (r: Self)
        requires
            bullet.wf(),
        ensures
            r.wf(),
            r.bullet == bullet,
            r.bullet_width@ == bullet.spec_size().x,
            r.bullet_spacing@ == bullet.spec_size().x,
            r.items@.len() == 0,
            r.max_width is None,
            r.min_text_width@ == 0,
            r.natural_text_width@ == 0,
    {
        let bullet_width = bullet.compute_width();
        ItemList {
            bullet,
            bullet_width,
            bullet_spacing: bullet_width,
            items: Vec::new(),
            max_width: None,
            min_text_width: Length::zero(),
            natural_text_width: Length::zero(),
        }
    }

    /// Whether the list's cached maxima agree with its items and all
    /// extents are sound for layout arithmetic.
    pub open spec fn spec_wf(&self) -> bool {
        &&& self.bullet.wf()
        &&& metric_in_range(self.bullet_width@)
        &&& metric_in_range(self.bullet_spacing@)
        &&& self.items@.len() <= MAX_CHILDREN
        &&& all_wf(self.items@)
        &&& self.min_text_width@ == max_min_width(self.items@)
        &&& self.natural_text_width@ == max_natural_width(self.items@)
    }

    /// Get the items of the list.
    pub fn items(&self) -> (r: &Vec<Element>)
        ensures
            r == &self.items,
    {
        &self.items
    }

    /// Whether the list has no items.
    pub fn is_empty(&self) -> (r: bool)
        ensures
            r == (self.items@.len() == 0),
    {
        self.items.len() == 0
    }

    /// Remove all items; the cached maxima return to zero.
    pub fn clear(&mut self)
        ensures
            final(self).items@.len() == 0,
            final(self).min_text_width@ == 0,
            final(self).natural_text_width@ == 0,
            final(self).bullet == old(self).bullet,
            final(self).bullet_width == old(self).bullet_width,
            final(self).bullet_spacing == old(self).bullet_spacing,
            final(self).max_width == old(self).max_width,
            old(self).spec_wf() ==> final(self).spec_wf(),
    {
        self.items.clear();
        self.min_text_width = Length::zero();
        self.natural_text_width = Length::zero();
    }

    /// Add an item to the end of the list.
    ///
    /// The cached maxima absorb the item's natural and minimum width,
    /// and the list's width constraint is forwarded to the item as it
    /// stands.  Unlike [`DrawableMut::set_max_width`] on the list, which
    /// reserves the bullet column and its spacing before forwarding,
    /// adding hands the constraint on unreduced — long-standing behavior
    /// this library keeps.  Set the list's constraint after adding items
    /// to give every item the reduced width.
    pub fn add_item(self, item: Element) -> (r: Self)
        requires
            self.wf(),
            item.wf(),
            self.items@.len() < MAX_CHILDREN,
            item.set_max_width_ok(opt_len_view(self.max_width)),
        ensures
            r.wf(),
            r.bullet == self.bullet,
            r.bullet_width == self.bullet_width,
            r.bullet_spacing == self.bullet_spacing,
            r.max_width == self.max_width,
            r.items@.len() == self.items@.len() + 1,
            forall|i: int| 0 <= i < self.items@.len() ==> r.items@[i] == self.items@[i],
            item.with_max_width_rel(&r.items@.last(), opt_len_view(self.max_width)),
            r.natural_text_width@ == if item.spec_natural_width() >= self.natural_text_width@ {
                item.spec_natural_width()
            } else {
                self.natural_text_width@
            },
            r.min_text_width@ == if item.spec_min_width() >= self.min_text_width@ {
                item.spec_min_width()
            } else {
                self.min_text_width@
            },
    {
        let mut new_item = item;
        proof {
            new_item.extents_in_range();
        }
        let natural_text_width = self.natural_text_width.max(new_item.compute_natural_width());
        let min_text_width = self.min_text_width.max(new_item.min_width());
        new_item.set_max_width(self.max_width);
        proof {
            lemma_rel_preserves_widths(&item, &new_item, opt_len_view(self.max_width));
        }
        let ItemList { bullet, bullet_width, bullet_spacing, mut items, max_width, .. } = self;
        items.push(new_item);
        proof {
            assert(items@.drop_last() == self.items@);
        }
        ItemList {
            bullet,
            bullet_width,
            bullet_spacing,
            items,
            max_width,
            min_text_width,
            natural_text_width,
        }
    }
}

/// The width constraint a list forwards to its items: the list's own
/// constraint less the bullet column and its spacing.
pub open spec fn child_width(width: Option<int>, bullet_width: int, bullet_spacing: int) -> Option<
    int,
> {
    match width {
        Some(w) => Some(w - bullet_width - bullet_spacing),
        None => None,
    }
}

/// Where one item of a list is drawn: the bullet at the left edge of the
/// current vertical cursor, the item moved right past the bullet column.
#[derive(Debug, Clone, Copy, PartialEq, Eq, Structural)]
pub struct ItemPlacement {
    pub bullet_position: Vector2,
    pub item_position: Vector2,
}

impl ItemList {
    /// Where the bullet and the item of entry `i` land when the list is
    /// drawn at `origin`: both sit below the items before them, the
    /// bullet at the left edge, the item moved right past the bullet
    /// column and its spacing.
    pub open spec fn spec_placement(&self, origin: Vector2View, i: int) -> ItemPlacement {
        let y = origin.y + sum_heights(self.items@.subrange(0, i));
        ItemPlacement {
            bullet_position: Vector2 {
                x: Length::spec_from_subunits(origin.x),
                y: Length::spec_from_subunits(y),
            },
            item_position: Vector2 {
                x: Length::spec_from_subunits(
                    origin.x + self.bullet_width@ + self.bullet_spacing@,
                ),
                y: Length::spec_from_subunits(y),
            },
        }
    }

    /// Compute, for every item in order, where its bullet and its
    /// content are drawn when the list is drawn at `position`.
    pub fn placements(&self, position: Vector2) -> (r: Vec<ItemPlacement>)
        requires
            self.wf(),
            -0x2000_0000_0000_0000 <= position@.x <= 0x2000_0000_0000_0000,
            -0x2000_0000_0000_0000 <= position@.y <= 0x2000_0000_0000_0000,
        ensures
            r@.len() == self.items@.len(),
            forall|i: int| 0 <= i < r@.len() ==> #[trigger] r@[i] == self.spec_placement(
                position@,
                i,
            ),
    {
        let ghost items = self.items@;
        proof {
            lemma_fold_bounds(items);
        }
        let item_x = position.x.add(self.bullet_width).add(self.bullet_spacing);
        let mut placements: Vec<ItemPlacement> = Vec::new();
        let mut y = position.y;
        let mut i: usize = 0;
        while i < self.items.len()
            invariant
                i <= items.len(),
                self.items@ == items,
                self.wf(),
                -0x2000_0000_0000_0000 <= position@.x <= 0x2000_0000_0000_0000,
                -0x2000_0000_0000_0000 <= position@.y <= 0x2000_0000_0000_0000,
                item_x@ == position@.x + self.bullet_width@ + self.bullet_spacing@,
                y@ == position@.y + sum_heights(items.subrange(0, i as int)),
                0 <= sum_heights(items.subrange(0, i as int)) <= i * MAX_METRIC,
                placements@.len() == i,
                forall|t: int| 0 <= t < i ==> #[trigger] placements@[t] == self.spec_placement(
                    position@,
                    t,
                ),
            decreases items.len() - i,
        {
            placements.push(ItemPlacement {
                bullet_position: Vector2::new(position.x, y),
                item_position: Vector2::new(item_x, y),
            });
            let height = self.items[i].compute_height();
            proof {
                self.items@[i as int].extents_in_range();
                lemma_fold_bounds(items.subrange(0, i as int));
                assert(items.subrange(0, i + 1).drop_last() == items.subrange(0, i as int));
                assert(i * MAX_METRIC + MAX_METRIC == (i + 1) * MAX_METRIC) by (nonlinear_arith);
                assert((i + 1) * MAX_METRIC <= MAX_CHILDREN * MAX_METRIC) by (nonlinear_arith)
                    requires
                        0 <= i + 1 <= MAX_CHILDREN,
                ;
                broadcast use crate::length::lemma_length_view_injective;

                Length::lemma_from_subunits_view(position@.x);
                Length::lemma_from_subunits_view(
                    position@.x + self.bullet_width@ + self.bullet_spacing@,
                );
                Length::lemma_from_subunits_view(
                    position@.y + sum_heights(items.subrange(0, i as int)),
                );
            }
            y = y.add(height);
            i = i + 1;
        }
        placements
    }
}

impl Drawable for ItemList {
    open spec fn wf(&self) -> bool {
        self.spec_wf()
    }

    open spec fn spec_max_width(&self) -> Option<int> {
        opt_len_view(self.max_width)
    }

    open spec fn spec_size(&self) -> Vector2View {
        if self.items@.len() == 0 {
            Vector2View { x: 0, y: 0 }
        } else {
            Vector2View {
                x: max_item_width(self.items@) + self.bullet_width@ + self.bullet_spacing@,
                y: sum_heights(self.items@),
            }
        }
    }

    open spec fn spec_baseline(&self) -> Option<int> {
        if self.items@.len() == 0 {
            None
        } else {
            self.items@[0].spec_baseline()
        }
    }

    open spec fn spec_natural_width(&self) -> int {
        if self.items@.len() == 0 {
            0
        } else {
            max_natural_width(self.items@) + self.bullet_width@ + self.bullet_spacing@
        }
    }

    open spec fn spec_min_width(&self) -> int {
        if self.items@.len() == 0 {
            0
        } else {
            max_min_width(self.items@) + self.bullet_width@ + self.bullet_spacing@
        }
    }

    proof fn wf_bounds(&self) {
        lemma_fold_bounds(self.items@);
    }

    fn min_width(&self) -> (r: Length) {
        if self.is_empty() {
            Length::zero()
        } else {
            proof {
                lemma_fold_bounds(self.items@);
            }
            self.min_text_width.add(self.bullet_width).add(self.bullet_spacing)
        }
    }

    fn max_width(&self) -> (r: Option<Length>) {
        self.max_width
    }

    fn compute_size(&self) -> (r: Vector2) {
        if self.is_empty() {
            return Vector2::zero();
        }
        proof {
            lemma_fold_bounds(self.items@);
        }
        let ghost items = self.items@;
        let mut width = Length::zero();
        let mut height = Length::zero();
        let mut i: usize = 0;
        while i < self.items.len()
            invariant
                i <= items.len(),
                self.items@ == items,
                self.wf(),
                width@ == max_item_width(items.subrange(0, i as int)),
                height@ == sum_heights(items.subrange(0, i as int)),
                metric_in_range(width@),
                0 <= height@ <= i * MAX_METRIC,
                items.len() <= MAX_CHILDREN,
            decreases items.len() - i,
        {
            let item_size = self.items[i].compute_size();
            proof {
                self.items@[i as int].extents_in_range();
                lemma_fold_bounds(items.subrange(0, i as int));
                assert(items.subrange(0, i + 1).drop_last() == items.subrange(0, i as int));
                assert((i + 1) * MAX_METRIC == i * MAX_METRIC + MAX_METRIC) by (nonlinear_arith);
                assert(i * MAX_METRIC <= MAX_CHILDREN * MAX_METRIC) by (nonlinear_arith)
                    requires
                        0 <= i <= MAX_CHILDREN,
                ;
            }
            width = width.max(item_size.x);
            height = height.add(item_size.y);
            i = i + 1;
        }
        proof {
            assert(items.subrange(0, items.len() as int) == items);
            lemma_fold_bounds(items);
        }
        width = width.add(self.bullet_width).add(self.bullet_spacing);
        Vector2::new(width, height)
    }

    fn compute_width(&self) -> (r: Length) {
        self.compute_size().x
    }

    fn compute_height(&self) -> (r: Length) {
        self.compute_size().y
    }

    fn compute_baseline(&self) -> (r: Option<Length>) {
        if self.is_empty() {
            None
        } else {
            self.items[0].compute_baseline()
        }
    }

    fn compute_natural_width(&self) -> (r: Length) {
        if self.is_empty() {
            Length::zero()
        } else {
            proof {
                lemma_fold_bounds(self.items@);
            }
            self.natural_text_width.add(self.bullet_width).add(self.bullet_spacing)
        }
    }
}

/// Pointwise preserved natural and minimum widths leave the running
/// maxima unchanged.
proof fn lemma_folds_congruent(a: Seq<Element>, b: Seq<Element>)
    requires
        a.len() == b.len(),
        forall|i: int| 0 <= i < a.len() ==> #[trigger] b[i].spec_natural_width()
            == a[i].spec_natural_width() && b[i].spec_min_width() == a[i].spec_min_width(),
    ensures
        max_natural_width(a) == max_natural_width(b),
        max_min_width(a) == max_min_width(b),
    decreases a.len(),
{
    if a.len() > 0 {
        lemma_folds_congruent(a.drop_last(), b.drop_last());
    }
}

impl DrawableMut for ItemList {
    open spec fn set_max_width_ok(&self, width: Option<int>) -> bool {
        let forwarded = child_width(width, self.bullet_width@, self.bullet_spacing@);
        &&& match width {
            Some(w) => i64::MIN <= w - self.bullet_width@ <= i64::MAX && i64::MIN <= w
                - self.bullet_width@ - self.bullet_spacing@ <= i64::MAX,
            None => true,
        }
        &&& forall|i: int| 0 <= i < self.items@.len() ==> (#[trigger] self.items@[i]).set_max_width_ok(
            forwarded,
        )
    }

    open spec fn with_max_width_rel(&self, new: &Self, width: Option<int>) -> bool {
        let forwarded = child_width(width, self.bullet_width@, self.bullet_spacing@);
        &&& new.bullet == self.bullet
        &&& new.bullet_width == self.bullet_width
        &&& new.bullet_spacing == self.bullet_spacing
        &&& new.min_text_width == self.min_text_width
        &&& new.natural_text_width == self.natural_text_width
        &&& opt_len_view(new.max_width) == width
        &&& new.items@.len() == self.items@.len()
        &&& forall|i: int| 0 <= i < self.items@.len() ==> (#[trigger] self.items@[i]).with_max_width_rel(
            &new.items@[i],
            forwarded,
        )
    }

    fn set_max_width(&mut self, width: Option<Length>) {
        let max_text_width = match width {
            Some(w) => Some(w.sub(self.bullet_width).sub(self.bullet_spacing)),
            None => None,
        };
        let ghost orig = *old(self);
        let ghost forwarded = child_width(
            opt_len_view(width),
            orig.bullet_width@,
            orig.bullet_spacing@,
        );
        proof {
            assert(opt_len_view(max_text_width) == forwarded);
        }
        let mut i: usize = 0;
        while i < self.items.len()
            invariant
                i <= orig.items@.len(),
                self.items@.len() == orig.items@.len(),
                self.bullet == orig.bullet,
                self.bullet_width == orig.bullet_width,
                self.bullet_spacing == orig.bullet_spacing,
                self.min_text_width == orig.min_text_width,
                self.natural_text_width == orig.natural_text_width,
                self.max_width == orig.max_width,
                orig.wf(),
                opt_len_view(max_text_width) == forwarded,
                forall|t: int| 0 <= t < orig.items@.len() ==> (
                #[trigger] orig.items@[t]).set_max_width_ok(forwarded),
                forall|t: int| i <= t < orig.items@.len() ==> #[trigger] self.items@[t]
                    == orig.items@[t],
                forall|t: int| 0 <= t < i ==> (#[trigger] orig.items@[t]).with_max_width_rel(
                    &self.items@[t],
                    forwarded,
                ),
                forall|t: int| 0 <= t < i ==> (#[trigger] self.items@[t]).wf(),
            decreases orig.items@.len() - i,
        {
            self.items[i].set_max_width(max_text_width);
            i = i + 1;
        }
        self.max_width = width;
        proof {
            assert forall|t: int| 0 <= t < self.items@.len() implies (
            #[trigger] self.items@[t]).spec_natural_width() == orig.items@[t].spec_natural_width()
                && self.items@[t].spec_min_width() == orig.items@[t].spec_min_width()
                && self.items@[t].wf() by {
                lemma_rel_preserves_widths(&orig.items@[t], &self.items@[t], forwarded);
            }
            lemma_folds_congruent(orig.items@, self.items@);
        }
    }
}

} // verus!
