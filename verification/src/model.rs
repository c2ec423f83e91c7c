//! The mathematical model of a row layout, over unbounded integers.
//!
//! The executable engine is specified against this model, and the lemmas
//! at the end of the file state what holds of every sequence of placements.

use vstd::prelude::*;
use crate::geometry::Box2D;

verus! {

/// One packing direction: where the next item goes, how many items were
/// placed, and how wide they are together, gaps not counted.
pub struct SegmentModel {
    pub x: int,
    pub count: nat,
    pub width: int,
}

impl SegmentModel {
    /// A segment without items whose cursor stands at `anchor`.
    pub open spec fn empty(anchor: int) -> SegmentModel {
        SegmentModel { x: anchor, count: 0, width: 0 }
    }

    /// The number of gaps between the items: one less than the number of
    /// items, and none in an empty segment.
    pub open spec fn gaps(self) -> nat {
        if self.count >= 1 {
            (self.count - 1) as nat
        } else {
            0
        }
    }

    /// The width that the items occupy with `gap` between each two of them.
    pub open spec fn occupied(self, gap: int) -> int {
        self.width + self.gaps() * gap
    }

    /// The segment after an item of `width` was placed and the cursor has
    /// moved by `advance`.
    pub open spec fn placed(self, width: int, advance: int) -> SegmentModel {
        SegmentModel { x: self.x + advance, count: self.count + 1, width: self.width + width }
    }
}

/// A row layout: the gap, the segment that grows from the left edge, the
/// segment that grows from the right edge, and the bounds it was made for.
pub struct LayoutModel {
    pub gap: int,
    pub start: SegmentModel,
    pub end: SegmentModel,
    pub bounds: Box2D,
}

impl LayoutModel {
    /// The layout of `bounds` before anything was placed, with no gap.
    pub open spec fn new(bounds: Box2D) -> LayoutModel {
        LayoutModel {
            gap: 0,
            start: SegmentModel::empty(bounds.min_x as int),
            end: SegmentModel::empty(bounds.max_x as int),
            bounds,
        }
    }

    /// The same layout with another gap. Cursors and counters stay.
    pub open spec fn set_gap(self, gap: int) -> LayoutModel {
        LayoutModel { gap, ..self }
    }

    /// Where the next item pushed at the start is placed.
    pub open spec fn start_position(self) -> int {
        self.start.x
    }

    /// The layout after an item of `width` was pushed at the start: the
    /// cursor moves right by the item and then by the gap.
    pub open spec fn push_start(self, width: int) -> LayoutModel {
        LayoutModel { start: self.start.placed(width, width + self.gap), ..self }
    }

    /// Where the left edge of the next item pushed at the end is placed,
    /// should it be `width` wide.
    pub open spec fn end_position(self, width: int) -> int {
        self.end.x - width
    }

    /// The layout after an item of `width` was pushed at the end: the
    /// cursor moves left by the item and then by the gap.
    pub open spec fn push_end(self, width: int) -> LayoutModel {
        LayoutModel { end: self.end.placed(width, -width - self.gap), ..self }
    }

    /// The width occupied at the start, inner gaps included.
    pub open spec fn start_width(self) -> int {
        self.start.occupied(self.gap)
    }

    /// The width occupied at the end, inner gaps included.
    pub open spec fn end_width(self) -> int {
        self.end.occupied(self.gap)
    }

    /// The offset from the left edge of the bounds at which an item of
    /// `width` is centred, counted in half units. The offset is half of the
    /// bounds' width less half of the item's, `(W - w) / 2`, which is
    /// `W - w` halves.
    pub open spec fn center_halves(self, width: int) -> int {
        self.bounds.spec_width() - width
    }

    /// The layout after the items of `widths` were pushed at the start,
    /// first to last.
    pub open spec fn push_start_all(self, widths: Seq<int>) -> LayoutModel
        decreases widths.len(),
    {
        if widths.len() == 0 {
            self
        } else {
            self.push_start_all(widths.drop_last()).push_start(widths.last())
        }
    }

    /// The layout after the items of `widths` were pushed at the end,
    /// first to last.
    pub open spec fn push_end_all(self, widths: Seq<int>) -> LayoutModel
        decreases widths.len(),
    {
        if widths.len() == 0 {
            self
        } else {
            self.push_end_all(widths.drop_last()).push_end(widths.last())
        }
    }
}

/// The sum of `widths`.
pub open spec fn total(widths: Seq<int>) -> int
    decreases widths.len(),
{
    if widths.len() == 0 {
        0
    } else {
        total(widths.drop_last()) + widths.last()
    }
}

/// `n` items, each `width` wide.
pub open spec fn uniform(n: nat, width: int) -> Seq<int> {
    Seq::new(n, |i: int| width)
}

/// `n` items of one width are together `n` times as wide.
pub proof fn lemma_total_uniform(n: nat, width: int)
    ensures
        total(uniform(n, width)) == n * width,
    decreases n,
{
    if n == 0 {
        assert(n * width == 0) by (nonlinear_arith)
            requires
                n == 0,
        ;
    } else {
        let shorter = (n - 1) as nat;
        lemma_total_uniform(shorter, width);
        assert(uniform(n, width).drop_last() =~= uniform(shorter, width));
        assert(uniform(n, width).last() == width);
        assert(n * width == shorter * width + width) by (nonlinear_arith)
            requires
                n == shorter + 1,
        ;
    }
}

/// Pushing at the start moves the start cursor by every item and by one gap
/// after each, counts every item, adds up the widths, and leaves the rest of
/// the layout as it was.
pub proof fn lemma_push_start_all(m: LayoutModel, widths: Seq<int>)
    ensures
        m.push_start_all(widths).start.x == m.start.x + total(widths) + widths.len() * m.gap,
        m.push_start_all(widths).start.count == m.start.count + widths.len(),
        m.push_start_all(widths).start.width == m.start.width + total(widths),
        m.push_start_all(widths).gap == m.gap,
        m.push_start_all(widths).end == m.end,
        m.push_start_all(widths).bounds == m.bounds,
    decreases widths.len(),
{
    if widths.len() > 0 {
        let shorter = widths.drop_last();
        lemma_push_start_all(m, shorter);
        assert(widths.len() * m.gap == shorter.len() * m.gap + m.gap) by (nonlinear_arith)
            requires
                widths.len() == shorter.len() + 1,
        ;
    }
}

/// Pushing at the end moves the end cursor left by every item and by one
/// gap after each, counts every item, adds up the widths, and leaves the
/// rest of the layout as it was.
pub proof fn lemma_push_end_all(m: LayoutModel, widths: Seq<int>)
    ensures
        m.push_end_all(widths).end.x == m.end.x - total(widths) - widths.len() * m.gap,
        m.push_end_all(widths).end.count == m.end.count + widths.len(),
        m.push_end_all(widths).end.width == m.end.width + total(widths),
        m.push_end_all(widths).gap == m.gap,
        m.push_end_all(widths).start == m.start,
        m.push_end_all(widths).bounds == m.bounds,
    decreases widths.len(),
{
    if widths.len() > 0 {
        let shorter = widths.drop_last();
        lemma_push_end_all(m, shorter);
        assert(widths.len() * m.gap == shorter.len() * m.gap + m.gap) by (nonlinear_arith)
            requires
                widths.len() == shorter.len() + 1,
        ;
    }
}

/// After `n` items of one width were pushed at the start of a new layout,
/// whatever its bounds and its gap, the start is as wide as the `n` items
/// and the `n - 1` gaps between them; with no item it is 0 wide.
pub proof fn lemma_start_width_of_uniform_items(bounds: Box2D, gap: int, n: nat, width: int)
    ensures
        LayoutModel::new(bounds).set_gap(gap).push_start_all(uniform(n, width)).start_width()
            == n * width + (if n >= 1 { n - 1 } else { 0 }) * gap,
{
    let m = LayoutModel::new(bounds).set_gap(gap);
    lemma_push_start_all(m, uniform(n, width));
    lemma_total_uniform(n, width);
}

/// The same holds at the end: after `n` items of one width the end is as
/// wide as the `n` items and the `n - 1` gaps between them.
pub proof fn lemma_end_width_of_uniform_items(bounds: Box2D, gap: int, n: nat, width: int)
    ensures
        LayoutModel::new(bounds).set_gap(gap).push_end_all(uniform(n, width)).end_width()
            == n * width + (if n >= 1 { n - 1 } else { 0 }) * gap,
{
    let m = LayoutModel::new(bounds).set_gap(gap);
    lemma_push_end_all(m, uniform(n, width));
    lemma_total_uniform(n, width);
}

/// Pushing one sequence of widths at the start and at the end of a new
/// layout gives mirrored placements: item `k` at the end lies as far from
/// the right edge of the bounds as item `k` at the start lies from the
/// left edge, so its left edge is at
/// `max_x - (start position - min_x) - width`.
pub proof fn lemma_start_end_mirrored(bounds: Box2D, gap: int, widths: Seq<int>, k: int)
    requires
        0 <= k < widths.len(),
    ensures
        ({
            let m = LayoutModel::new(bounds).set_gap(gap);
            let before = widths.take(k);
            m.push_end_all(before).end_position(widths[k]) == bounds.max_x - (m.push_start_all(
                before,
            ).start_position() - bounds.min_x) - widths[k]
        }),
{
    let m = LayoutModel::new(bounds).set_gap(gap);
    lemma_push_start_all(m, widths.take(k));
    lemma_push_end_all(m, widths.take(k));
}

/// While the gap stays the same, each cursor stands where the occupied
/// width ends, moved on by one gap once anything was placed: the items at
/// the start fill `start_width()` from the left edge of the bounds, and the
/// items at the end fill `end_width()` up to the right edge.
pub proof fn lemma_cursors_follow_occupied_widths(
    bounds: Box2D,
    gap: int,
    starts: Seq<int>,
    ends: Seq<int>,
)
    ensures
        ({
            let m = LayoutModel::new(bounds).set_gap(gap).push_start_all(starts).push_end_all(ends);
            &&& m.start.x == bounds.min_x + m.start_width() + (if starts.len() >= 1 {
                gap
            } else {
                0
            })
            &&& m.end.x == bounds.max_x - m.end_width() - (if ends.len() >= 1 {
                gap
            } else {
                0
            })
        }),
{
    let fresh = LayoutModel::new(bounds).set_gap(gap);
    let started = fresh.push_start_all(starts);
    lemma_push_start_all(fresh, starts);
    lemma_push_end_all(started, ends);
    assert(starts.len() * gap == (starts.len() - 1) * gap + gap) by (nonlinear_arith);
    assert(ends.len() * gap == (ends.len() - 1) * gap + gap) by (nonlinear_arith);
}

/// An item and a gap that are not negative never move a cursor back
/// towards its edge: the start cursor does not move left, the end cursor
/// does not move right.
pub proof fn lemma_cursors_move_away_from_edges(m: LayoutModel, width: int)
    requires
        width >= 0,
        m.gap >= 0,
    ensures
        m.push_start(width).start.x >= m.start.x,
        m.push_end(width).end.x <= m.end.x,
        m.push_start(width).start_position() >= m.start_position() + width,
        m.push_end(width).end_position(0) <= m.end_position(width),
{
}

/// A new layout occupies no width at either edge, whatever the gap.
pub proof fn lemma_new_layout_is_empty(bounds: Box2D, gap: int)
    ensures
        LayoutModel::new(bounds).start_width() == 0,
        LayoutModel::new(bounds).end_width() == 0,
        LayoutModel::new(bounds).set_gap(gap).start_width() == 0,
        LayoutModel::new(bounds).set_gap(gap).end_width() == 0,
{
}

/// Centring depends on the bounds and the item alone: no placement and no
/// change of gap moves the centre.
pub proof fn lemma_center_ignores_placements(m: LayoutModel, width: int, pushed: int, gap: int)
    ensures
        m.push_start(pushed).center_halves(width) == m.center_halves(width),
        m.push_end(pushed).center_halves(width) == m.center_halves(width),
        m.set_gap(gap).center_halves(width) == m.center_halves(width),
        m.center_halves(width) == LayoutModel::new(m.bounds).center_halves(width),
{
}

/// No sequence of placements moves the centre either.
pub proof fn lemma_center_ignores_sequences(
    m: LayoutModel,
    width: int,
    starts: Seq<int>,
    ends: Seq<int>,
)
    ensures
        m.push_start_all(starts).push_end_all(ends).center_halves(width) == m.center_halves(width),
{
    lemma_push_start_all(m, starts);
    lemma_push_end_all(m.push_start_all(starts), ends);
}

/// A centred item has as much of the bounds to its left as to its right:
/// the offset, the item and the offset once more fill the bounds' width.
/// In half units the offset is therefore exactly half of the bounds' width
/// less half of the item's, and where the room that the item leaves is even
/// it is that many whole units.
pub proof fn lemma_center_leaves_equal_margins(m: LayoutModel, width: int)
    ensures
        m.center_halves(width) + 2 * width + m.center_halves(width) == 2 * m.bounds.spec_width(),
        m.center_halves(width) == 2 * m.bounds.spec_width() / 2 - 2 * width / 2,
        (m.bounds.spec_width() - width) % 2 == 0
            ==> m.center_halves(width) == 2 * ((m.bounds.spec_width() - width) / 2),
{
}

/// An item of no width is an item all the same: it is counted, the cursor
/// moves by the gap, and the segment grows by a gap unless the item is the
/// first in it.
pub proof fn lemma_empty_item_is_placed(m: LayoutModel)
    ensures
        m.push_start(0).start.count == m.start.count + 1,
        m.push_start(0).start_position() == m.start_position() + m.gap,
        m.push_start(0).start_width() == m.start_width() + (if m.start.count >= 1 {
            m.gap
        } else {
            0
        }),
        m.push_end(0).end.count == m.end.count + 1,
        m.push_end(0).end_position(0) == m.end_position(0) - m.gap,
        m.push_end(0).end_width() == m.end_width() + (if m.end.count >= 1 {
            m.gap
        } else {
            0
        }),
{
    assert(m.start.count * m.gap == (m.start.count - 1) * m.gap + m.gap) by (nonlinear_arith);
    assert(m.end.count * m.gap == (m.end.count - 1) * m.gap + m.gap) by (nonlinear_arith);
}

} // verus!
