//! The row layout engine.

use vstd::prelude::*;
use crate::geometry::{box2d_to_rect, rect_to_box2d, Box2D, HalfUnits, Rect};
use crate::model::{LayoutModel, SegmentModel};

verus! {

/// The farthest a cursor can move in one placement: the widest item and the
/// widest gap.
const MAX_STEP: i128 = 0x1_0000_0000;

/// The widest item, in absolute value.
const MAX_ITEM: i128 = 0x8000_0000;

#[derive(Debug)]
struct RowSegment {
    x: i128,
    count: usize,
    width: i128,
}

impl RowSegment {
    spec fn model(self) -> SegmentModel {
        SegmentModel { x: self.x as int, count: self.count as nat, width: self.width as int }
    }

    /// The cursor is no farther from `anchor`, and the items are together
    /// no wider, than `count` placements can bring about.
    spec fn within_reach(self, anchor: int) -> bool {
        &&& anchor - self.count * MAX_STEP <= self.x <= anchor + self.count * MAX_STEP
        &&& -(self.count * MAX_ITEM) <= self.width <= self.count * MAX_ITEM
    }

    /// The width that the items occupy with `gap` between each two of them.
    fn occupied(&self, gap: i32) -> (width: i128)
        requires
            -(self.count * MAX_ITEM) <= self.width <= self.count * MAX_ITEM,
        ensures
            width == self.model().occupied(gap as int),
    {
        let gaps: usize = self.count.saturating_sub(1);
        assert(-(gaps * MAX_ITEM) <= gaps * gap <= gaps * MAX_ITEM) by (nonlinear_arith)
            requires
                0 <= gaps,
                -MAX_ITEM <= gap <= MAX_ITEM,
        ;
        self.width + gaps as i128 * gap as i128
    }
}

/// Packs items of known width into a row, from the left edge rightwards and
/// from the right edge leftwards, with a uniform gap between neighbours of
/// one direction.
#[derive(Debug)]
pub struct RowLayout {
    gap: i32,
    start: RowSegment,
    end: RowSegment,
    bounds: Box2D,
}

impl View for RowLayout {
    type V = LayoutModel;

    closed spec fn view(&self) -> LayoutModel {
        LayoutModel {
            gap: self.gap as int,
            start: self.start.model(),
            end: self.end.model(),
            bounds: self.bounds,
        }
    }
}

impl RowLayout {
    #[verifier::type_invariant]
    spec fn inv(self) -> bool {
        &&& self.bounds.is_rect()
        &&& self.start.within_reach(self.bounds.min_x as int)
        &&& self.end.within_reach(self.bounds.max_x as int)
    }

    /// A layout for `bounds` with nothing placed and no gap.
    pub fn new(bounds: Rect) -> (layout: Self)
        ensures
            layout@ == LayoutModel::new(bounds.spec_to_box2d()),
    {
        let bounds = rect_to_box2d(&bounds);
        Self {
            gap: 0,
            start: RowSegment { x: bounds.min_x, count: 0, width: 0 },
            end: RowSegment { x: bounds.max_x, count: 0, width: 0 },
            bounds,
        }
    }

    /// The number of items placed at the start.
    pub fn start_count(&self) -> (count: usize)
        ensures
            count == self@.start.count,
    {
        self.start.count
    }

    /// The number of items placed at the end.
    pub fn end_count(&self) -> (count: usize)
        ensures
            count == self@.end.count,
    {
        self.end.count
    }

    /// Sets the gap that later placements leave behind them and that the
    /// width queries count between items. What was placed stays where it is.
    pub fn set_gap(&mut self, gap: i32)
        ensures
            final(self)@ == old(self)@.set_gap(gap as int),
    {
        proof {
            use_type_invariant(&*self);
        }
        self.gap = gap;
    }

    /// The width occupied at the start: the items' widths and one gap
    /// between each two of them.
    pub fn start_width(&self) -> (width: i128)
        ensures
            width == self@.start_width(),
            self@.start.count <= 1 ==> width == self@.start.width,
    {
        proof {
            use_type_invariant(self);
        }
        self.start.occupied(self.gap)
    }

    /// The width occupied at the end: the items' widths and one gap between
    /// each two of them.
    pub fn end_width(&self) -> (width: i128)
        ensures
            width == self@.end_width(),
            self@.end.count <= 1 ==> width == self@.end.width,
    {
        proof {
            use_type_invariant(self);
        }
        self.end.occupied(self.gap)
    }

    /// Places an item of `width` after the items already at the start and
    /// returns the coordinate of its left edge.
    pub fn push_start(&mut self, width: i32) -> (x: i128)
        requires
            old(self)@.start.count < usize::MAX,
        ensures
            x == old(self)@.start_position(),
            final(self)@ == old(self)@.push_start(width as int),
    {
        proof {
            use_type_invariant(&*self);
        }
        let x = self.start.x;
        self.start = RowSegment {
            x: x + width as i128 + self.gap as i128,
            count: self.start.count + 1,
            width: self.start.width + width as i128,
        };
        x
    }

    /// The offset from the left edge of the bounds at which an item of
    /// `width` is centred in them, in half units: half of the bounds' width
    /// less half of the item's. Nothing is placed and nothing changes.
    pub fn set_center(&mut self, width: i32) -> (x: HalfUnits)
        ensures
            x.halves == old(self)@.center_halves(width as int),
            *final(self) == *old(self),
    {
        proof {
            use_type_invariant(&*self);
        }
        let rect = box2d_to_rect(&self.bounds);
        HalfUnits { halves: rect.width as i128 - width as i128 }
    }

    /// Places an item of `width` before the items already at the end and
    /// returns the coordinate of its left edge.
    pub fn push_end(&mut self, width: i32) -> (x: i128)
        requires
            old(self)@.end.count < usize::MAX,
        ensures
            x == old(self)@.end_position(width as int),
            final(self)@ == old(self)@.push_end(width as int),
    {
        proof {
            use_type_invariant(&*self);
        }
        let x = self.end.x - width as i128;
        self.end = RowSegment {
            x: x - self.gap as i128,
            count: self.end.count + 1,
            width: self.end.width + width as i128,
        };
        x
    }
}

impl Default for RowLayout {
    /// The layout of an empty rectangle at the origin.
    fn default() -> (layout: Self)
        ensures
            layout@ == LayoutModel::new(Box2D { min_x: 0, min_y: 0, max_x: 0, max_y: 0 }),
    {
        RowLayout::new(Rect { x: 0, y: 0, width: 0, height: 0 })
    }
}

/// Does nothing.
pub fn row() {
}

} // verus!
