//! Axis-aligned rectangles in their two representations.

use vstd::prelude::*;

verus! {

/// A rectangle given by its origin and its size, in grid units.
#[derive(Clone, Copy, Debug, PartialEq, Eq, Structural)]
pub struct Rect {
    pub x: i32,
    pub y: i32,
    pub width: i32,
    pub height: i32,
}

/// A rectangle given by its minimum and maximum corners.
///
/// The corners are wide enough to hold the far corner of every [`Rect`].
#[derive(Clone, Copy, Debug, PartialEq, Eq, Structural)]
pub struct Box2D {
    pub min_x: i128,
    pub min_y: i128,
    pub max_x: i128,
    pub max_y: i128,
}

/// A coordinate counted in halves of a grid unit.
///
/// Half of a whole number of units is a whole number of units only where
/// that number is even. Counted in halves it has a value for every input:
/// `halves` is twice the coordinate.
#[derive(Clone, Copy, Debug, PartialEq, Eq, Structural)]
pub struct HalfUnits {
    pub halves: i128,
}

impl Rect {
    /// The same region by its corners: the minimum corner is the origin,
    /// the maximum corner is the origin moved by the size.
    pub open spec fn spec_to_box2d(self) -> Box2D {
        Box2D {
            min_x: self.x as i128,
            min_y: self.y as i128,
            max_x: (self.x + self.width) as i128,
            max_y: (self.y + self.height) as i128,
        }
    }
}

impl Box2D {
    /// Horizontal extent, which is negative when the corners are swapped.
    pub open spec fn spec_width(self) -> int {
        self.max_x - self.min_x
    }

    /// Vertical extent, which is negative when the corners are swapped.
    pub open spec fn spec_height(self) -> int {
        self.max_y - self.min_y
    }

    /// Whether the box is the corner form of some [`Rect`].
    pub open spec fn is_rect(self) -> bool {
        &&& i32::MIN <= self.min_x <= i32::MAX
        &&& i32::MIN <= self.min_y <= i32::MAX
        &&& i32::MIN <= self.spec_width() <= i32::MAX
        &&& i32::MIN <= self.spec_height() <= i32::MAX
    }

    /// The same region by origin and size.
    pub open spec fn spec_to_rect(self) -> Rect {
        Rect {
            x: self.min_x as i32,
            y: self.min_y as i32,
            width: self.spec_width() as i32,
            height: self.spec_height() as i32,
        }
    }
}

/// Corner form of `rect`, computed by `euclid::Rect::to_box2d` on `i128`
/// coordinates.
///
/// Trusted: euclid keeps the origin as the minimum corner and adds the size
/// to it, component by component, for the maximum corner. The sums of two
/// `i32` values cannot overflow an `i128`.
#[verifier::external_body]
pub(crate) fn rect_to_box2d(rect: &Rect) -> (b: Box2D)
    ensures
        b == rect.spec_to_box2d(),
{
    let r = euclid::default::Rect::<i128>::new(
        euclid::default::Point2D::new(rect.x as i128, rect.y as i128),
        euclid::default::Size2D::new(rect.width as i128, rect.height as i128),
    );
    let b = r.to_box2d();
    Box2D { min_x: b.min.x, min_y: b.min.y, max_x: b.max.x, max_y: b.max.y }
}

/// Origin-and-size form of `b`, computed by `euclid::Box2D::to_rect` on
/// `i128` coordinates.
///
/// Trusted: euclid keeps the minimum corner as the origin and subtracts it
/// from the maximum corner, component by component, for the size. The
/// precondition keeps those differences, and the narrowing of the result,
/// within range.
#[verifier::external_body]
pub(crate) fn box2d_to_rect(b: &Box2D) -> (rect: Rect)
    requires
        b.is_rect(),
    ensures
        rect == b.spec_to_rect(),
{
    let b = euclid::default::Box2D::<i128>::new(
        euclid::default::Point2D::new(b.min_x, b.min_y),
        euclid::default::Point2D::new(b.max_x, b.max_y),
    );
    let r = b.to_rect();
    Rect {
        x: r.origin.x as i32,
        y: r.origin.y as i32,
        width: r.size.width as i32,
        height: r.size.height as i32,
    }
}

/// A box made from a rectangle is the corner form of a rectangle, and
/// converting it back gives the rectangle it was made from. Its corners are
/// in order where the rectangle's size is not negative.
pub proof fn lemma_rect_box_round_trip(rect: Rect)
    ensures
        rect.spec_to_box2d().is_rect(),
        rect.spec_to_box2d().spec_to_rect() == rect,
        rect.spec_to_box2d().spec_width() == rect.width,
        rect.spec_to_box2d().spec_height() == rect.height,
        rect.width >= 0 ==> rect.spec_to_box2d().min_x <= rect.spec_to_box2d().max_x,
        rect.height >= 0 ==> rect.spec_to_box2d().min_y <= rect.spec_to_box2d().max_y,
{
}

} // verus!
