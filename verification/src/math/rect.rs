//! Rectangles along the axes.
use super::point::Point2;
use super::scalar::Scalar;
use vstd::prelude::*;

verus! {

/// A rectangle along the axes, held by two opposite corners: the one with
/// the smallest `x` and the largest `y`, and the one with the largest `x`
/// and the smallest `y`.
#[derive(Clone, Copy, Debug, PartialEq, Eq, Structural)]
pub struct Rect {
    pub top_left: Point2,
    pub bottom_right: Point2,
}

impl Rect {
    /// The rectangle with the opposite corners `first` and `second`, whichever two
    /// they are.
    pub open spec fn spanned(first: Point2, second: Point2) -> Rect {
        Rect {
            top_left: Point2 { x: first.x.min_spec(second.x), y: first.y.max_spec(second.y) },
            bottom_right: Point2 { x: first.x.max_spec(second.x), y: first.y.min_spec(second.y) },
        }
    }

    /// The corners are in their places: left is not right of right, and
    /// bottom is not above top.
    pub open spec fn is_canonical(&self) -> bool {
        &&& self.top_left.x.le_spec(self.bottom_right.x)
        &&& self.bottom_right.y.le_spec(self.top_left.y)
    }

    pub fn new(first: Point2, second: Point2) -> (rect: Rect)
        ensures
            rect == Rect::spanned(first, second),
    {
        let min_x = first.x.min(second.x);
        let max_x = first.x.max(second.x);
        let min_y = first.y.min(second.y);
        let max_y = first.y.max(second.y);
        Rect { top_left: Point2::new(min_x, max_y), bottom_right: Point2::new(max_x, min_y) }
    }

    /// Whether a point can be drawn from inside: the rectangle has a width
    /// and a height above zero.
    pub fn has_an_inside(&self) -> (r: bool)
        ensures
            r == (self.top_left.x.lt_spec(self.bottom_right.x) && self.bottom_right.y.lt_spec(
                self.top_left.y,
            )),
    {
        self.top_left.x.lt(self.bottom_right.x) && self.bottom_right.y.lt(self.top_left.y)
    }
}

/// A rectangle made of two corners is canonical, whichever corners they
/// are and in whichever order, as long as their coordinates are numbers.
pub proof fn lemma_new_rect_is_canonical(first: Point2, second: Point2)
    requires
        !first.x.is_nan_spec(),
        !first.y.is_nan_spec(),
        !second.x.is_nan_spec(),
        !second.y.is_nan_spec(),
    ensures
        Rect::spanned(first, second).is_canonical(),
        Rect::spanned(first, second).top_left.x.same_number(Rect::spanned(second, first).top_left.x),
        Rect::spanned(first, second).top_left.y.same_number(Rect::spanned(second, first).top_left.y),
        Rect::spanned(first, second).bottom_right.x.same_number(Rect::spanned(second, first).bottom_right.x),
        Rect::spanned(first, second).bottom_right.y.same_number(Rect::spanned(second, first).bottom_right.y),
{
}

} // verus!
