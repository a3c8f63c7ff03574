//! Points of the field plane.
use super::scalar::Scalar;
use vstd::prelude::*;

verus! {

/// A position, in metres.
#[derive(Clone, Copy, Debug, PartialEq, Eq, Structural)]
pub struct Point2 {
    pub x: Scalar,
    pub y: Scalar,
}

impl Point2 {
    pub fn new(x: Scalar, y: Scalar) -> (p: Point2)
        ensures
            p == (Point2 { x, y }),
    {
        Point2 { x, y }
    }

    /// The origin.
    pub fn zero() -> (p: Point2)
        ensures
            p == (Point2 { x: Scalar { bits: 0 }, y: Scalar { bits: 0 } }),
    {
        Point2 { x: Scalar::zero(), y: Scalar::zero() }
    }

    /// The point whose coordinates are the first two entries of `point`.
    pub fn from_vec(point: &[Scalar]) -> (p: Point2)
        requires
            point@.len() >= 2,
        ensures
            p.x == point@[0],
            p.y == point@[1],
    {
        Point2 { x: point[0], y: point[1] }
    }

    /// The two coordinates, `x` first.
    pub fn to_vec(self) -> (v: Vec<Scalar>)
        ensures
            v@ == seq![self.x, self.y],
    {
        let mut v: Vec<Scalar> = Vec::new();
        v.push(self.x);
        v.push(self.y);
        v
    }
}

} // verus!
