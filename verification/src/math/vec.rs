//! Displacements and velocities of the field plane.
use super::scalar::Scalar;
use vstd::prelude::*;

verus! {

/// A displacement in metres, or a velocity in metres per second.
#[derive(Clone, Copy, Debug, PartialEq, Eq, Structural)]
pub struct Vec2 {
    pub x: Scalar,
    pub y: Scalar,
}

impl Vec2 {
    pub fn new(x: Scalar, y: Scalar) -> (v: Vec2)
        ensures
            v == (Vec2 { x, y }),
    {
        Vec2 { x, y }
    }

    /// The null vector.
    pub fn zero() -> (v: Vec2)
        ensures
            v == (Vec2 { x: Scalar { bits: 0 }, y: Scalar { bits: 0 } }),
    {
        Vec2 { x: Scalar::zero(), y: Scalar::zero() }
    }

    /// The vector whose components are the first two entries of `v`.
    pub fn from_vec(v: &[Scalar]) -> (r: Vec2)
        requires
            v@.len() >= 2,
        ensures
            r.x == v@[0],
            r.y == v@[1],
    {
        Vec2 { x: v[0], y: v[1] }
    }
}

} // verus!
