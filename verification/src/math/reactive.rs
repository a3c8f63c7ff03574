//! Things that can be asked where they are now.
use super::point::Point2;
use vstd::prelude::*;

verus! {

/// A value that yields a `T` on demand: a fixed point, a ball, a robot.
pub trait Reactive<T> {
    /// What the value yields in its present state.
    spec fn reactive_value(&self) -> T;

    fn get_reactive(&self) -> (r: T)
        ensures
            r == self.reactive_value(),
    ;
}

/// Asks `v` for its `T`; spares the caller a cast where `v` yields several types.
pub fn get_reactive<T>(v: &impl Reactive<T>) -> (r: T)
    ensures
        r == v.reactive_value(),
{
    v.get_reactive()
}

impl Reactive<Point2> for Point2 {
    open spec fn reactive_value(&self) -> Point2 {
        *self
    }

    fn get_reactive(&self) -> (r: Point2) {
        *self
    }
}

} // verus!
