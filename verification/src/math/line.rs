//! Lines through two points.
use super::point::Point2;
use super::scalar::Scalar;
use vstd::prelude::*;

verus! {

/// Bits of the machine epsilon, 2 to the power of -52: two lines whose
/// directions have a cross product smaller than this are parallel.
pub const EPSILON: u64 = 0x3CB0_0000_0000_0000;

/// The line through `start` and `end`.
#[derive(Clone, Copy, Debug, PartialEq, Eq, Structural)]
pub struct Line {
    pub start: Point2,
    pub end: Point2,
}

/// Two lines do not meet in one point.
#[derive(Clone, Copy, Debug, PartialEq, Eq, Structural)]
pub struct LinesParallelError;

/// Whether two lines whose directions have the cross product `cross` count
/// as parallel.
pub open spec fn are_parallel(cross: Scalar) -> bool {
    cross.abs_spec().lt_spec(Scalar { bits: EPSILON })
}

impl Line {
    pub fn new(start: Point2, end: Point2) -> (line: Line)
        ensures
            line == (Line { start, end }),
    {
        Line { start, end }
    }

    /// The point of the line that is closest to `point`: `start` for a line
    /// without length, and the foot of the perpendicular from `point` else.
    /// `length_squared` computes the squared length from `start` to `end` of
    /// a line, and `project` the foot of the perpendicular from a point onto
    /// a line; `project` is asked only for a line with a length.
    pub fn closest_point_to<L: Fn(Line) -> Scalar, P: Fn(Line, Point2) -> Point2>(
        &self,
        point: Point2,
        length_squared: &L,
        project: &P,
    ) -> (closest: Point2)
        requires
            length_squared.requires((*self,)),
            project.requires((*self, point)),
        ensures
            exists|l: Scalar| #[trigger]
                length_squared.ensures((*self,), l) && if l.same_number(Scalar { bits: 0 }) {
                    closest == self.start
                } else {
                    project.ensures((*self, point), closest)
                },
    {
        let line_length_squared = length_squared(*self);
        if !line_length_squared.is_nan() && line_length_squared.abs().to_bits() == 0 {
            self.start
        } else {
            project(*self, point)
        }
    }

    /// The point in which this line and `line` meet, or an error where they
    /// are parallel. `cross` computes the cross product of the directions of
    /// two lines, and `solve` the point in which two lines meet; `solve` is
    /// asked only for lines that are not parallel.
    pub fn intersection_lines<C: Fn(Line, Line) -> Scalar, S: Fn(Line, Line) -> Point2>(
        &self,
        line: &Line,
        cross: &C,
        solve: &S,
    ) -> (r: Result<Point2, LinesParallelError>)
        requires
            cross.requires((*self, *line)),
            solve.requires((*self, *line)),
        ensures
            exists|c: Scalar| #[trigger]
                cross.ensures((*self, *line), c) && match r {
                    Err(_) => are_parallel(c),
                    Ok(p) => !are_parallel(c) && solve.ensures((*self, *line), p),
                },
    {
        let cross_product = cross(*self, *line);
        if cross_product.abs().lt(Scalar::from_bits(EPSILON)) {
            Err(LinesParallelError)
        } else {
            Ok(solve(*self, *line))
        }
    }
}

} // verus!
