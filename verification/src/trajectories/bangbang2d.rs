//! Profiles in the plane: one profile per axis, and the decisions of the
//! search that makes both axes take the same time.
use crate::math::{Scalar, Vec2};
use crate::trajectories::bangbang1d::{acceleration_at, total_runtime, BangBang1d, BangBangPart};
use vstd::prelude::*;

verus! {

/// Bits of 1e-7: the search ends once its step in radians is no larger.
pub const SEARCH_RESOLUTION: u64 = 0x3E7A_D7F2_9ABC_AF48;

/// Bits of an eighth of pi, as binary64 has it: the first step of the
/// search in radians.
pub const FIRST_SEARCH_INCREMENT: u64 = 0x3FD9_21FB_5444_2D18;

/// Bits of a quarter of pi, as binary64 has it: the split at which the
/// search starts, which gives both axes the same limits.
pub const FIRST_SEARCH_ANGLE: u64 = 0x3FE9_21FB_5444_2D18;

/// Tries that a search has at most.
pub const SEARCH_TRIES: usize = 22;

/// A profile in the plane.
#[derive(Clone, Copy, Debug)]
pub struct BangBang2d {
    pub x: BangBang1d,
    pub y: BangBang1d,
}

/// What the search for the split of the limits between the axes does next.
#[derive(Clone, Copy, Debug, PartialEq, Eq, Structural)]
pub enum SearchStep {
    /// The two axes take the same time, to the accuracy asked for.
    Stop,
    /// The x axis takes longer: turn the split towards it.
    TurnToX,
    /// The x axis does not take longer: turn the split towards y.
    TurnToY,
}

/// The step after a try in which the axes took `x_runtime` and `y_runtime`,
/// whose difference is `difference` up to its sign.
pub open spec fn search_step_spec(
    x_runtime: Scalar,
    y_runtime: Scalar,
    difference: Scalar,
    accuracy: Scalar,
) -> SearchStep {
    if difference.abs_spec().lt_spec(accuracy) {
        SearchStep::Stop
    } else if x_runtime.gt_spec(y_runtime) {
        SearchStep::TurnToX
    } else {
        SearchStep::TurnToY
    }
}

/// Exec form of [`search_step_spec`].
pub fn search_step(
    x_runtime: Scalar,
    y_runtime: Scalar,
    difference: Scalar,
    accuracy: Scalar,
) -> (step: SearchStep)
    ensures
        step == search_step_spec(x_runtime, y_runtime, difference, accuracy),
{
    if difference.abs().lt(accuracy) {
        SearchStep::Stop
    } else if x_runtime.gt(y_runtime) {
        SearchStep::TurnToX
    } else {
        SearchStep::TurnToY
    }
}

/// Whether a search whose step has shrunk to `increment` radians tries
/// again.
pub fn search_goes_on(increment: Scalar) -> (r: bool)
    ensures
        r == increment.gt_spec(Scalar { bits: SEARCH_RESOLUTION }),
{
    increment.gt(Scalar::from_bits(SEARCH_RESOLUTION))
}

/// The step of try `i`: the first step halved `i` times.
pub open spec fn search_increment(i: int) -> Scalar {
    Scalar { bits: (FIRST_SEARCH_INCREMENT - i * crate::math::scalar::EXPONENT_STEP) as u64 }
}

/// The steps of the tries of a search, the largest first: each is half the
/// one before, and the search goes on for each of them and for no smaller
/// one.
pub fn search_increments() -> (increments: Vec<Scalar>)
    ensures
        increments@.len() == SEARCH_TRIES,
        forall|i: int| 0 <= i < SEARCH_TRIES ==> #[trigger] increments@[i] == search_increment(i),
{
    let mut increments: Vec<Scalar> = Vec::new();
    let mut increment = Scalar::from_bits(FIRST_SEARCH_INCREMENT);
    let mut tries: usize = 0;
    while search_goes_on(increment) && tries < SEARCH_TRIES
        invariant
            tries <= SEARCH_TRIES,
            increment == search_increment(tries as int),
            increments@.len() == tries,
            forall|i: int| 0 <= i < tries ==> #[trigger] increments@[i] == search_increment(i),
        decreases SEARCH_TRIES - tries,
    {
        increments.push(increment);
        match increment.halved() {
            Some(half) => {
                increment = half;
            },
            None => {
                assert(false);
            },
        }
        tries = tries + 1;
    }
    proof {
        lemma_search_has_its_tries(tries as int);
    }
    increments
}

/// The search goes on for the first twenty-two steps and stops at the one
/// after them; each step has an exact half, which is the next step.
pub proof fn lemma_search_has_its_tries(i: int)
    requires
        0 <= i <= SEARCH_TRIES,
    ensures
        search_increment(i).gt_spec(Scalar { bits: SEARCH_RESOLUTION }) <==> i < SEARCH_TRIES,
        search_increment(i).has_an_exact_half(),
        search_increment(i).halved_spec() == search_increment(i + 1),
{
}

impl BangBang2d {
    pub fn new(x: BangBang1d, y: BangBang1d) -> (profile: BangBang2d)
        ensures
            profile.x == x,
            profile.y == y,
    {
        BangBang2d { x, y }
    }

    /// The longer of the runtimes of the two axes.
    pub fn get_total_runtime(&self) -> (t: Scalar)
        ensures
            t == total_runtime(self.x@).max_spec(total_runtime(self.y@)),
    {
        self.x.get_total_runtime().max(self.y.get_total_runtime())
    }

    pub fn get_acceleration(&self, t: Scalar) -> (accel: Vec2)
        ensures
            accel == (Vec2 { x: acceleration_at(self.x@, t), y: acceleration_at(self.y@, t) }),
    {
        Vec2::new(self.x.get_acceleration(t), self.y.get_acceleration(t))
    }

    /// The times at which the segments end: those of the x axis, then those
    /// of the y axis.
    pub fn get_time_sections(&self) -> (times: Vec<Scalar>)
        ensures
            times@ == self.x@.map_values(|p: BangBangPart| p.end_time) + self.y@.map_values(
                |p: BangBangPart| p.end_time,
            ),
    {
        let mut times = self.x.get_time_sections();
        let mut rest = self.y.get_time_sections();
        times.append(&mut rest);
        times
    }
}

/// A search that stops has brought the runtimes of the two axes within the
/// accuracy asked for.
pub proof fn lemma_search_stops_when_balanced(
    x_runtime: Scalar,
    y_runtime: Scalar,
    difference: Scalar,
    accuracy: Scalar,
)
    ensures
        search_step_spec(x_runtime, y_runtime, difference, accuracy) is Stop
            <==> difference.abs_spec().lt_spec(accuracy),
        search_step_spec(x_runtime, y_runtime, difference, accuracy) is TurnToX
            ==> y_runtime.lt_spec(x_runtime),
{
}

} // verus!
