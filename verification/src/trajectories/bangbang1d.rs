//! Profiles along one axis: up to three segments of constant acceleration
//! that end at rest.
use crate::math::Scalar;
use vstd::prelude::*;

verus! {

/// One segment of a profile.
#[derive(Clone, Copy, Debug, PartialEq, Eq, Structural)]
pub struct BangBangPart {
    /// When the segment ends, in seconds from the start of the profile.
    pub end_time: Scalar,
    pub initial_pos: Scalar,
    pub initial_vel: Scalar,
    pub accel: Scalar,
}

/// Position and velocity at a time of a profile.
#[derive(Clone, Copy, Debug, PartialEq, Eq, Structural)]
pub struct Knot {
    pub time: Scalar,
    pub pos: Scalar,
    pub vel: Scalar,
}

/// The four shapes of a profile from a start to a target at rest.
#[derive(Clone, Copy, Debug, PartialEq, Eq, Structural)]
pub enum ProfileShape {
    /// Accelerate forwards, then brake, without reaching the speed limit.
    TriangleForward,
    /// Accelerate forwards, cruise at the speed limit, then brake.
    TrapezoidForward,
    /// The mirror of [`ProfileShape::TriangleForward`], for a target that full
    /// braking would overshoot.
    TriangleBackward,
    /// The mirror of [`ProfileShape::TrapezoidForward`].
    TrapezoidBackward,
}

/// The segment that a time falls in, and when that segment began.
#[derive(Clone, Copy, Debug, PartialEq, Eq, Structural)]
pub struct Segment {
    pub part: BangBangPart,
    pub start_time: Scalar,
}

/// A profile along one axis.
#[derive(Clone, Copy, Debug)]
pub struct BangBang1d {
    bangbang_parts: [BangBangPart; 3],
    n_parts: usize,
}

/// The shape for a target at `target`, where full braking from the start
/// stops at `brake_stop`, and accelerating to the speed limit forwards
/// (backwards) and braking then stops at `peak_stop_forward`
/// (`peak_stop_backward`).
///
/// A target that braking does not overshoot is approached forwards: by a
/// triangle where the speed limit would carry to the target or past it, by
/// a trapezoid else. A target that braking overshoots gets the mirror.
pub open spec fn profile_shape_spec(
    target: Scalar,
    brake_stop: Scalar,
    peak_stop_forward: Scalar,
    peak_stop_backward: Scalar,
) -> ProfileShape {
    if brake_stop.le_spec(target) {
        if peak_stop_forward.ge_spec(target) {
            ProfileShape::TriangleForward
        } else {
            ProfileShape::TrapezoidForward
        }
    } else {
        if peak_stop_backward.le_spec(target) {
            ProfileShape::TriangleBackward
        } else {
            ProfileShape::TrapezoidBackward
        }
    }
}

/// Exec form of [`profile_shape_spec`].
pub fn profile_shape(
    target: Scalar,
    brake_stop: Scalar,
    peak_stop_forward: Scalar,
    peak_stop_backward: Scalar,
) -> (shape: ProfileShape)
    ensures
        shape == profile_shape_spec(target, brake_stop, peak_stop_forward, peak_stop_backward),
{
    if brake_stop.le(target) {
        if peak_stop_forward.ge(target) {
            ProfileShape::TriangleForward
        } else {
            ProfileShape::TrapezoidForward
        }
    } else {
        if peak_stop_backward.le(target) {
            ProfileShape::TriangleBackward
        } else {
            ProfileShape::TrapezoidBackward
        }
    }
}

/// The two segments of a triangle: `accel` from `start` to `peak`, then the
/// opposite acceleration until `end_time`.
pub open spec fn triangle_parts(accel: Scalar, start: Knot, peak: Knot, end_time: Scalar) -> Seq<
    BangBangPart,
> {
    seq![
        BangBangPart {
            end_time: peak.time,
            initial_pos: start.pos,
            initial_vel: start.vel,
            accel,
        },
        BangBangPart {
            end_time,
            initial_pos: peak.pos,
            initial_vel: peak.vel,
            accel: accel.neg_spec(),
        },
    ]
}

/// The acceleration that takes a velocity `from` to a velocity `to`: against
/// the axis where `from` is above `to`, along it else.
pub open spec fn ramp_accel(from: Scalar, to: Scalar, max_accel: Scalar) -> Scalar {
    if from.gt_spec(to) {
        max_accel.neg_spec()
    } else {
        max_accel
    }
}

/// Exec form of [`ramp_accel`].
pub fn ramp_acceleration(from: Scalar, to: Scalar, max_accel: Scalar) -> (accel: Scalar)
    ensures
        accel == ramp_accel(from, to, max_accel),
{
    if from.gt(to) {
        max_accel.neg()
    } else {
        max_accel
    }
}

/// The three segments of a trapezoid: from `start` to the cruise velocity,
/// the cruise from `cruise` to `brake`, and from there to rest at
/// `end_time`.
pub open spec fn trapezoid_parts(
    max_accel: Scalar,
    start: Knot,
    cruise: Knot,
    brake: Knot,
    end_time: Scalar,
) -> Seq<BangBangPart> {
    seq![
        BangBangPart {
            end_time: cruise.time,
            initial_pos: start.pos,
            initial_vel: start.vel,
            accel: ramp_accel(start.vel, cruise.vel, max_accel),
        },
        BangBangPart {
            end_time: brake.time,
            initial_pos: cruise.pos,
            initial_vel: cruise.vel,
            accel: Scalar { bits: 0 },
        },
        BangBangPart {
            end_time,
            initial_pos: brake.pos,
            initial_vel: brake.vel,
            accel: ramp_accel(cruise.vel, Scalar { bits: 0 }, max_accel),
        },
    ]
}

/// When the last segment ends.
pub open spec fn total_runtime(parts: Seq<BangBangPart>) -> Scalar {
    parts.last().end_time
}

/// The first segment from `from` on that `t` lies before the end of; the
/// last segment where there is none.
pub open spec fn part_index_from(parts: Seq<BangBangPart>, t: Scalar, from: int) -> int
    decreases parts.len() - from,
{
    if from >= parts.len() - 1 {
        parts.len() - 1
    } else if t.lt_spec(parts[from].end_time) {
        from
    } else {
        part_index_from(parts, t, from + 1)
    }
}

/// The segment that `t` falls in.
pub open spec fn part_index(parts: Seq<BangBangPart>, t: Scalar) -> int {
    part_index_from(parts, t, 0)
}

/// Whether the segments follow one another in time: the first does not end
/// before the start, and none ends before the one before it.
pub open spec fn is_well_timed(parts: Seq<BangBangPart>) -> bool {
    &&& parts.len() >= 1
    &&& (Scalar { bits: 0 }).le_spec(parts[0].end_time)
    &&& forall|i: int|
        0 <= i < parts.len() - 1 ==> (#[trigger] parts[i]).end_time.le_spec(parts[i + 1].end_time)
}

/// A time as a profile takes it: one before the start counts as the start.
pub open spec fn clamped(tt: Scalar) -> Scalar {
    tt.max_spec(Scalar { bits: 0 })
}

/// Whether the profile is over at `tt`.
pub open spec fn is_over(parts: Seq<BangBangPart>, tt: Scalar) -> bool {
    clamped(tt).ge_spec(total_runtime(parts))
}

/// The acceleration at `tt`: that of the segment `tt` falls in, and zero
/// once the profile is over.
pub open spec fn acceleration_at(parts: Seq<BangBangPart>, tt: Scalar) -> Scalar {
    if is_over(parts, tt) {
        Scalar { bits: 0 }
    } else {
        parts[part_index(parts, clamped(tt))].accel
    }
}

/// The segment that `tt` falls in with the time at which it began; none
/// once the profile is over.
pub open spec fn segment_at_spec(parts: Seq<BangBangPart>, tt: Scalar) -> Option<Segment> {
    if is_over(parts, tt) {
        None
    } else {
        let i = part_index(parts, clamped(tt));
        Some(
            Segment {
                part: parts[i],
                start_time: if i < 1 {
                    Scalar { bits: 0 }
                } else {
                    parts[i - 1].end_time
                },
            },
        )
    }
}

impl View for BangBang1d {
    type V = Seq<BangBangPart>;

    /// The segments in use, in their order.
    closed spec fn view(&self) -> Seq<BangBangPart> {
        self.bangbang_parts@.take(self.n_parts as int)
    }
}

impl BangBang1d {
    #[verifier::type_invariant]
    spec fn has_two_or_three_parts(&self) -> bool {
        2 <= self.n_parts <= 3
    }

    /// A triangular profile: see [`triangle_parts`].
    pub fn triangle(accel: Scalar, start: Knot, peak: Knot, end_time: Scalar) -> (profile: Self)
        ensures
            profile@ == triangle_parts(accel, start, peak, end_time),
    {
        let unused = BangBangPart {
            end_time: Scalar::zero(),
            initial_pos: Scalar::zero(),
            initial_vel: Scalar::zero(),
            accel: Scalar::zero(),
        };
        let profile = BangBang1d {
            bangbang_parts: [
                BangBangPart {
                    end_time: peak.time,
                    initial_pos: start.pos,
                    initial_vel: start.vel,
                    accel,
                },
                BangBangPart {
                    end_time,
                    initial_pos: peak.pos,
                    initial_vel: peak.vel,
                    accel: accel.neg(),
                },
                unused,
            ],
            n_parts: 2,
        };
        assert(profile@ =~= triangle_parts(accel, start, peak, end_time));
        profile
    }

    /// A trapezoidal profile: see [`trapezoid_parts`].
    pub fn trapezoid(
        max_accel: Scalar,
        start: Knot,
        cruise: Knot,
        brake: Knot,
        end_time: Scalar,
    ) -> (profile: Self)
        ensures
            profile@ == trapezoid_parts(max_accel, start, cruise, brake, end_time),
    {
        let a1 = ramp_acceleration(start.vel, cruise.vel, max_accel);
        let a3 = ramp_acceleration(cruise.vel, Scalar::zero(), max_accel);
        let profile = BangBang1d {
            bangbang_parts: [
                BangBangPart {
                    end_time: cruise.time,
                    initial_pos: start.pos,
                    initial_vel: start.vel,
                    accel: a1,
                },
                BangBangPart {
                    end_time: brake.time,
                    initial_pos: cruise.pos,
                    initial_vel: cruise.vel,
                    accel: Scalar::zero(),
                },
                BangBangPart {
                    end_time,
                    initial_pos: brake.pos,
                    initial_vel: brake.vel,
                    accel: a3,
                },
            ],
            n_parts: 3,
        };
        assert(profile@ =~= trapezoid_parts(max_accel, start, cruise, brake, end_time));
        profile
    }

    /// How many segments the profile has: two or three.
    pub fn n_parts(&self) -> (n: usize)
        ensures
            n == self@.len(),
            2 <= n <= 3,
    {
        proof {
            use_type_invariant(self);
        }
        self.n_parts
    }

    /// Segment `i`.
    pub fn part(&self, i: usize) -> (part: BangBangPart)
        requires
            i < self@.len(),
        ensures
            part == self@[i as int],
    {
        proof {
            use_type_invariant(self);
        }
        self.bangbang_parts[i]
    }

    pub fn find_part_idx(&self, t: Scalar) -> (i: usize)
        ensures
            i == part_index(self@, t),
            i < self@.len(),
    {
        proof {
            use_type_invariant(self);
        }
        let mut i: usize = 0;
        while i < self.n_parts
            invariant
                2 <= self.n_parts <= 3,
                i <= self.n_parts,
                self@ == self.bangbang_parts@.take(self.n_parts as int),
                part_index(self@, t) == part_index_from(self@, t, i as int),
            decreases self.n_parts - i,
        {
            if t.lt(self.bangbang_parts[i].end_time) {
                return i;
            }
            i = i + 1;
        }
        self.n_parts - 1
    }

    pub fn find_part(&self, t: Scalar) -> (part: BangBangPart)
        ensures
            part == self@[part_index(self@, t)],
    {
        let i = self.find_part_idx(t);
        self.part(i)
    }

    pub fn get_total_runtime(&self) -> (t: Scalar)
        ensures
            t == total_runtime(self@),
    {
        proof {
            use_type_invariant(self);
        }
        self.bangbang_parts[self.n_parts - 1].end_time
    }

    /// The times at which the segments end, in their order.
    pub fn get_time_sections(&self) -> (times: Vec<Scalar>)
        ensures
            times@ == self@.map_values(|p: BangBangPart| p.end_time),
    {
        proof {
            use_type_invariant(self);
        }
        let mut times: Vec<Scalar> = Vec::new();
        let mut i: usize = 0;
        while i < self.n_parts
            invariant
                2 <= self.n_parts <= 3,
                i <= self.n_parts,
                self@ == self.bangbang_parts@.take(self.n_parts as int),
                times@ == self@.take(i as int).map_values(|p: BangBangPart| p.end_time),
            decreases self.n_parts - i,
        {
            times.push(self.bangbang_parts[i].end_time);
            i = i + 1;
            assert(self@.take(i as int).map_values(|p: BangBangPart| p.end_time) =~= self@.take(
                i - 1,
            ).map_values(|p: BangBangPart| p.end_time).push(self@[i - 1].end_time));
        }
        assert(self@.take(i as int) =~= self@);
        times
    }

    /// Whether the segments follow one another in time: see
    /// [`is_well_timed`].
    pub fn has_ordered_times(&self) -> (ordered: bool)
        ensures
            ordered == is_well_timed(self@),
    {
        proof {
            use_type_invariant(self);
        }
        if !Scalar::zero().le(self.bangbang_parts[0].end_time) {
            return false;
        }
        let mut i: usize = 0;
        while i + 1 < self.n_parts
            invariant
                2 <= self.n_parts <= 3,
                i + 1 <= self.n_parts,
                self@ == self.bangbang_parts@.take(self.n_parts as int),
                (Scalar { bits: 0 }).le_spec(self@[0].end_time),
                forall|j: int|
                    0 <= j < i ==> (#[trigger] self@[j]).end_time.le_spec(self@[j + 1].end_time),
            decreases self.n_parts - i,
        {
            if !self.bangbang_parts[i].end_time.le(self.bangbang_parts[i + 1].end_time) {
                assert(!(self@[i as int]).end_time.le_spec(self@[i + 1].end_time));
                return false;
            }
            i = i + 1;
        }
        true
    }

    /// Whether the profile is over at `tt`.
    pub fn is_finished_at(&self, tt: Scalar) -> (over: bool)
        ensures
            over == is_over(self@, tt),
    {
        let traj_time = tt.max(Scalar::zero());
        traj_time.ge(self.get_total_runtime())
    }

    pub fn get_acceleration(&self, tt: Scalar) -> (accel: Scalar)
        ensures
            accel == acceleration_at(self@, tt),
    {
        let traj_time = tt.max(Scalar::zero());
        if traj_time.ge(self.get_total_runtime()) {
            return Scalar::zero();
        }
        self.find_part(traj_time).accel
    }

    /// The segment to evaluate position and velocity on at `tt`: see
    /// [`segment_at_spec`].
    pub fn segment_at(&self, tt: Scalar) -> (segment: Option<Segment>)
        ensures
            segment == segment_at_spec(self@, tt),
    {
        let traj_time = tt.max(Scalar::zero());
        if traj_time.ge(self.get_total_runtime()) {
            return None;
        }
        let piece_idx = self.find_part_idx(traj_time);
        let piece = self.part(piece_idx);
        let t_piece_start = if piece_idx < 1 {
            Scalar::zero()
        } else {
            self.part(piece_idx - 1).end_time
        };
        Some(Segment { part: piece, start_time: t_piece_start })
    }

    /// The last segment with the time at which it began: position and
    /// velocity of a profile that is over are those at its end.
    pub fn last_segment(&self) -> (segment: Segment)
        ensures
            segment.part == self@.last(),
            segment.start_time == self@[self@.len() - 2].end_time,
    {
        let n = self.n_parts();
        Segment { part: self.part(n - 1), start_time: self.part(n - 2).end_time }
    }
}

/// The segment that a time falls in is one of the profile; the time lies
/// before the end of none of the segments before it, and before the end of
/// the segment itself unless that is the last one.
pub proof fn lemma_part_index_is_first(parts: Seq<BangBangPart>, t: Scalar, from: int)
    requires
        0 <= from < parts.len(),
    ensures
        from <= part_index_from(parts, t, from) < parts.len(),
        forall|j: int|
            from <= j < part_index_from(parts, t, from) ==> !t.lt_spec(
                (#[trigger] parts[j]).end_time,
            ),
        part_index_from(parts, t, from) < parts.len() - 1 ==> t.lt_spec(
            parts[part_index_from(parts, t, from)].end_time,
        ),
    decreases parts.len() - from,
{
    if from < parts.len() - 1 && !t.lt_spec(parts[from].end_time) {
        lemma_part_index_is_first(parts, t, from + 1);
    }
}

/// At every time the acceleration of a triangle is zero or, up to its sign,
/// the acceleration that the triangle was built with; it is zero once the
/// profile is over.
pub proof fn lemma_triangle_acceleration_is_bounded(
    accel: Scalar,
    start: Knot,
    peak: Knot,
    end_time: Scalar,
    tt: Scalar,
)
    ensures
        ({
            let a = acceleration_at(triangle_parts(accel, start, peak, end_time), tt);
            &&& a == (Scalar { bits: 0 }) || a.abs_spec() == accel.abs_spec()
            &&& !accel.is_nan_spec() ==> a.abs_spec().le_spec(accel.abs_spec())
            &&& is_over(triangle_parts(accel, start, peak, end_time), tt) ==> a == (Scalar {
                bits: 0,
            })
        }),
{
    let parts = triangle_parts(accel, start, peak, end_time);
    lemma_part_index_is_first(parts, clamped(tt), 0);
}

/// At every time the acceleration of a trapezoid is zero or, up to its
/// sign, the acceleration limit that the trapezoid was built with; it is
/// zero once the profile is over.
pub proof fn lemma_trapezoid_acceleration_is_bounded(
    max_accel: Scalar,
    start: Knot,
    cruise: Knot,
    brake: Knot,
    end_time: Scalar,
    tt: Scalar,
)
    ensures
        ({
            let a = acceleration_at(
                trapezoid_parts(max_accel, start, cruise, brake, end_time),
                tt,
            );
            &&& a == (Scalar { bits: 0 }) || a.abs_spec() == max_accel.abs_spec()
            &&& !max_accel.is_nan_spec() ==> a.abs_spec().le_spec(max_accel.abs_spec())
            &&& is_over(trapezoid_parts(max_accel, start, cruise, brake, end_time), tt) ==> a == (
            Scalar { bits: 0 })
        }),
{
    let parts = trapezoid_parts(max_accel, start, cruise, brake, end_time);
    lemma_part_index_is_first(parts, clamped(tt), 0);
}

/// A profile whose runtime is a number is over at its runtime and at every
/// later time: from then on its acceleration is zero and it answers with no
/// segment, which leaves it at rest at its end.
pub proof fn lemma_profile_is_over_from_its_end(parts: Seq<BangBangPart>, tt: Scalar)
    requires
        parts.len() >= 1,
        !total_runtime(parts).is_nan_spec(),
        tt.ge_spec(total_runtime(parts)),
    ensures
        is_over(parts, tt),
        is_over(parts, total_runtime(parts)),
        acceleration_at(parts, tt) == (Scalar { bits: 0 }),
        segment_at_spec(parts, tt) is None,
{
}

/// In a profile whose segments follow one another in time, a time falls
/// inside the segment that answers for it: not before its start, and before
/// its end; and the segment is the only one of which that holds.
pub proof fn lemma_segment_holds_its_time(parts: Seq<BangBangPart>, tt: Scalar)
    requires
        is_well_timed(parts),
        !is_over(parts, tt),
    ensures
        segment_at_spec(parts, tt) matches Some(segment) && segment.start_time.le_spec(clamped(tt))
            && clamped(tt).lt_spec(segment.part.end_time) && segment.part == parts[part_index(
            parts,
            clamped(tt),
        )],
        forall|i: int|
            0 <= i < parts.len() && i != part_index(parts, clamped(tt)) ==> !((if i == 0 {
                Scalar { bits: 0 }
            } else {
                parts[i - 1].end_time
            }).le_spec(clamped(tt)) && clamped(tt).lt_spec((#[trigger] parts[i]).end_time)),
{
    let t = clamped(tt);
    lemma_part_index_is_first(parts, t, 0);
    lemma_times_are_ordered(parts, 0, parts.len() - 1);
    let index = part_index(parts, t);
    assert forall|i: int| 0 <= i < parts.len() && i != index implies !((if i == 0 {
        Scalar { bits: 0 }
    } else {
        parts[i - 1].end_time
    }).le_spec(t) && t.lt_spec((#[trigger] parts[i]).end_time)) by {
        if i < index {
            assert(!t.lt_spec(parts[i].end_time));
        } else {
            lemma_times_are_ordered(parts, index, i - 1);
        }
    }
}

/// In a profile whose segments follow one another in time, no segment ends
/// before an earlier one or before the start.
pub proof fn lemma_times_are_ordered(parts: Seq<BangBangPart>, i: int, j: int)
    requires
        is_well_timed(parts),
        0 <= i <= j < parts.len(),
    ensures
        parts[i].end_time.le_spec(parts[j].end_time),
        (Scalar { bits: 0 }).le_spec(parts[j].end_time),
    decreases j,
{
    if j > 0 {
        assert(parts[j - 1].end_time.le_spec(parts[j].end_time));
        if i < j {
            lemma_times_are_ordered(parts, i, j - 1);
        } else {
            lemma_times_are_ordered(parts, j - 1, j - 1);
        }
    }
}

/// A profile answers with a segment exactly until it is over, and the
/// segment is one of its own.
pub proof fn lemma_segment_is_of_the_profile(parts: Seq<BangBangPart>, tt: Scalar)
    requires
        parts.len() >= 1,
    ensures
        segment_at_spec(parts, tt) is None <==> is_over(parts, tt),
        segment_at_spec(parts, tt) matches Some(segment) ==> parts.contains(segment.part),
{
    lemma_part_index_is_first(parts, clamped(tt), 0);
}

} // verus!
