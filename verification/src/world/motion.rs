//! Where a robot may be: collision checks of points, of sampled
//! trajectories, and the thinning of a planned path.
use crate::math::{Point2, Scalar};
use crate::world::{AllyData, AvoidanceMode, Robot, RobotData, RobotId, World};
use std::collections::HashMap;
use vstd::prelude::*;

verus! {

broadcast use vstd::std_specs::hash::group_hash_axioms;

/// Bits of 0.3: two robot centres closer than this many metres collide. A
/// robot has a radius of 0.1, so this leaves 0.1 between two robots.
pub const ROBOT_CLEARANCE: u64 = 0x3FD3_3333_3333_3333;

/// Bits of 0.2: a point closer than this many metres to the ball touches it.
pub const BALL_CLEARANCE: u64 = 0x3FC9_9999_9999_999A;

/// `distance` answers for every two points, and always the same.
pub open spec fn is_a_metric<F: Fn(Point2, Point2) -> Scalar>(distance: &F) -> bool {
    &&& forall|a: Point2, b: Point2| #[trigger] distance.requires((a, b))
    &&& forall|a: Point2, b: Point2, d1: Scalar, d2: Scalar|
        distance.ensures((a, b), d1) && distance.ensures((a, b), d2) ==> d1 == d2
}

/// Whether `distance` answers for `a` and `b` with less than `limit`.
pub open spec fn is_within<F: Fn(Point2, Point2) -> Scalar>(
    distance: &F,
    a: Point2,
    b: Point2,
    limit: Scalar,
) -> bool {
    exists|d: Scalar| #[trigger] distance.ensures((a, b), d) && d.lt_spec(limit)
}

/// Whether a robot of `team` other than number `skip` is closer to `pos`
/// than the robot clearance.
pub open spec fn some_robot_is_close<D: RobotData, F: Fn(Point2, Point2) -> Scalar>(
    team: Map<RobotId, Robot<D>>,
    skip: Option<RobotId>,
    pos: Point2,
    distance: &F,
) -> bool {
    exists|k: RobotId|
        #![trigger team.contains_key(k)]
        team.contains_key(k) && skip != Some(team[k].id) && is_within(
            distance,
            team[k].pos,
            pos,
            Scalar { bits: ROBOT_CLEARANCE },
        )
}

/// Whether the robot with number `id` may be at `pos` under `mode`: always
/// where nothing is avoided; else where no other robot of either team is
/// closer than the robot clearance and, where the ball is avoided too, the
/// ball is not closer than the ball clearance.
pub open spec fn point_is_free<F: Fn(Point2, Point2) -> Scalar>(
    id: RobotId,
    pos: Point2,
    world: &World,
    mode: AvoidanceMode,
    distance: &F,
) -> bool {
    match mode {
        AvoidanceMode::AvoidNothing => true,
        AvoidanceMode::AvoidRobots => {
            &&& !some_robot_is_close(world.team@, Some(id), pos, distance)
            &&& !some_robot_is_close(world.ennemies@, None, pos, distance)
        },
        AvoidanceMode::AvoidRobotsAndBall => {
            &&& !some_robot_is_close(world.team@, Some(id), pos, distance)
            &&& !some_robot_is_close(world.ennemies@, None, pos, distance)
            &&& !is_within(distance, pos, world.ball.pos, Scalar { bits: BALL_CLEARANCE })
        },
    }
}

/// Whether the robot with number `id` may be at every one of `samples`.
pub open spec fn trajectory_is_valid<F: Fn(Point2, Point2) -> Scalar>(
    id: RobotId,
    samples: Seq<Point2>,
    world: &World,
    mode: AvoidanceMode,
    distance: &F,
) -> bool {
    forall|j: int|
        0 <= j < samples.len() ==> point_is_free(id, #[trigger] samples[j], world, mode, distance)
}

/// `reachable` answers for every two points, and always the same.
pub open spec fn is_a_verdict<V: Fn(Point2, Point2) -> bool>(reachable: &V) -> bool {
    &&& forall|a: Point2, b: Point2| #[trigger] reachable.requires((a, b))
    &&& forall|a: Point2, b: Point2, r1: bool, r2: bool|
        reachable.ensures((a, b), r1) && reachable.ensures((a, b), r2) ==> r1 == r2
}

/// Whether `reachable` answers for `a` and `b` with no.
pub open spec fn refuses<V: Fn(Point2, Point2) -> bool>(reachable: &V, a: Point2, b: Point2) -> bool {
    reachable.ensures((a, b), false)
}

/// The point of the path that comes before `path[i]`: `start` for the first.
pub open spec fn point_before(start: Point2, path: Seq<Point2>, i: int) -> Point2 {
    if i <= 0 {
        start
    } else {
        path[i - 1]
    }
}

/// The way points kept once the first `n` points of `path` have been looked
/// at. The walk holds an anchor, `start` at first and then the last point
/// kept. A point that is reachable from the anchor is passed over; at one
/// that is not, the point before it is kept and becomes the anchor.
pub open spec fn kept_before<V: Fn(Point2, Point2) -> bool>(
    start: Point2,
    path: Seq<Point2>,
    reachable: &V,
    n: nat,
) -> Seq<Point2>
    decreases n,
{
    if n == 0 {
        Seq::empty()
    } else {
        let kept = kept_before(start, path, reachable, (n - 1) as nat);
        let anchor = if kept.len() == 0 {
            start
        } else {
            kept.last()
        };
        if refuses(reachable, anchor, path[n - 1]) {
            kept.push(point_before(start, path, n - 1))
        } else {
            kept
        }
    }
}

/// A planned path thinned out: the farthest way points that one trajectory
/// reaches from the one before, and the end of the path last.
pub open spec fn simplified_path<V: Fn(Point2, Point2) -> bool>(
    start: Point2,
    path: Seq<Point2>,
    reachable: &V,
) -> Seq<Point2> {
    if path.len() == 0 {
        Seq::empty()
    } else {
        kept_before(start, path, reachable, path.len()).push(path.last())
    }
}

impl<D: RobotData> Robot<D> {
    /// Whether a robot centred at `other_pos` would collide with this one:
    /// whether the two centres are closer than the robot clearance.
    pub fn collides_with_robot<F: Fn(Point2, Point2) -> Scalar>(
        &self,
        other_pos: Point2,
        distance: &F,
    ) -> (r: bool)
        requires
            is_a_metric(distance),
        ensures
            r == is_within(distance, self.pos, other_pos, Scalar { bits: ROBOT_CLEARANCE }),
    {
        measures_within(distance, self.pos, other_pos, Scalar::from_bits(ROBOT_CLEARANCE))
    }
}

/// The robots of `team`, each once, in the order in which the map hands them
/// out.
pub fn robots_of<'a, D: RobotData>(team: &'a HashMap<RobotId, Robot<D>>) -> (robots: Vec<
    &'a Robot<D>,
>)
    ensures
        robots@.unref().to_set() == team@.values(),
        robots@.len() == team@.len(),
{
    let mut robots: Vec<&'a Robot<D>> = Vec::new();
    for robot in it: team.values()
        invariant
            it.seq().unref().to_set() == team@.values(),
            it.seq().len() == team@.dom().len(),
            robots@.len() == it.index(),
            forall|i: int| 0 <= i < robots@.len() ==> robots@[i] == it.seq()[i],
            it.index() == it.seq().len() ==> robots@ == it.seq(),
        ensures
            robots@.unref().to_set() == team@.values(),
            robots@.len() == team@.len(),
    {
        robots.push(robot);
    }
    robots
}

/// Exec form of [`is_within`].
pub fn measures_within<F: Fn(Point2, Point2) -> Scalar>(
    distance: &F,
    a: Point2,
    b: Point2,
    limit: Scalar,
) -> (within: bool)
    requires
        is_a_metric(distance),
    ensures
        within == is_within(distance, a, b, limit),
{
    let d = distance(a, b);
    d.lt(limit)
}

/// Exec form of [`some_robot_is_close`].
pub fn any_robot_is_close<D: RobotData, F: Fn(Point2, Point2) -> Scalar>(
    team: &HashMap<RobotId, Robot<D>>,
    skip: Option<RobotId>,
    pos: Point2,
    distance: &F,
) -> (close: bool)
    requires
        is_a_metric(distance),
    ensures
        close == some_robot_is_close(team@, skip, pos, distance),
{
    let robots = robots_of(team);
    let mut close = false;
    let mut i: usize = 0;
    while i < robots.len()
        invariant
            is_a_metric(distance),
            i <= robots.len(),
            close == (exists|j: int|
                0 <= j < i && skip != Some((#[trigger] robots@[j]).id) && is_within(
                    distance,
                    robots@[j].pos,
                    pos,
                    Scalar { bits: ROBOT_CLEARANCE },
                )),
        decreases robots.len() - i,
    {
        let robot = robots[i];
        let other = match skip {
            Some(id) => robot.id != id,
            None => true,
        };
        if other && robot.collides_with_robot(pos, distance) {
            close = true;
        }
        i = i + 1;
    }
    proof {
        let all = robots@.unref();
        if close {
            let j = choose|j: int|
                0 <= j < robots@.len() && skip != Some((#[trigger] robots@[j]).id) && is_within(
                    distance,
                    robots@[j].pos,
                    pos,
                    Scalar { bits: ROBOT_CLEARANCE },
                );
            assert(all[j] == *robots@[j]);
            assert(all.to_set().contains(all[j]));
            assert(team@.values().contains(all[j]));
            let k = choose|k: RobotId| team@.contains_key(k) && team@[k] == all[j];
            assert(team@.contains_key(k));
        }
        if some_robot_is_close(team@, skip, pos, distance) {
            let k = choose|k: RobotId|
                #![trigger team@.contains_key(k)]
                team@.contains_key(k) && skip != Some(team@[k].id) && is_within(
                    distance,
                    team@[k].pos,
                    pos,
                    Scalar { bits: ROBOT_CLEARANCE },
                );
            assert(team@.values().contains(team@[k]));
            assert(all.to_set().contains(team@[k]));
            let j = choose|j: int| 0 <= j < all.len() && all[j] == team@[k];
            assert(skip != Some(robots@[j].id));
        }
    }
    close
}

impl Robot<AllyData> {
    /// Whether this robot may be at `pos` under `avoidance_mode`: see
    /// [`point_is_free`].
    pub fn is_free<F: Fn(Point2, Point2) -> Scalar>(
        &self,
        pos: Point2,
        world: &World,
        avoidance_mode: AvoidanceMode,
        distance: &F,
    ) -> (free: bool)
        requires
            is_a_metric(distance),
        ensures
            free == point_is_free(self.id, pos, world, avoidance_mode, distance),
    {
        if let AvoidanceMode::AvoidNothing = avoidance_mode {
            return true;
        }
        let is_colliding_with_allies = any_robot_is_close(
            &world.team,
            Some(self.id),
            pos,
            distance,
        );
        let is_colliding_with_ennemies = any_robot_is_close(&world.ennemies, None, pos, distance);
        let is_colliding_with_a_robot = is_colliding_with_allies || is_colliding_with_ennemies;
        if let AvoidanceMode::AvoidRobots = avoidance_mode {
            return !is_colliding_with_a_robot;
        }
        let is_colliding_with_ball = measures_within(
            distance,
            pos,
            world.ball.pos,
            Scalar::from_bits(BALL_CLEARANCE),
        );
        !is_colliding_with_a_robot && !is_colliding_with_ball
    }

    /// Whether a trajectory keeps clear under `avoidance_mode`. `samples`
    /// holds its positions at the collision time step, from its start on; it
    /// is valid where the robot may be at each of them.
    pub fn is_a_valid_trajectory<F: Fn(Point2, Point2) -> Scalar>(
        &self,
        samples: &Vec<Point2>,
        world: &World,
        avoidance_mode: AvoidanceMode,
        distance: &F,
    ) -> (valid: bool)
        requires
            is_a_metric(distance),
        ensures
            valid == trajectory_is_valid(self.id, samples@, world, avoidance_mode, distance),
    {
        let mut i: usize = 0;
        while i < samples.len()
            invariant
                is_a_metric(distance),
                i <= samples.len(),
                forall|j: int|
                    0 <= j < i ==> point_is_free(
                        self.id,
                        #[trigger] samples@[j],
                        world,
                        avoidance_mode,
                        distance,
                    ),
            decreases samples.len() - i,
        {
            if !self.is_free(samples[i], world, avoidance_mode, distance) {
                return false;
            }
            i = i + 1;
        }
        true
    }

    /// Thins a planned path out: see [`simplified_path`]. `path` leads from
    /// the robot's position, which it does not hold, to the destination;
    /// `reachable` says whether one trajectory from its first argument to its
    /// second is valid.
    pub fn simplify_path<V: Fn(Point2, Point2) -> bool>(
        &self,
        path: &Vec<Point2>,
        reachable: &V,
    ) -> (simplified: Vec<Point2>)
        requires
            is_a_verdict(reachable),
        ensures
            simplified@ == simplified_path(self.pos, path@, reachable),
    {
        let mut simplified: Vec<Point2> = Vec::new();
        let mut last_p = self.pos;
        let mut i: usize = 0;
        while i < path.len()
            invariant
                is_a_verdict(reachable),
                i <= path.len(),
                simplified@ == kept_before(self.pos, path@, reachable, i as nat),
                last_p == point_before(self.pos, path@, i as int),
            decreases path.len() - i,
        {
            let p = path[i];
            let anchor = if simplified.len() == 0 {
                self.pos
            } else {
                simplified[simplified.len() - 1]
            };
            let t_is_valid = reachable(anchor, p);
            if !t_is_valid {
                simplified.push(last_p);
            }
            last_p = p;
            i = i + 1;
        }
        if path.len() > 0 {
            simplified.push(last_p);
        }
        simplified
    }
}

/// A point that is free under a mode is free under every mode that avoids
/// less, and every point is free where nothing is avoided.
pub proof fn lemma_stricter_modes_free_fewer_points<F: Fn(Point2, Point2) -> Scalar>(
    id: RobotId,
    pos: Point2,
    world: &World,
    distance: &F,
)
    ensures
        point_is_free(id, pos, world, AvoidanceMode::AvoidNothing, distance),
        point_is_free(id, pos, world, AvoidanceMode::AvoidRobotsAndBall, distance)
            ==> point_is_free(id, pos, world, AvoidanceMode::AvoidRobots, distance),
{
}

/// A robot is no obstacle to itself: alone in the world, it is free
/// wherever robots are avoided.
pub proof fn lemma_a_robot_alone_is_free<F: Fn(Point2, Point2) -> Scalar>(
    id: RobotId,
    pos: Point2,
    world: &World,
    distance: &F,
)
    requires
        forall|k: RobotId| #[trigger] world.team@.contains_key(k) ==> world.team@[k].id == id,
        world.ennemies@.dom() =~= Set::<RobotId>::empty(),
    ensures
        point_is_free(id, pos, world, AvoidanceMode::AvoidRobots, distance),
{
}

/// A trajectory is valid exactly if each part of it is: cutting it in two
/// at any sample loses and adds nothing.
pub proof fn lemma_validity_is_sample_by_sample<F: Fn(Point2, Point2) -> Scalar>(
    id: RobotId,
    samples: Seq<Point2>,
    cut: int,
    world: &World,
    mode: AvoidanceMode,
    distance: &F,
)
    requires
        0 <= cut <= samples.len(),
    ensures
        trajectory_is_valid(id, samples, world, mode, distance) <==> (trajectory_is_valid(
            id,
            samples.take(cut),
            world,
            mode,
            distance,
        ) && trajectory_is_valid(id, samples.skip(cut), world, mode, distance)),
        mode is AvoidNothing ==> trajectory_is_valid(id, samples, world, mode, distance),
{
    let head = samples.take(cut);
    let tail = samples.skip(cut);
    if trajectory_is_valid(id, head, world, mode, distance) && trajectory_is_valid(
        id,
        tail,
        world,
        mode,
        distance,
    ) {
        assert forall|j: int| 0 <= j < samples.len() implies point_is_free(
            id,
            #[trigger] samples[j],
            world,
            mode,
            distance,
        ) by {
            if j < cut {
                assert(head[j] == samples[j]);
            } else {
                assert(tail[j - cut] == samples[j]);
            }
        }
    }
    if trajectory_is_valid(id, samples, world, mode, distance) {
        assert forall|j: int| 0 <= j < head.len() implies point_is_free(
            id,
            #[trigger] head[j],
            world,
            mode,
            distance,
        ) by {
            assert(head[j] == samples[j]);
        }
        assert forall|j: int| 0 <= j < tail.len() implies point_is_free(
            id,
            #[trigger] tail[j],
            world,
            mode,
            distance,
        ) by {
            assert(tail[j] == samples[j + cut]);
        }
    }
}

/// The way points kept from the first `n` points of a path are no more
/// than `n`, and each is the start or a point of the path before the `n`-th.
pub proof fn lemma_kept_points_are_of_the_path<V: Fn(Point2, Point2) -> bool>(
    start: Point2,
    path: Seq<Point2>,
    reachable: &V,
    n: nat,
)
    requires
        n <= path.len(),
    ensures
        kept_before(start, path, reachable, n).len() <= n,
        forall|i: int|
            0 <= i < kept_before(start, path, reachable, n).len() ==> exists|j: int|
                0 <= j < n && #[trigger] kept_before(start, path, reachable, n)[i] == point_before(
                    start,
                    path,
                    j,
                ),
    decreases n,
{
    if n > 0 {
        lemma_kept_points_are_of_the_path(start, path, reachable, (n - 1) as nat);
        let before = kept_before(start, path, reachable, (n - 1) as nat);
        let kept = kept_before(start, path, reachable, n);
        assert forall|i: int| 0 <= i < kept.len() implies exists|j: int|
            0 <= j < n && #[trigger] kept[i] == point_before(start, path, j) by {
            if i < before.len() {
                assert(kept[i] == before[i]);
                let j = choose|j: int| 0 <= j < n - 1 && before[i] == point_before(start, path, j);
                assert(0 <= j < n && kept[i] == point_before(start, path, j));
            } else {
                assert(kept[i] == point_before(start, path, n - 1));
            }
        }
    }
}

/// A thinned path ends where the path ends, has at least that one way
/// point and at most one more than the path has points, and is made of the
/// start and of points of the path.
pub proof fn lemma_simplified_path_ends_at_the_destination<V: Fn(Point2, Point2) -> bool>(
    start: Point2,
    path: Seq<Point2>,
    reachable: &V,
)
    requires
        path.len() > 0,
    ensures
        simplified_path(start, path, reachable).last() == path.last(),
        1 <= simplified_path(start, path, reachable).len() <= path.len() + 1,
        forall|i: int|
            0 <= i < simplified_path(start, path, reachable).len() ==> {
                ||| #[trigger] simplified_path(start, path, reachable)[i] == start
                ||| path.contains(simplified_path(start, path, reachable)[i])
            },
{
    lemma_kept_points_are_of_the_path(start, path, reachable, path.len());
    let kept = kept_before(start, path, reachable, path.len());
    let simplified = simplified_path(start, path, reachable);
    assert forall|i: int| 0 <= i < simplified.len() implies {
        ||| #[trigger] simplified[i] == start
        ||| path.contains(simplified[i])
    } by {
        if i < kept.len() {
            assert(simplified[i] == kept[i]);
            let j = choose|j: int|
                0 <= j < path.len() && kept[i] == point_before(start, path, j);
            if j > 0 {
                assert(path[j - 1] == kept[i]);
            }
        } else {
            assert(simplified[i] == path[path.len() - 1]);
        }
    }
}

/// The places in the path of the way points kept once the first `n` points
/// have been looked at, where place 0 is the start and place `j` the `j`-th
/// point of the path.
pub open spec fn kept_places<V: Fn(Point2, Point2) -> bool>(
    start: Point2,
    path: Seq<Point2>,
    reachable: &V,
    n: nat,
) -> Seq<int>
    decreases n,
{
    if n == 0 {
        Seq::empty()
    } else {
        let kept = kept_places(start, path, reachable, (n - 1) as nat);
        let anchor = if kept.len() == 0 {
            start
        } else {
            point_before(start, path, kept.last())
        };
        if refuses(reachable, anchor, path[n - 1]) {
            kept.push(n - 1)
        } else {
            kept
        }
    }
}

/// The way points kept are points of the path in the order of the path,
/// none twice: the places they are taken from grow strictly.
pub proof fn lemma_kept_points_are_in_order<V: Fn(Point2, Point2) -> bool>(
    start: Point2,
    path: Seq<Point2>,
    reachable: &V,
    n: nat,
)
    ensures
        kept_before(start, path, reachable, n).len() == kept_places(
            start,
            path,
            reachable,
            n,
        ).len(),
        forall|i: int|
            0 <= i < kept_places(start, path, reachable, n).len() ==> {
                &&& 0 <= #[trigger] kept_places(start, path, reachable, n)[i] < n
                &&& kept_before(start, path, reachable, n)[i] == point_before(
                    start,
                    path,
                    kept_places(start, path, reachable, n)[i],
                )
            },
        forall|i: int, j: int|
            0 <= i < j < kept_places(start, path, reachable, n).len() ==> kept_places(
                start,
                path,
                reachable,
                n,
            )[i] < kept_places(start, path, reachable, n)[j],
    decreases n,
{
    if n > 0 {
        lemma_kept_points_are_in_order(start, path, reachable, (n - 1) as nat);
        let before = kept_places(start, path, reachable, (n - 1) as nat);
        let places = kept_places(start, path, reachable, n);
        let kept_then = kept_before(start, path, reachable, (n - 1) as nat);
        let kept = kept_before(start, path, reachable, n);
        if before.len() > 0 {
            assert(kept_then.last() == point_before(start, path, before.last()));
        }
        assert forall|i: int| 0 <= i < places.len() implies {
            &&& 0 <= #[trigger] places[i] < n
            &&& kept[i] == point_before(start, path, places[i])
        } by {
            if i < before.len() {
                assert(places[i] == before[i]);
                assert(kept[i] == kept_then[i]);
            }
        }
        assert forall|i: int, j: int| 0 <= i < j < places.len() implies places[i] < places[j] by {
            if j < before.len() {
                assert(places[i] == before[i] && places[j] == before[j]);
            } else {
                assert(places[i] == before[i]);
                assert(before[i] < n - 1);
            }
        }
    }
}

/// Where no point is out of reach of another, no point of a path is kept
/// on the way.
pub proof fn lemma_open_field_keeps_nothing<V: Fn(Point2, Point2) -> bool>(
    start: Point2,
    path: Seq<Point2>,
    reachable: &V,
    n: nat,
)
    requires
        forall|a: Point2, b: Point2| !#[trigger] refuses(reachable, a, b),
    ensures
        kept_before(start, path, reachable, n) == Seq::<Point2>::empty(),
    decreases n,
{
    if n > 0 {
        lemma_open_field_keeps_nothing(start, path, reachable, (n - 1) as nat);
    }
}

/// Where no point is out of reach of another, a path thins out to its end
/// alone.
pub proof fn lemma_open_field_needs_one_way_point<V: Fn(Point2, Point2) -> bool>(
    start: Point2,
    path: Seq<Point2>,
    reachable: &V,
)
    requires
        forall|a: Point2, b: Point2| !#[trigger] refuses(reachable, a, b),
        path.len() > 0,
    ensures
        simplified_path(start, path, reachable) == seq![path.last()],
{
    lemma_open_field_keeps_nothing(start, path, reachable, path.len());
    assert(simplified_path(start, path, reachable) =~= seq![path.last()]);
}

} // verus!
