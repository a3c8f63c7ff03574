//! Taking vision frames into the world.
use crate::math::{Point2, Scalar, Vec2};
use crate::world::{
    field::{Field, FieldSize},
    robot::fresh_or_known,
    team_is_consistent, Motion, Robot, RobotData, RobotDetection, RobotId, TeamColor, World,
};
use std::collections::HashMap;
use vstd::prelude::*;

verus! {

broadcast use vstd::std_specs::hash::group_hash_axioms;

/// The ball as one frame shows it, with the velocity estimated against the
/// ball's previous capture where there is one.
#[derive(Clone, Copy, Debug)]
pub struct BallSighting {
    pub pos: Point2,
    pub estimate: Option<Vec2>,
}

/// A robot as one frame shows it, with the velocities estimated against the
/// robot's previous capture where there is one.
#[derive(Clone, Copy, Debug)]
pub struct RobotSighting {
    pub detection: RobotDetection,
    pub estimate: Option<Motion>,
}

/// The detection block of a vision frame.
#[derive(Clone, Debug)]
pub struct DetectionFrame {
    /// Capture time in seconds of the vision clock.
    pub t_capture: Scalar,
    /// The first ball of the frame, if it shows one.
    pub ball: Option<BallSighting>,
    pub robots_blue: Vec<RobotSighting>,
    pub robots_yellow: Vec<RobotSighting>,
}

/// A decoded vision packet.
#[derive(Clone, Debug)]
pub struct VisionPacket {
    pub detection: Option<DetectionFrame>,
    pub geometry: Option<FieldSize>,
}

/// The number that a robot seen as `wire_id` goes by.
pub open spec fn robot_id_of(wire_id: u32) -> RobotId {
    (wire_id % 256) as RobotId
}

/// `team` after one sighting: the robot is created if its number is new, and
/// takes the detection in.
pub open spec fn team_after_sighting<D: RobotData>(
    team: Map<RobotId, Robot<D>>,
    color: TeamColor,
    sighting: RobotSighting,
    t_capture: Scalar,
) -> Map<RobotId, Robot<D>> {
    let id = robot_id_of(sighting.detection.robot_id);
    team.insert(
        id,
        fresh_or_known(team, id, color).detected(sighting.detection, t_capture, sighting.estimate),
    )
}

/// `team` after the sightings of one frame, taken in their order.
pub open spec fn team_after_sightings<D: RobotData>(
    team: Map<RobotId, Robot<D>>,
    color: TeamColor,
    sightings: Seq<RobotSighting>,
    t_capture: Scalar,
) -> Map<RobotId, Robot<D>>
    decreases sightings.len(),
{
    if sightings.len() == 0 {
        team
    } else {
        team_after_sighting(
            team_after_sightings(team, color, sightings.drop_last(), t_capture),
            color,
            sightings.last(),
            t_capture,
        )
    }
}

/// Reduces the number a robot has on the wire to a [`RobotId`].
pub fn robot_id_from_wire(wire_id: u32) -> (id: RobotId)
    ensures
        id == robot_id_of(wire_id),
{
    (wire_id % 256) as RobotId
}

/// Takes one sighting into `team`, whose robots wear `color`.
pub fn upsert<D: RobotData>(
    team: &mut HashMap<RobotId, Robot<D>>,
    color: TeamColor,
    sighting: RobotSighting,
    t_capture: Scalar,
)
    ensures
        final(team)@ == team_after_sighting(old(team)@, color, sighting, t_capture),
{
    let id = robot_id_from_wire(sighting.detection.robot_id);
    let mut robot = match team.remove(&id) {
        Some(known) => known,
        None => Robot::default_with_id(id, color),
    };
    robot.update_from_packet(sighting.detection, t_capture, sighting.estimate);
    team.insert(id, robot);
    assert(team@ =~= team_after_sighting(old(team)@, color, sighting, t_capture));
}

/// Takes the sightings of one frame into `team`, in their order.
pub fn upsert_all<D: RobotData>(
    team: &mut HashMap<RobotId, Robot<D>>,
    color: TeamColor,
    sightings: &Vec<RobotSighting>,
    t_capture: Scalar,
)
    ensures
        final(team)@ == team_after_sightings(old(team)@, color, sightings@, t_capture),
{
    let mut i: usize = 0;
    while i < sightings.len()
        invariant
            i <= sightings.len(),
            team@ == team_after_sightings(old(team)@, color, sightings@.take(i as int), t_capture),
        decreases sightings.len() - i,
    {
        upsert(team, color, sightings[i], t_capture);
        proof {
            let next = sightings@.take(i + 1);
            assert(next.drop_last() =~= sightings@.take(i as int));
            assert(next.last() == sightings@[i as int]);
        }
        i = i + 1;
    }
    proof {
        assert(sightings@.take(i as int) =~= sightings@);
    }
}

/// A team whose robots sit under their numbers in their colour stays so
/// through any sightings.
pub proof fn lemma_sightings_keep_consistency<D: RobotData>(
    team: Map<RobotId, Robot<D>>,
    color: TeamColor,
    sightings: Seq<RobotSighting>,
    t_capture: Scalar,
)
    requires
        team_is_consistent(team, color),
    ensures
        team_is_consistent(team_after_sightings(team, color, sightings, t_capture), color),
        forall|id: RobotId| #[trigger]
            team.contains_key(id) ==> team_after_sightings(
                team,
                color,
                sightings,
                t_capture,
            ).contains_key(id),
    decreases sightings.len(),
{
    if sightings.len() > 0 {
        lemma_sightings_keep_consistency(team, color, sightings.drop_last(), t_capture);
    }
}

/// After the sightings of a frame every robot sighted is known, and stands
/// and faces as its last sighting in the frame shows it, captured at the
/// time of the frame.
pub proof fn lemma_sighted_robots_are_known<D: RobotData>(
    team: Map<RobotId, Robot<D>>,
    color: TeamColor,
    sightings: Seq<RobotSighting>,
    t_capture: Scalar,
    i: int,
)
    requires
        0 <= i < sightings.len(),
        forall|j: int|
            i < j < sightings.len() ==> robot_id_of((#[trigger] sightings[j]).detection.robot_id)
                != robot_id_of(sightings[i].detection.robot_id),
    ensures
        ({
            let after = team_after_sightings(team, color, sightings, t_capture);
            let id = robot_id_of(sightings[i].detection.robot_id);
            &&& after.contains_key(id)
            &&& after[id].pos == sightings[i].detection.pos
            &&& after[id].orientation == sightings[i].detection.orientation
            &&& after[id].last_update == Some(t_capture)
        }),
    decreases sightings.len(),
{
    if i < sightings.len() - 1 {
        let earlier = sightings.drop_last();
        assert forall|j: int| i < j < earlier.len() implies robot_id_of(
            (#[trigger] earlier[j]).detection.robot_id,
        ) != robot_id_of(earlier[i].detection.robot_id) by {
            assert(earlier[j] == sightings[j]);
        }
        lemma_sighted_robots_are_known(team, color, earlier, t_capture, i);
        assert(sightings.last() == sightings[sightings.len() - 1]);
    }
}

/// `after` is `before` with the detection block `frame` taken in: the ball
/// where the frame shows one, then the robots of each colour into the map of
/// their team. The team colour stays.
pub open spec fn detection_applied(before: &World, after: &World, frame: DetectionFrame) -> bool {
    let (allies, ennemies) = match before.team_color {
        TeamColor::Blue => (frame.robots_blue, frame.robots_yellow),
        TeamColor::Yellow => (frame.robots_yellow, frame.robots_blue),
    };
    &&& after.team_color == before.team_color
    &&& after.ball == match frame.ball {
        Some(ball) => before.ball.detected(ball.pos, frame.t_capture, ball.estimate),
        None => before.ball,
    }
    &&& after.team@ == team_after_sightings(
        before.team@,
        before.team_color,
        allies@,
        frame.t_capture,
    )
    &&& after.ennemies@ == team_after_sightings(
        before.ennemies@,
        before.team_color.opposite_spec(),
        ennemies@,
        frame.t_capture,
    )
}

impl World {
    /// Takes a ball detection in: the velocity becomes `estimate` where an
    /// older capture is remembered, the position becomes `pos`, and
    /// `t_capture` is remembered.
    pub fn update_ball(&mut self, pos: Point2, t_capture: Scalar, estimate: Option<Vec2>)
        ensures
            final(self).ball == old(self).ball.detected(pos, t_capture, estimate),
            final(self).ball.pos == pos,
            final(self).ball.last_update == Some(t_capture),
            final(self).team_color == old(self).team_color,
            final(self).field == old(self).field,
            final(self).team == old(self).team,
            final(self).ennemies == old(self).ennemies,
    {
        self.ball.update_from_detection(pos, t_capture, estimate);
    }

    /// Takes the sighting of an ally in. Afterwards the ally is known, stands
    /// where it was detected, and moves as estimated where it had an older
    /// capture.
    pub fn upsert_ally(&mut self, sighting: RobotSighting, t_capture: Scalar)
        ensures
            final(self).team@ == team_after_sighting(
                old(self).team@,
                old(self).team_color,
                sighting,
                t_capture,
            ),
            ({
                let id = robot_id_of(sighting.detection.robot_id);
                let ally = final(self).team@[id];
                &&& final(self).team@.contains_key(id)
                &&& ally.pos == sighting.detection.pos
                &&& ally.orientation == sighting.detection.orientation
                &&& ally.last_update == Some(t_capture)
                &&& old(self).team@.contains_key(id) && old(self).team@[id].is_older_than(t_capture)
                    && sighting.estimate is Some ==> ally.vel == sighting.estimate->0.vel
                    && ally.angular_vel == sighting.estimate->0.angular_vel
            }),
            final(self).team_color == old(self).team_color,
            final(self).field == old(self).field,
            final(self).ball == old(self).ball,
            final(self).ennemies == old(self).ennemies,
            old(self).wf() ==> final(self).wf(),
    {
        upsert(&mut self.team, self.team_color, sighting, t_capture);
    }

    /// Takes the sighting of an enemy in, as [`World::upsert_ally`] does for
    /// an ally.
    pub fn upsert_enemy(&mut self, sighting: RobotSighting, t_capture: Scalar)
        ensures
            final(self).ennemies@ == team_after_sighting(
                old(self).ennemies@,
                old(self).team_color.opposite_spec(),
                sighting,
                t_capture,
            ),
            ({
                let id = robot_id_of(sighting.detection.robot_id);
                let ennemy = final(self).ennemies@[id];
                &&& final(self).ennemies@.contains_key(id)
                &&& ennemy.pos == sighting.detection.pos
                &&& ennemy.orientation == sighting.detection.orientation
                &&& ennemy.last_update == Some(t_capture)
                &&& old(self).ennemies@.contains_key(id) && old(self).ennemies@[id].is_older_than(
                    t_capture,
                ) && sighting.estimate is Some ==> ennemy.vel == sighting.estimate->0.vel
                    && ennemy.angular_vel == sighting.estimate->0.angular_vel
            }),
            final(self).team_color == old(self).team_color,
            final(self).field == old(self).field,
            final(self).ball == old(self).ball,
            final(self).team == old(self).team,
            old(self).wf() ==> final(self).wf(),
    {
        let color = self.team_color.opposite();
        upsert(&mut self.ennemies, color, sighting, t_capture);
    }

    /// Takes the detection block of a frame in: see [`detection_applied`].
    pub fn apply_detection(&mut self, frame: &DetectionFrame)
        ensures
            detection_applied(old(self), final(self), *frame),
            final(self).field == old(self).field,
            old(self).wf() ==> final(self).wf(),
    {
        if let Some(ball) = frame.ball {
            self.update_ball(ball.pos, frame.t_capture, ball.estimate);
        }
        let ennemy_color = self.team_color.opposite();
        match self.team_color {
            TeamColor::Blue => {
                upsert_all(&mut self.team, self.team_color, &frame.robots_blue, frame.t_capture);
                upsert_all(&mut self.ennemies, ennemy_color, &frame.robots_yellow, frame.t_capture);
            },
            TeamColor::Yellow => {
                upsert_all(&mut self.team, self.team_color, &frame.robots_yellow, frame.t_capture);
                upsert_all(&mut self.ennemies, ennemy_color, &frame.robots_blue, frame.t_capture);
            },
        }
        proof {
            if old(self).wf() {
                let (allies, ennemies) = match old(self).team_color {
                    TeamColor::Blue => (frame.robots_blue, frame.robots_yellow),
                    TeamColor::Yellow => (frame.robots_yellow, frame.robots_blue),
                };
                lemma_sightings_keep_consistency(
                    old(self).team@,
                    old(self).team_color,
                    allies@,
                    frame.t_capture,
                );
                lemma_sightings_keep_consistency(
                    old(self).ennemies@,
                    old(self).team_color.opposite_spec(),
                    ennemies@,
                    frame.t_capture,
                );
            }
        }
    }

    /// Takes a vision packet in: the detection block where it has one, then
    /// the field size where it has one. Says whether the tasks that wait for
    /// a world update are to be woken, which is after every detection block.
    pub fn apply_packet(&mut self, packet: &VisionPacket) -> (notify: bool)
        ensures
            notify == packet.detection is Some,
            final(self).team_color == old(self).team_color,
            final(self).field == match packet.geometry {
                Some(size) => Field {
                    field_length: size.field_length,
                    field_width: size.field_width,
                    ..old(self).field
                },
                None => old(self).field,
            },
            match packet.detection {
                Some(frame) => detection_applied(old(self), final(self), frame),
                None => final(self).ball == old(self).ball && final(self).team == old(self).team
                    && final(self).ennemies == old(self).ennemies,
            },
            old(self).wf() ==> final(self).wf(),
    {
        let notify = match &packet.detection {
            Some(frame) => {
                self.apply_detection(frame);
                true
            },
            None => false,
        };
        if let Some(size) = packet.geometry {
            self.field.update_from_packet(size);
        }
        notify
    }
}

} // verus!
