//! What the team sends to its robots each tick, and what it takes back.
pub mod sim_controller;

use crate::math::Scalar;
use crate::world::vision::robot_id_of;
use crate::world::{AllyData, AllyRobot, Kick, Robot, RobotId, World};
use std::collections::HashMap;
use vstd::prelude::*;

verus! {

broadcast use vstd::std_specs::hash::group_hash_axioms;

/// Bits of 5: speed of every kick.
pub const KICK_SPEED: u64 = 0x4014_0000_0000_0000;

/// Bits of 45: angle of a chip kick in degrees.
pub const CHIP_KICK_ANGLE: u64 = 0x4046_8000_0000_0000;

/// Bits of 1500: speed of a dribbler that is on.
pub const DRIBBLER_SPEED: u64 = 0x4097_7000_0000_0000;

/// Robot slots of a stop packet.
pub const STOP_PACKET_SLOTS: u32 = 16;

/// How a robot is told to move.
#[derive(Clone, Copy, Debug, PartialEq, Eq, Structural)]
pub enum MoveCommand {
    /// Velocities in the robot's own frame.
    LocalVelocity { forward: Scalar, left: Scalar, angular: Scalar },
    /// Velocities of the four wheels.
    WheelVelocity { front_right: Scalar, back_right: Scalar, back_left: Scalar, front_left: Scalar },
}

/// The command of one robot in a packet.
#[derive(Clone, Copy, Debug, PartialEq, Eq, Structural)]
pub struct RobotCommand {
    pub id: u32,
    pub move_command: MoveCommand,
    pub kick_speed: Option<Scalar>,
    /// In degrees: 0 for a straight kick.
    pub kick_angle: Option<Scalar>,
    pub dribbler_speed: Option<Scalar>,
}

/// What a robot reports back: its number on the wire, and whether the ball
/// touches its dribbler.
#[derive(Clone, Copy, Debug, PartialEq, Eq, Structural)]
pub struct RobotFeedback {
    pub id: u32,
    pub dribbler_ball_contact: bool,
}

/// The command for an ally in the state `robot`: its target velocities, the
/// dribbler at its fixed speed or at zero, and the pending kick if there is
/// one, at the fixed speed and at 45 degrees for a chip.
pub open spec fn command_for(robot: AllyRobot) -> RobotCommand {
    RobotCommand {
        id: robot.id as u32,
        move_command: MoveCommand::LocalVelocity {
            forward: robot.internal_data.target_vel.x,
            left: robot.internal_data.target_vel.y,
            angular: robot.internal_data.target_angular_vel,
        },
        kick_speed: match robot.internal_data.should_kick {
            Some(_) => Some(Scalar { bits: KICK_SPEED }),
            None => None,
        },
        kick_angle: match robot.internal_data.should_kick {
            Some(Kick::Chip) => Some(Scalar { bits: CHIP_KICK_ANGLE }),
            Some(Kick::Straight) => Some(Scalar { bits: 0 }),
            None => None,
        },
        dribbler_speed: if robot.internal_data.should_dribble {
            Some(Scalar { bits: DRIBBLER_SPEED })
        } else {
            Some(Scalar { bits: 0 })
        },
    }
}

/// An ally once its command is out: no kick is pending any more.
pub open spec fn kick_consumed(robot: AllyRobot) -> AllyRobot {
    Robot { internal_data: AllyData { should_kick: None, ..robot.internal_data }, ..robot }
}

/// The command that stops robot `id`: wheels at rest, no kick, dribbler off.
pub open spec fn stop_command(id: u32) -> RobotCommand {
    RobotCommand {
        id,
        move_command: MoveCommand::WheelVelocity {
            front_right: Scalar { bits: 0 },
            back_right: Scalar { bits: 0 },
            back_left: Scalar { bits: 0 },
            front_left: Scalar { bits: 0 },
        },
        kick_speed: Some(Scalar { bits: 0 }),
        kick_angle: Some(Scalar { bits: 0 }),
        dribbler_speed: Some(Scalar { bits: 0 }),
    }
}

/// `team` after one feedback entry: the ally that it names, if known, has
/// the ball exactly if its dribbler touches it.
pub open spec fn team_after_feedback(
    team: Map<RobotId, AllyRobot>,
    feedback: RobotFeedback,
) -> Map<RobotId, AllyRobot> {
    let id = robot_id_of(feedback.id);
    if team.contains_key(id) {
        team.insert(id, Robot { has_ball: feedback.dribbler_ball_contact, ..team[id] })
    } else {
        team
    }
}

/// `team` after the feedback entries of one tick, taken in their order, so
/// that of two entries for one robot the later one stands.
pub open spec fn team_after_feedbacks(
    team: Map<RobotId, AllyRobot>,
    feedbacks: Seq<RobotFeedback>,
) -> Map<RobotId, AllyRobot>
    decreases feedbacks.len(),
{
    if feedbacks.len() == 0 {
        team
    } else {
        team_after_feedback(team_after_feedbacks(team, feedbacks.drop_last()), feedbacks.last())
    }
}

/// Makes the command of `robot` and consumes its pending kick.
pub fn make_command(robot: &mut AllyRobot) -> (command: RobotCommand)
    ensures
        command == command_for(*old(robot)),
        *final(robot) == kick_consumed(*old(robot)),
{
    let should_dribble = robot.should_dribble();
    let target_vel = robot.get_target_vel();
    let angular = robot.get_target_angular_vel();
    let id = robot.get_id();
    let (kick_speed, kick_angle) = match robot.take_should_kick() {
        Some(Kick::Chip) => (
            Some(Scalar::from_bits(KICK_SPEED)),
            Some(Scalar::from_bits(CHIP_KICK_ANGLE)),
        ),
        Some(Kick::Straight) => (Some(Scalar::from_bits(KICK_SPEED)), Some(Scalar::zero())),
        None => (None, None),
    };
    let dribbler_speed = if should_dribble {
        Some(Scalar::from_bits(DRIBBLER_SPEED))
    } else {
        Some(Scalar::zero())
    };
    RobotCommand {
        id: id as u32,
        move_command: MoveCommand::LocalVelocity {
            forward: target_vel.x,
            left: target_vel.y,
            angular,
        },
        kick_speed,
        kick_angle,
        dribbler_speed,
    }
}

/// The numbers under which `team` holds robots, each once, in the order in
/// which the map hands them out.
pub fn ids_of<D: crate::world::RobotData>(team: &HashMap<RobotId, Robot<D>>) -> (ids: Vec<RobotId>)
    ensures
        ids@.to_set() == team@.dom(),
        ids@.no_duplicates(),
        ids@.len() == team@.len(),
{
    let mut ids: Vec<RobotId> = Vec::new();
    for id in it: team.keys()
        invariant
            it.seq().unref().to_set() == team@.dom(),
            it.seq().no_duplicates(),
            it.seq().len() == team@.dom().len(),
            ids@.len() == it.index(),
            forall|i: int| 0 <= i < ids@.len() ==> ids@[i] == *it.seq()[i],
            it.index() == it.seq().len() ==> ids@ == it.seq().unref(),
        ensures
            ids@.to_set() == team@.dom(),
            ids@.no_duplicates(),
            ids@.len() == team@.len(),
    {
        ids.push(*id);
    }
    ids
}

/// The stop packet: one stop command for each of the sixteen robot slots,
/// in the order of their numbers.
pub fn stop_commands() -> (commands: Vec<RobotCommand>)
    ensures
        commands@.len() == STOP_PACKET_SLOTS,
        forall|i: int| 0 <= i < commands@.len() ==> commands@[i] == stop_command(i as u32),
{
    let mut commands: Vec<RobotCommand> = Vec::new();
    let mut rid: u32 = 0;
    while rid < STOP_PACKET_SLOTS
        invariant
            rid <= STOP_PACKET_SLOTS,
            commands@.len() == rid,
            forall|i: int| 0 <= i < commands@.len() ==> commands@[i] == stop_command(i as u32),
        decreases STOP_PACKET_SLOTS - rid,
    {
        commands.push(
            RobotCommand {
                id: rid,
                move_command: MoveCommand::WheelVelocity {
                    front_right: Scalar::zero(),
                    back_right: Scalar::zero(),
                    back_left: Scalar::zero(),
                    front_left: Scalar::zero(),
                },
                kick_speed: Some(Scalar::zero()),
                kick_angle: Some(Scalar::zero()),
                dribbler_speed: Some(Scalar::zero()),
            },
        );
        rid = rid + 1;
    }
    commands
}

/// The commands of one tick: one for each ally of `team`, in the order in
/// which the map hands the allies out. Every pending kick goes out with its
/// command and is pending no more.
pub fn commands_for(team: &mut HashMap<RobotId, AllyRobot>) -> (commands: Vec<RobotCommand>)
    ensures
        final(team)@ == old(team)@.map_values(|robot: AllyRobot| kick_consumed(robot)),
        exists|order: Seq<RobotId>|
            {
                &&& order.no_duplicates()
                &&& order.to_set() == old(team)@.dom()
                &&& #[trigger] order.len() == commands@.len()
                &&& forall|i: int|
                    0 <= i < order.len() ==> commands@[i] == command_for(
                        old(team)@[#[trigger] order[i]],
                    )
            },
{
    let ids = ids_of(team);
    let mut commands: Vec<RobotCommand> = Vec::new();
    let mut i: usize = 0;
    while i < ids.len()
        invariant
            i <= ids.len(),
            ids@.no_duplicates(),
            ids@.to_set() == old(team)@.dom(),
            team@.dom() == old(team)@.dom(),
            commands@.len() == i,
            forall|j: int|
                0 <= j < i ==> commands@[j] == command_for(old(team)@[#[trigger] ids@[j]]),
            forall|j: int|
                0 <= j < i ==> team@[#[trigger] ids@[j]] == kick_consumed(old(team)@[ids@[j]]),
            forall|j: int| i <= j < ids@.len() ==> team@[#[trigger] ids@[j]] == old(team)@[ids@[j]],
        decreases ids.len() - i,
    {
        let id = ids[i];
        proof {
            assert(ids@.to_set().contains(ids@[i as int]));
        }
        match team.remove(&id) {
            Some(robot) => {
                let mut robot = robot;
                let command = make_command(&mut robot);
                team.insert(id, robot);
                commands.push(command);
                assert(team@.dom() =~= old(team)@.dom());
            },
            None => {
                assert(false);
            },
        }
        i = i + 1;
    }
    proof {
        let after = old(team)@.map_values(|robot: AllyRobot| kick_consumed(robot));
        assert forall|k: RobotId| team@.contains_key(k) implies #[trigger] team@[k] == after[k] by {
            assert(ids@.to_set().contains(k));
            let j = choose|j: int| 0 <= j < ids@.len() && ids@[j] == k;
            assert(team@[ids@[j]] == kick_consumed(old(team)@[ids@[j]]));
        }
        assert(team@ =~= after);
        assert(ids@.len() == commands@.len());
    }
    commands
}

/// Takes the feedback of one tick in: see [`team_after_feedbacks`].
pub fn apply_feedback(team: &mut HashMap<RobotId, AllyRobot>, feedbacks: &Vec<RobotFeedback>)
    ensures
        final(team)@ == team_after_feedbacks(old(team)@, feedbacks@),
{
    let mut i: usize = 0;
    while i < feedbacks.len()
        invariant
            i <= feedbacks.len(),
            team@ == team_after_feedbacks(old(team)@, feedbacks@.take(i as int)),
        decreases feedbacks.len() - i,
    {
        let feedback = feedbacks[i];
        let id = crate::world::vision::robot_id_from_wire(feedback.id);
        let ghost before = team@;
        match team.remove(&id) {
            Some(robot) => {
                let mut robot = robot;
                robot.set_has_ball(feedback.dribbler_ball_contact);
                team.insert(id, robot);
            },
            None => {},
        }
        proof {
            assert(team@ =~= team_after_feedback(before, feedback));
            let next = feedbacks@.take(i + 1);
            assert(next.drop_last() =~= feedbacks@.take(i as int));
            assert(next.last() == feedback);
        }
        i = i + 1;
    }
    proof {
        assert(feedbacks@.take(i as int) =~= feedbacks@);
    }
}

impl World {
    /// The commands of one tick for the team: see [`commands_for`].
    pub fn make_commands(&mut self) -> (commands: Vec<RobotCommand>)
        ensures
            final(self).team@ == old(self).team@.map_values(
                |robot: AllyRobot| kick_consumed(robot),
            ),
            exists|order: Seq<RobotId>|
                {
                    &&& order.no_duplicates()
                    &&& order.to_set() == old(self).team@.dom()
                    &&& #[trigger] order.len() == commands@.len()
                    &&& forall|i: int|
                        0 <= i < order.len() ==> commands@[i] == command_for(
                            old(self).team@[#[trigger] order[i]],
                        )
                },
            final(self).team_color == old(self).team_color,
            final(self).field == old(self).field,
            final(self).ball == old(self).ball,
            final(self).ennemies == old(self).ennemies,
            old(self).wf() ==> final(self).wf(),
    {
        commands_for(&mut self.team)
    }

    /// Takes the feedback of one tick in: every ally that an entry names has
    /// the ball exactly if its dribbler touches it; nothing else changes.
    pub fn apply_feedback(&mut self, feedbacks: &Vec<RobotFeedback>)
        ensures
            final(self).team@ == team_after_feedbacks(old(self).team@, feedbacks@),
            final(self).team_color == old(self).team_color,
            final(self).field == old(self).field,
            final(self).ball == old(self).ball,
            final(self).ennemies == old(self).ennemies,
            old(self).wf() ==> final(self).wf(),
    {
        apply_feedback(&mut self.team, feedbacks);
        proof {
            lemma_feedback_keeps_the_team(old(self).team@, feedbacks@);
        }
    }
}

/// Feedback changes who has the ball and nothing else: the same robots are
/// known, each with its number and colour.
pub proof fn lemma_feedback_keeps_the_team(team: Map<RobotId, AllyRobot>, feedbacks: Seq<RobotFeedback>)
    ensures
        team_after_feedbacks(team, feedbacks).dom() == team.dom(),
        forall|id: RobotId| #[trigger]
            team.contains_key(id) ==> team_after_feedbacks(team, feedbacks)[id] == (Robot {
                has_ball: team_after_feedbacks(team, feedbacks)[id].has_ball,
                ..team[id]
            }),
    decreases feedbacks.len(),
{
    if feedbacks.len() > 0 {
        lemma_feedback_keeps_the_team(team, feedbacks.drop_last());
        let before = team_after_feedbacks(team, feedbacks.drop_last());
        assert(team_after_feedback(before, feedbacks.last()).dom() =~= team.dom());
    }
}

/// After the feedback of a tick, an ally that is known has the ball exactly
/// if the last entry that names it says so; an ally that no entry names is
/// as before.
pub proof fn lemma_last_feedback_stands(
    team: Map<RobotId, AllyRobot>,
    feedbacks: Seq<RobotFeedback>,
    id: RobotId,
    i: int,
)
    requires
        team.contains_key(id),
        -1 <= i < feedbacks.len(),
        i >= 0 ==> robot_id_of(feedbacks[i].id) == id,
        forall|j: int| i < j < feedbacks.len() ==> robot_id_of((#[trigger] feedbacks[j]).id) != id,
    ensures
        team_after_feedbacks(team, feedbacks)[id] == if i >= 0 {
            Robot { has_ball: feedbacks[i].dribbler_ball_contact, ..team[id] }
        } else {
            team[id]
        },
    decreases feedbacks.len(),
{
    lemma_feedback_keeps_the_team(team, feedbacks);
    if feedbacks.len() > 0 {
        let earlier = feedbacks.drop_last();
        lemma_feedback_keeps_the_team(team, earlier);
        if i < feedbacks.len() - 1 {
            assert forall|j: int| i < j < earlier.len() implies robot_id_of(
                (#[trigger] earlier[j]).id,
            ) != id by {
                assert(earlier[j] == feedbacks[j]);
            }
            lemma_last_feedback_stands(team, earlier, id, i);
            assert(robot_id_of(feedbacks[feedbacks.len() - 1].id) != id);
        }
    }
}

} // verus!
