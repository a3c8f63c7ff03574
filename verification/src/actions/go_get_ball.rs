//! Fetching the ball.
use crate::actions::{Aim, Destination, GotoOrder, SkillAction, SkillEvent, SETTLE_MILLIS};
use crate::world::{AllyData, AllyRobot, AvoidanceMode, Robot};
use vstd::prelude::*;

verus! {

/// Fetching the ball: the dribbler goes on, the robot chases the ball until
/// it has it, and then settles.
#[derive(Clone, Copy, Debug, PartialEq, Eq, Structural)]
pub enum GoGetBall {
    Start,
    /// Chasing the ball; the chase is dropped once the robot has it.
    Chasing,
    /// Holding the ball, settling.
    Settling,
    Done,
}

/// The chase: to the ball, facing where the ball was when the skill began.
pub open spec fn chase() -> GotoOrder {
    GotoOrder {
        destination: Destination::Ball,
        aim: Aim::AsBefore,
        mode: AvoidanceMode::AvoidNothing,
    }
}

/// The first chase, which measures the bearing that the later ones keep.
pub open spec fn first_chase() -> GotoOrder {
    GotoOrder {
        destination: Destination::Ball,
        aim: Aim::TowardsBall,
        mode: AvoidanceMode::AvoidNothing,
    }
}

/// `robot` with its dribbler on or off.
pub open spec fn dribbling(robot: AllyRobot, on: bool) -> AllyRobot {
    Robot { internal_data: AllyData { should_dribble: on, ..robot.internal_data }, ..robot }
}

impl GoGetBall {
    /// The skill, the robot and the request after `event`.
    ///
    /// At the start the dribbler goes on. Whenever a chase ends, by itself
    /// or because the robot got the ball, a robot with the ball settles and
    /// one without chases again. The skill is done after settling.
    pub open spec fn stepped(self, robot: AllyRobot, event: SkillEvent) -> (
        GoGetBall,
        AllyRobot,
        SkillAction,
    ) {
        match (self, event) {
            (GoGetBall::Start, SkillEvent::Started) => {
                if robot.has_ball {
                    (
                        GoGetBall::Settling,
                        dribbling(robot, true),
                        SkillAction::Sleep { millis: SETTLE_MILLIS },
                    )
                } else {
                    (
                        GoGetBall::Chasing,
                        dribbling(robot, true),
                        SkillAction::GotoUntilBall(first_chase()),
                    )
                }
            },
            (GoGetBall::Chasing, SkillEvent::GotoFinished(_))
            | (GoGetBall::Chasing, SkillEvent::BallAcquired) => {
                if robot.has_ball {
                    (GoGetBall::Settling, robot, SkillAction::Sleep { millis: SETTLE_MILLIS })
                } else {
                    (GoGetBall::Chasing, robot, SkillAction::GotoUntilBall(chase()))
                }
            },
            (GoGetBall::Settling, SkillEvent::SleepOver) => (
                GoGetBall::Done,
                robot,
                SkillAction::Finish(Ok(())),
            ),
            _ => (self, robot, SkillAction::Continue),
        }
    }

    pub fn new() -> (skill: GoGetBall)
        ensures
            skill == GoGetBall::Start,
    {
        GoGetBall::Start
    }

    /// Takes `event` in, writes to `robot` and decides: see
    /// [`GoGetBall::stepped`].
    pub fn step(&mut self, robot: &mut AllyRobot, event: SkillEvent) -> (action: SkillAction)
        ensures
            (*final(self), *final(robot), action) == old(self).stepped(*old(robot), event),
    {
        match (*self, event) {
            (GoGetBall::Start, SkillEvent::Started) => {
                robot.enable_dribbler();
                if robot.has_ball() {
                    *self = GoGetBall::Settling;
                    SkillAction::Sleep { millis: SETTLE_MILLIS }
                } else {
                    *self = GoGetBall::Chasing;
                    SkillAction::GotoUntilBall(
                        GotoOrder {
                            destination: Destination::Ball,
                            aim: Aim::TowardsBall,
                            mode: AvoidanceMode::AvoidNothing,
                        },
                    )
                }
            },
            (GoGetBall::Chasing, SkillEvent::GotoFinished(_))
            | (GoGetBall::Chasing, SkillEvent::BallAcquired) => {
                if robot.has_ball() {
                    *self = GoGetBall::Settling;
                    SkillAction::Sleep { millis: SETTLE_MILLIS }
                } else {
                    SkillAction::GotoUntilBall(
                        GotoOrder {
                            destination: Destination::Ball,
                            aim: Aim::AsBefore,
                            mode: AvoidanceMode::AvoidNothing,
                        },
                    )
                }
            },
            (GoGetBall::Settling, SkillEvent::SleepOver) => {
                *self = GoGetBall::Done;
                SkillAction::Finish(Ok(()))
            },
            _ => SkillAction::Continue,
        }
    }
}

/// The skill settles, and so ends, only with the ball; it never turns the
/// dribbler off and never asks for a kick.
pub proof fn lemma_go_get_ball_ends_with_the_ball(
    skill: GoGetBall,
    robot: AllyRobot,
    event: SkillEvent,
)
    ensures
        ({
            let (after, robot_after, action) = skill.stepped(robot, event);
            &&& (after is Settling && !(skill is Settling)) ==> robot.has_ball
            &&& after is Done ==> skill is Settling || skill is Done
            &&& action is Finish ==> skill is Settling && after is Done
            &&& robot_after == robot || robot_after == dribbling(robot, true)
            &&& skill is Start && event is Started ==> robot_after.internal_data.should_dribble
        }),
{
}

} // verus!
