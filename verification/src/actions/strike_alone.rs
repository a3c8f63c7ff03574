//! Shooting at a target.
use crate::actions::go_get_ball::dribbling;
use crate::actions::pass_to::kicking;
use crate::actions::{
    Aim, Destination, GotoOrder, SkillAction, SkillError, SkillEvent, KICK_PERIOD_MILLIS,
};
use crate::math::Point2;
use crate::world::{AllyRobot, AvoidanceMode, Kick};
use vstd::prelude::*;

verus! {

/// What a shot is busy with.
#[derive(Clone, Copy, Debug, PartialEq, Eq, Structural)]
pub enum StrikePhase {
    Start,
    /// Moving behind the ball, clear of robots and ball.
    Staging,
    /// Moving onto the ball with the dribbler on.
    Approaching,
    /// Kicking once a second until the ball is gone.
    Kicking,
    Done,
}

/// A shot at `target`.
#[derive(Clone, Copy, Debug, PartialEq, Eq, Structural)]
pub struct StrikeAlone {
    pub target: Point2,
    pub phase: StrikePhase,
}

/// Kicking goes on while the robot has the ball; then the shot is done.
pub open spec fn kick_or_finish(has_ball: bool) -> (StrikePhase, SkillAction) {
    if has_ball {
        (StrikePhase::Kicking, SkillAction::NextTick { period_millis: KICK_PERIOD_MILLIS })
    } else {
        (StrikePhase::Done, SkillAction::Finish(Ok(())))
    }
}

impl StrikeAlone {
    /// The motion behind the ball, facing the target.
    pub open spec fn staging(self) -> GotoOrder {
        GotoOrder {
            destination: Destination::BehindBall { target: self.target },
            aim: Aim::AlongBallTo { target: self.target },
            mode: AvoidanceMode::AvoidRobotsAndBall,
        }
    }

    /// The motion onto the ball, facing the target.
    pub open spec fn approach(self) -> GotoOrder {
        GotoOrder {
            destination: Destination::Ball,
            aim: Aim::AlongBallTo { target: self.target },
            mode: AvoidanceMode::AvoidRobots,
        }
    }

    /// The shot, the robot and the request after `event`.
    ///
    /// The robot moves behind the ball; a failure of that motion ends the
    /// shot with its error. Then the dribbler goes on and the robot moves
    /// onto the ball until that motion ends or it has the ball. Then the
    /// dribbler goes off, and while the robot has the ball it asks for a
    /// straight kick once a second.
    pub open spec fn stepped(self, robot: AllyRobot, event: SkillEvent) -> (
        StrikeAlone,
        AllyRobot,
        SkillAction,
    ) {
        match (self.phase, event) {
            (StrikePhase::Start, SkillEvent::Started) => (
                StrikeAlone { phase: StrikePhase::Staging, ..self },
                robot,
                SkillAction::Goto(self.staging()),
            ),
            (StrikePhase::Staging, SkillEvent::GotoFinished(Err(e))) => (
                StrikeAlone { phase: StrikePhase::Done, ..self },
                robot,
                SkillAction::Finish(Err(SkillError::Motion(e))),
            ),
            (StrikePhase::Staging, SkillEvent::GotoFinished(Ok(_))) => (
                StrikeAlone { phase: StrikePhase::Approaching, ..self },
                dribbling(robot, true),
                SkillAction::GotoUntilBall(self.approach()),
            ),
            (StrikePhase::Approaching, SkillEvent::GotoFinished(_))
            | (StrikePhase::Approaching, SkillEvent::BallAcquired) => {
                let (phase, action) = kick_or_finish(robot.has_ball);
                (StrikeAlone { phase, ..self }, dribbling(robot, false), action)
            },
            (StrikePhase::Kicking, SkillEvent::Ticked) => {
                let (phase, action) = kick_or_finish(robot.has_ball);
                (StrikeAlone { phase, ..self }, kicking(robot, Kick::Straight), action)
            },
            _ => (self, robot, SkillAction::Continue),
        }
    }

    pub fn new(target: Point2) -> (skill: StrikeAlone)
        ensures
            skill == (StrikeAlone { target, phase: StrikePhase::Start }),
    {
        StrikeAlone { target, phase: StrikePhase::Start }
    }

    fn kick_or_finish(&mut self, has_ball: bool) -> (action: SkillAction)
        ensures
            (final(self).phase, action) == kick_or_finish(has_ball),
            final(self).target == old(self).target,
    {
        if has_ball {
            self.phase = StrikePhase::Kicking;
            SkillAction::NextTick { period_millis: KICK_PERIOD_MILLIS }
        } else {
            self.phase = StrikePhase::Done;
            SkillAction::Finish(Ok(()))
        }
    }

    /// Takes `event` in, writes to `robot` and decides: see
    /// [`StrikeAlone::stepped`].
    pub fn step(&mut self, robot: &mut AllyRobot, event: SkillEvent) -> (action: SkillAction)
        ensures
            (*final(self), *final(robot), action) == old(self).stepped(*old(robot), event),
    {
        match (self.phase, event) {
            (StrikePhase::Start, SkillEvent::Started) => {
                self.phase = StrikePhase::Staging;
                SkillAction::Goto(
                    GotoOrder {
                        destination: Destination::BehindBall { target: self.target },
                        aim: Aim::AlongBallTo { target: self.target },
                        mode: AvoidanceMode::AvoidRobotsAndBall,
                    },
                )
            },
            (StrikePhase::Staging, SkillEvent::GotoFinished(Err(e))) => {
                self.phase = StrikePhase::Done;
                SkillAction::Finish(Err(SkillError::Motion(e)))
            },
            (StrikePhase::Staging, SkillEvent::GotoFinished(Ok(_))) => {
                self.phase = StrikePhase::Approaching;
                robot.enable_dribbler();
                SkillAction::GotoUntilBall(
                    GotoOrder {
                        destination: Destination::Ball,
                        aim: Aim::AlongBallTo { target: self.target },
                        mode: AvoidanceMode::AvoidRobots,
                    },
                )
            },
            (StrikePhase::Approaching, SkillEvent::GotoFinished(_))
            | (StrikePhase::Approaching, SkillEvent::BallAcquired) => {
                robot.disable_dribbler();
                self.kick_or_finish(robot.has_ball())
            },
            (StrikePhase::Kicking, SkillEvent::Ticked) => {
                robot.kick(Kick::Straight);
                self.kick_or_finish(robot.has_ball())
            },
            _ => SkillAction::Continue,
        }
    }
}

/// A shot fails only with the error of the motion behind the ball, and ends
/// well only once the robot is without the ball; a kick is asked for only at
/// a tick of the kicking phase, which only a robot with the ball enters.
pub proof fn lemma_shot_kicks_while_it_has_the_ball(
    skill: StrikeAlone,
    robot: AllyRobot,
    event: SkillEvent,
)
    ensures
        ({
            let (after, robot_after, action) = skill.stepped(robot, event);
            &&& after.target == skill.target
            &&& match action {
                SkillAction::Finish(Ok(_)) => !robot.has_ball && (skill.phase is Approaching
                    || skill.phase is Kicking),
                SkillAction::Finish(Err(e)) => skill.phase is Staging && match event {
                    SkillEvent::GotoFinished(Err(cause)) => e == SkillError::Motion(cause),
                    _ => false,
                },
                SkillAction::NextTick { period_millis } => robot.has_ball && period_millis
                    == KICK_PERIOD_MILLIS,
                _ => true,
            }
            &&& robot_after.internal_data.should_kick != robot.internal_data.should_kick ==> (
            skill.phase is Kicking && event is Ticked && robot_after == kicking(
                robot,
                Kick::Straight,
            ))
        }),
{
}

} // verus!
