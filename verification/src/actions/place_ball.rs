//! Laying the ball down at a target.
use crate::actions::go_get_ball::{dribbling, GoGetBall};
use crate::actions::{Aim, Destination, GotoOrder, SkillAction, SkillEvent, RELEASE_MILLIS};
use crate::math::Point2;
use crate::world::{AllyRobot, AvoidanceMode};
use vstd::prelude::*;

verus! {

/// How many robot-to-ball vectors the robot steps back from the target once
/// the ball lies.
pub const STEP_AWAY_FACTOR: u8 = 4;

/// What a ball placement is busy with.
#[derive(Clone, Copy, Debug, PartialEq, Eq, Structural)]
pub enum PlacePhase {
    Start,
    /// Fetching the ball.
    Fetching(GoGetBall),
    /// Carrying the ball to where it will lie at the target.
    Carrying,
    /// Dribbler off, waiting for the ball to rest.
    Releasing,
    /// Stepping back from the ball.
    SteppingAway,
    Done,
}

/// The placement of the ball at `target`.
#[derive(Clone, Copy, Debug, PartialEq, Eq, Structural)]
pub struct PlaceBall {
    pub target: Point2,
    pub phase: PlacePhase,
}

impl PlaceBall {
    /// The motion that carries the ball: to the point from which the ball,
    /// held as it is, lies at the target, facing the ball.
    pub open spec fn carry(self) -> GotoOrder {
        GotoOrder {
            destination: Destination::BallDropOff { target: self.target, factor: 1 },
            aim: Aim::TowardsBall,
            mode: AvoidanceMode::AvoidRobots,
        }
    }

    /// The motion that steps back, facing as before.
    pub open spec fn step_away(self) -> GotoOrder {
        GotoOrder {
            destination: Destination::BallDropOff { target: self.target, factor: STEP_AWAY_FACTOR },
            aim: Aim::AsBefore,
            mode: AvoidanceMode::AvoidRobots,
        }
    }

    /// What follows a step of the fetch: the fetch goes on until it is
    /// done, and then the ball is carried.
    pub open spec fn after_fetch(self, fetch: (GoGetBall, AllyRobot, SkillAction)) -> (
        PlaceBall,
        AllyRobot,
        SkillAction,
    ) {
        if fetch.2 is Finish {
            (PlaceBall { phase: PlacePhase::Carrying, ..self }, fetch.1, SkillAction::Goto(self.carry()))
        } else {
            (PlaceBall { phase: PlacePhase::Fetching(fetch.0), ..self }, fetch.1, fetch.2)
        }
    }

    /// The placement, the robot and the request after `event`.
    ///
    /// The robot fetches the ball and carries it, however the carrying
    /// motion ends. Then the dribbler goes off, the ball is given its time to
    /// rest, and the robot steps back, which ends the placement however that
    /// motion ends.
    pub open spec fn stepped(self, robot: AllyRobot, event: SkillEvent) -> (
        PlaceBall,
        AllyRobot,
        SkillAction,
    ) {
        match (self.phase, event) {
            (PlacePhase::Start, SkillEvent::Started) => self.after_fetch(
                GoGetBall::Start.stepped(robot, SkillEvent::Started),
            ),
            (PlacePhase::Fetching(fetch), event) => self.after_fetch(fetch.stepped(robot, event)),
            (PlacePhase::Carrying, SkillEvent::GotoFinished(_)) => (
                PlaceBall { phase: PlacePhase::Releasing, ..self },
                dribbling(robot, false),
                SkillAction::Sleep { millis: RELEASE_MILLIS },
            ),
            (PlacePhase::Releasing, SkillEvent::SleepOver) => (
                PlaceBall { phase: PlacePhase::SteppingAway, ..self },
                robot,
                SkillAction::Goto(self.step_away()),
            ),
            (PlacePhase::SteppingAway, SkillEvent::GotoFinished(_)) => (
                PlaceBall { phase: PlacePhase::Done, ..self },
                robot,
                SkillAction::Finish(Ok(())),
            ),
            _ => (self, robot, SkillAction::Continue),
        }
    }

    pub fn new(target: Point2) -> (skill: PlaceBall)
        ensures
            skill == (PlaceBall { target, phase: PlacePhase::Start }),
    {
        PlaceBall { target, phase: PlacePhase::Start }
    }

    fn after_fetch_step(&mut self, fetch: GoGetBall, action: SkillAction) -> (request: SkillAction)
        ensures
            final(self).target == old(self).target,
            action is Finish ==> final(self).phase == PlacePhase::Carrying && request
                == SkillAction::Goto(old(self).carry()),
            !(action is Finish) ==> final(self).phase == PlacePhase::Fetching(fetch) && request
                == action,
    {
        match action {
            SkillAction::Finish(_) => {
                self.phase = PlacePhase::Carrying;
                SkillAction::Goto(
                    GotoOrder {
                        destination: Destination::BallDropOff { target: self.target, factor: 1 },
                        aim: Aim::TowardsBall,
                        mode: AvoidanceMode::AvoidRobots,
                    },
                )
            },
            other => {
                self.phase = PlacePhase::Fetching(fetch);
                other
            },
        }
    }

    /// Takes `event` in, writes to `robot` and decides: see
    /// [`PlaceBall::stepped`].
    pub fn step(&mut self, robot: &mut AllyRobot, event: SkillEvent) -> (action: SkillAction)
        ensures
            (*final(self), *final(robot), action) == old(self).stepped(*old(robot), event),
    {
        match (self.phase, event) {
            (PlacePhase::Start, SkillEvent::Started) => {
                let mut fetch = GoGetBall::new();
                let action = fetch.step(robot, SkillEvent::Started);
                self.after_fetch_step(fetch, action)
            },
            (PlacePhase::Fetching(fetch), event) => {
                let mut fetch = fetch;
                let action = fetch.step(robot, event);
                self.after_fetch_step(fetch, action)
            },
            (PlacePhase::Carrying, SkillEvent::GotoFinished(_)) => {
                self.phase = PlacePhase::Releasing;
                robot.disable_dribbler();
                SkillAction::Sleep { millis: RELEASE_MILLIS }
            },
            (PlacePhase::Releasing, SkillEvent::SleepOver) => {
                self.phase = PlacePhase::SteppingAway;
                SkillAction::Goto(
                    GotoOrder {
                        destination: Destination::BallDropOff {
                            target: self.target,
                            factor: STEP_AWAY_FACTOR,
                        },
                        aim: Aim::AsBefore,
                        mode: AvoidanceMode::AvoidRobots,
                    },
                )
            },
            (PlacePhase::SteppingAway, SkillEvent::GotoFinished(_)) => {
                self.phase = PlacePhase::Done;
                SkillAction::Finish(Ok(()))
            },
            _ => SkillAction::Continue,
        }
    }
}

/// A placement never fails and never asks for a kick; it ends only from
/// stepping away, and the dribbler is off from the release on.
pub proof fn lemma_placement_releases_the_ball(skill: PlaceBall, robot: AllyRobot, event: SkillEvent)
    ensures
        ({
            let (after, robot_after, action) = skill.stepped(robot, event);
            &&& after.target == skill.target
            &&& match action {
                SkillAction::Finish(result) => result is Ok && skill.phase is SteppingAway,
                _ => true,
            }
            &&& robot_after.internal_data.should_kick == robot.internal_data.should_kick
            &&& after.phase is Releasing && !(skill.phase is Releasing)
                ==> !robot_after.internal_data.should_dribble
            &&& (skill.phase is Releasing || skill.phase is SteppingAway) ==> robot_after == robot
        }),
{
}

} // verus!
