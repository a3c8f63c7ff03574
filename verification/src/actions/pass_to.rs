//! Passing the ball to an ally.
use crate::actions::{
    Aim, Destination, GotoOrder, SkillAction, SkillError, SkillEvent, RECEIVE_TIMEOUT_MILLIS,
    SETTLE_MILLIS,
};
use crate::world::{AllyData, AllyRobot, AvoidanceMode, Kick, Robot, RobotId};
use crate::CONTROL_PERIOD_MS;
use vstd::prelude::*;

verus! {

/// What a pass is busy with.
#[derive(Clone, Copy, Debug, PartialEq, Eq, Structural)]
pub enum PassPhase {
    Start,
    /// Turning towards the receiver on the spot.
    Aiming,
    /// Settling after the turn.
    Settling,
    /// Kicking, tick after tick, until the ball is gone.
    Kicking,
    /// Waiting for the receiver to get hold of the ball.
    Receiving,
    Done,
}

/// A pass to the ally `receiver`.
#[derive(Clone, Copy, Debug, PartialEq, Eq, Structural)]
pub struct PassTo {
    pub receiver: RobotId,
    pub phase: PassPhase,
}

/// `robot` with `kick` pending.
pub open spec fn kicking(robot: AllyRobot, kick: Kick) -> AllyRobot {
    Robot { internal_data: AllyData { should_kick: Some(kick), ..robot.internal_data }, ..robot }
}

/// Kicking goes on while the robot has the ball; then the receiver is waited
/// for.
pub open spec fn kick_or_wait(receiver: RobotId, has_ball: bool, period_millis: u64) -> (
    PassPhase,
    SkillAction,
) {
    if has_ball {
        (PassPhase::Kicking, SkillAction::NextTick { period_millis })
    } else {
        (
            PassPhase::Receiving,
            SkillAction::AwaitBallAt { robot: receiver, timeout_millis: RECEIVE_TIMEOUT_MILLIS },
        )
    }
}

impl PassTo {
    /// The turn: on the spot, towards the receiver, clear of robots.
    pub open spec fn turn(self) -> GotoOrder {
        GotoOrder {
            destination: Destination::HoldPosition,
            aim: Aim::TowardsRobot(self.receiver),
            mode: AvoidanceMode::AvoidRobots,
        }
    }

    /// The pass, the robot and the request after `event`.
    ///
    /// The robot turns towards the receiver, however the turn ends, and
    /// settles. While it has the ball it asks for a straight kick at every
    /// tick of the control period. Then the receiver is given its time: the
    /// pass succeeds where it gets the ball and has timed out where not.
    pub open spec fn stepped(self, robot: AllyRobot, event: SkillEvent) -> (
        PassTo,
        AllyRobot,
        SkillAction,
    ) {
        match (self.phase, event) {
            (PassPhase::Start, SkillEvent::Started) => (
                PassTo { phase: PassPhase::Aiming, ..self },
                robot,
                SkillAction::Goto(self.turn()),
            ),
            (PassPhase::Aiming, SkillEvent::GotoFinished(_)) => (
                PassTo { phase: PassPhase::Settling, ..self },
                robot,
                SkillAction::Sleep { millis: SETTLE_MILLIS },
            ),
            (PassPhase::Settling, SkillEvent::SleepOver) => {
                let (phase, action) = kick_or_wait(self.receiver, robot.has_ball, CONTROL_PERIOD_MS);
                (PassTo { phase, ..self }, robot, action)
            },
            (PassPhase::Kicking, SkillEvent::Ticked) => {
                let (phase, action) = kick_or_wait(self.receiver, robot.has_ball, CONTROL_PERIOD_MS);
                (PassTo { phase, ..self }, kicking(robot, Kick::Straight), action)
            },
            (PassPhase::Receiving, SkillEvent::ReceiverGotBall) => (
                PassTo { phase: PassPhase::Done, ..self },
                robot,
                SkillAction::Finish(Ok(())),
            ),
            (PassPhase::Receiving, SkillEvent::TimedOut) => (
                PassTo { phase: PassPhase::Done, ..self },
                robot,
                SkillAction::Finish(Err(SkillError::PassTimedOut)),
            ),
            _ => (self, robot, SkillAction::Continue),
        }
    }

    pub fn new(receiver: RobotId) -> (skill: PassTo)
        ensures
            skill == (PassTo { receiver, phase: PassPhase::Start }),
    {
        PassTo { receiver, phase: PassPhase::Start }
    }

    fn kick_or_wait(&mut self, has_ball: bool) -> (action: SkillAction)
        ensures
            (final(self).phase, action) == kick_or_wait(
                old(self).receiver,
                has_ball,
                CONTROL_PERIOD_MS,
            ),
            final(self).receiver == old(self).receiver,
    {
        if has_ball {
            self.phase = PassPhase::Kicking;
            SkillAction::NextTick { period_millis: CONTROL_PERIOD_MS }
        } else {
            self.phase = PassPhase::Receiving;
            SkillAction::AwaitBallAt {
                robot: self.receiver,
                timeout_millis: RECEIVE_TIMEOUT_MILLIS,
            }
        }
    }

    /// Takes `event` in, writes to `robot` and decides: see
    /// [`PassTo::stepped`].
    pub fn step(&mut self, robot: &mut AllyRobot, event: SkillEvent) -> (action: SkillAction)
        ensures
            (*final(self), *final(robot), action) == old(self).stepped(*old(robot), event),
    {
        match (self.phase, event) {
            (PassPhase::Start, SkillEvent::Started) => {
                self.phase = PassPhase::Aiming;
                SkillAction::Goto(
                    GotoOrder {
                        destination: Destination::HoldPosition,
                        aim: Aim::TowardsRobot(self.receiver),
                        mode: AvoidanceMode::AvoidRobots,
                    },
                )
            },
            (PassPhase::Aiming, SkillEvent::GotoFinished(_)) => {
                self.phase = PassPhase::Settling;
                SkillAction::Sleep { millis: SETTLE_MILLIS }
            },
            (PassPhase::Settling, SkillEvent::SleepOver) => self.kick_or_wait(robot.has_ball()),
            (PassPhase::Kicking, SkillEvent::Ticked) => {
                robot.kick(Kick::Straight);
                self.kick_or_wait(robot.has_ball())
            },
            (PassPhase::Receiving, SkillEvent::ReceiverGotBall) => {
                self.phase = PassPhase::Done;
                SkillAction::Finish(Ok(()))
            },
            (PassPhase::Receiving, SkillEvent::TimedOut) => {
                self.phase = PassPhase::Done;
                SkillAction::Finish(Err(SkillError::PassTimedOut))
            },
            _ => SkillAction::Continue,
        }
    }
}

/// A pass succeeds only where the receiver got the ball, and fails only by
/// timing out; its receiver never changes; and a kick is asked for only at
/// a tick of the kicking phase, and is then a straight one.
pub proof fn lemma_pass_reports_the_receiver(skill: PassTo, robot: AllyRobot, event: SkillEvent)
    ensures
        ({
            let (after, robot_after, action) = skill.stepped(robot, event);
            &&& after.receiver == skill.receiver
            &&& match action {
                SkillAction::Finish(Ok(_)) => skill.phase is Receiving && event is ReceiverGotBall,
                SkillAction::Finish(Err(e)) => skill.phase is Receiving && event is TimedOut && e
                    is PassTimedOut,
                SkillAction::AwaitBallAt { robot: awaited, timeout_millis } => awaited
                    == skill.receiver && timeout_millis == RECEIVE_TIMEOUT_MILLIS
                    && !robot.has_ball,
                SkillAction::NextTick { .. } => robot.has_ball,
                _ => true,
            }
            &&& robot_after == robot || (skill.phase is Kicking && event is Ticked && robot_after
                == kicking(robot, Kick::Straight))
        }),
{
}

} // verus!
