//! The control loop: one packet of commands per tick, the feedback back
//! into the world, and a stop packet at the end.
//!
//! The ticking, the sending and the receiving are the caller's; what is
//! sent and what the feedback changes is decided here.
use crate::controllers::{
    command_for, kick_consumed, stop_command, stop_commands, team_after_feedbacks, RobotCommand,
    RobotFeedback, STOP_PACKET_SLOTS,
};
use crate::world::{AllyRobot, RobotId, World};
use vstd::prelude::*;

verus! {

/// Whether the loop still runs.
#[derive(Clone, Copy, Debug, PartialEq, Eq, Structural)]
pub enum ControlLoop {
    Running,
    /// The stop packet is out: nothing is sent any more.
    Closed,
}

/// What the caller reports to the loop.
#[derive(Clone, Debug)]
pub enum ControlEvent {
    /// A control period has passed.
    Ticked,
    /// The robots answered the commands last sent with this feedback.
    FeedbackReceived(Vec<RobotFeedback>),
    /// The program is to stop.
    ShutdownRequested,
}

/// What the caller is to do for the loop.
#[derive(Clone, Debug)]
pub enum ControlAction {
    /// Send these commands in one packet and report the feedback.
    Send(Vec<RobotCommand>),
    /// Wait for the next tick.
    AwaitTick,
    /// Send these commands in one packet, close the controller and return.
    SendAndClose(Vec<RobotCommand>),
    /// Nothing: the loop is closed.
    Idle,
}

impl ControlLoop {
    pub fn new() -> (control: ControlLoop)
        ensures
            control == ControlLoop::Running,
    {
        ControlLoop::Running
    }

    /// Takes `event` in and decides.
    ///
    /// While the loop runs, a tick has the commands of every ally sent, each
    /// pending kick with them; feedback sets who has the ball; and a
    /// shutdown has the stop packet sent and closes the loop. A closed loop
    /// sends nothing and changes nothing.
    pub fn step(&mut self, world: &mut World, event: ControlEvent) -> (action: ControlAction)
        ensures
            final(world).team_color == old(world).team_color,
            final(world).field == old(world).field,
            final(world).ball == old(world).ball,
            final(world).ennemies == old(world).ennemies,
            old(world).wf() ==> final(world).wf(),
            match (*old(self), event) {
                (ControlLoop::Running, ControlEvent::Ticked) => {
                    &&& *final(self) == ControlLoop::Running
                    &&& final(world).team@ == old(world).team@.map_values(
                        |robot: AllyRobot| kick_consumed(robot),
                    )
                    &&& action matches ControlAction::Send(commands) && exists|order: Seq<RobotId>|
                        {
                            &&& order.no_duplicates()
                            &&& order.to_set() == old(world).team@.dom()
                            &&& #[trigger] order.len() == commands@.len()
                            &&& forall|i: int|
                                0 <= i < order.len() ==> commands@[i] == command_for(
                                    old(world).team@[#[trigger] order[i]],
                                )
                        }
                },
                (ControlLoop::Running, ControlEvent::FeedbackReceived(feedbacks)) => {
                    &&& *final(self) == ControlLoop::Running
                    &&& final(world).team@ == team_after_feedbacks(old(world).team@, feedbacks@)
                    &&& action is AwaitTick
                },
                (ControlLoop::Running, ControlEvent::ShutdownRequested) => {
                    &&& *final(self) == ControlLoop::Closed
                    &&& final(world).team == old(world).team
                    &&& action matches ControlAction::SendAndClose(commands) && commands@.len()
                        == STOP_PACKET_SLOTS && forall|i: int|
                        0 <= i < commands@.len() ==> commands@[i] == stop_command(i as u32)
                },
                (ControlLoop::Closed, _) => {
                    &&& *final(self) == ControlLoop::Closed
                    &&& final(world).team == old(world).team
                    &&& action is Idle
                },
            },
    {
        match (*self, event) {
            (ControlLoop::Running, ControlEvent::Ticked) => ControlAction::Send(
                world.make_commands(),
            ),
            (ControlLoop::Running, ControlEvent::FeedbackReceived(feedbacks)) => {
                world.apply_feedback(&feedbacks);
                ControlAction::AwaitTick
            },
            (ControlLoop::Running, ControlEvent::ShutdownRequested) => {
                *self = ControlLoop::Closed;
                ControlAction::SendAndClose(stop_commands())
            },
            (ControlLoop::Closed, _) => ControlAction::Idle,
        }
    }
}

} // verus!
