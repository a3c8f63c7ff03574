//! Skills: behaviours built from motions, waits and kicks.
//!
//! A skill alternates between waiting and deciding, as a motion does. The
//! caller runs what a skill asks for and reports how it ended; what comes
//! next, and every write to the dribbler and the kicker, is decided here.
pub mod go_get_ball;
pub mod pass_to;
pub mod place_ball;
pub mod plays;
pub mod strike_alone;

pub use go_get_ball::GoGetBall;
pub use pass_to::PassTo;
pub use place_ball::PlaceBall;
pub use strike_alone::StrikeAlone;

use crate::math::Point2;
use crate::world::{AvoidanceMode, GotoError, RobotId};
use vstd::prelude::*;

verus! {

/// Milliseconds that a robot is given to settle once it holds the ball or
/// has turned.
pub const SETTLE_MILLIS: u64 = 100;

/// Milliseconds that a ball laid down is given to come to rest.
pub const RELEASE_MILLIS: u64 = 500;

/// Milliseconds between two kicks of a shot.
pub const KICK_PERIOD_MILLIS: u64 = 1_000;

/// Milliseconds that a receiver is given to get hold of a pass.
pub const RECEIVE_TIMEOUT_MILLIS: u64 = 1_000;

/// Bits of 0.3: how far behind the ball, in metres, a shot is staged.
pub const STAGING_DISTANCE: u64 = 0x3FD3_3333_3333_3333;

/// Where a motion of a skill leads.
#[derive(Clone, Copy, Debug, PartialEq, Eq, Structural)]
pub enum Destination {
    /// The ball, wherever it goes.
    Ball,
    /// The place where the robot is when the motion begins.
    HoldPosition,
    /// The point at the staging distance behind the ball, on the line from
    /// `target` through the ball.
    BehindBall { target: Point2 },
    /// `target` minus `factor` times the vector from the robot to the ball,
    /// as it is when the motion begins.
    BallDropOff { target: Point2, factor: u8 },
}

/// Where a robot faces during a motion of a skill.
#[derive(Clone, Copy, Debug, PartialEq, Eq, Structural)]
pub enum Aim {
    /// Along the bearing from the robot to the ball, measured when the
    /// motion is asked for.
    TowardsBall,
    /// Along the bearing measured for the last motion that faced the ball.
    AsBefore,
    /// Towards the ally with this number.
    TowardsRobot(RobotId),
    /// Along the bearing from the ball to `target`.
    AlongBallTo { target: Point2 },
}

/// A motion that a skill asks for.
#[derive(Clone, Copy, Debug, PartialEq, Eq, Structural)]
pub struct GotoOrder {
    pub destination: Destination,
    pub aim: Aim,
    pub mode: AvoidanceMode,
}

/// Why a skill failed.
#[derive(Clone, Debug)]
pub enum SkillError {
    /// A motion that the skill depends on failed.
    Motion(GotoError),
    /// The ball left the passer and did not reach the receiver in time.
    PassTimedOut,
}

/// What the caller reports to a skill.
#[derive(Debug)]
pub enum SkillEvent {
    /// The skill is to begin.
    Started,
    /// The motion asked for ended by itself, with this result.
    GotoFinished(Result<(), GotoError>),
    /// The motion asked for was dropped because the robot got the ball.
    BallAcquired,
    /// The tick asked for has come.
    Ticked,
    /// The sleep asked for is over.
    SleepOver,
    /// The robot waited for has the ball.
    ReceiverGotBall,
    /// The robot waited for did not get the ball in time.
    TimedOut,
}

/// What the caller is to do for a skill.
#[derive(Debug)]
pub enum SkillAction {
    /// Run the motion to its end and report [`SkillEvent::GotoFinished`].
    Goto(GotoOrder),
    /// Run the motion until it ends or the robot has the ball, whichever
    /// comes first, and report [`SkillEvent::GotoFinished`] or
    /// [`SkillEvent::BallAcquired`].
    GotoUntilBall(GotoOrder),
    /// Sleep and report [`SkillEvent::SleepOver`].
    Sleep { millis: u64 },
    /// Wait for the next tick of a ticker of this period, whose first tick
    /// comes at once, and report [`SkillEvent::Ticked`].
    NextTick { period_millis: u64 },
    /// Wait until the ally `robot` has the ball, for `timeout_millis` at
    /// most, and report [`SkillEvent::ReceiverGotBall`] or
    /// [`SkillEvent::TimedOut`].
    AwaitBallAt { robot: RobotId, timeout_millis: u64 },
    /// Return this result.
    Finish(Result<(), SkillError>),
    /// Go on with what was asked for last: the event was not waited for.
    Continue,
}

impl SkillError {
    /// What the error says.
    pub fn message(&self) -> (text: String)
        ensures
            self is PassTimedOut ==> text@ == "passed but didn't receive"@,
            self matches SkillError::Motion(GotoError::DestinationOccupiedError) ==> text@
                == "destination occupied"@,
            self matches SkillError::Motion(GotoError::NoPathFoundError(reason)) ==> text@
                == reason@,
    {
        match self {
            SkillError::PassTimedOut => "passed but didn't receive".to_string(),
            SkillError::Motion(GotoError::DestinationOccupiedError) => {
                "destination occupied".to_string()
            },
            SkillError::Motion(GotoError::NoPathFoundError(reason)) => reason.clone(),
        }
    }
}

} // verus!
