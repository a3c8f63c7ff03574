//! Decisions of the plays that string skills together.
use crate::actions::pass_to::kicking;
use crate::math::{LinesParallelError, Point2, Scalar};
use crate::world::{AllyRobot, Kick, RobotId};
use vstd::prelude::*;

verus! {

/// Bits of 0.5: half the width in metres of the goal mouth that a shot has
/// to hit.
pub const GOAL_MOUTH_HALF_WIDTH: u64 = 0x3FE0_0000_0000_0000;

/// Whether a shot along the robot's orientation scores, where
/// `intersection` is the point in which the ray from the robot meets the
/// goal line: it does where the lines meet strictly between the posts.
pub open spec fn shot_scores(intersection: Result<Point2, LinesParallelError>) -> bool {
    match intersection {
        Ok(i) => i.y.lt_spec(Scalar { bits: GOAL_MOUTH_HALF_WIDTH }) && i.y.gt_spec(
            Scalar { bits: GOAL_MOUTH_HALF_WIDTH }.neg_spec(),
        ),
        Err(_) => false,
    }
}

/// Exec form of [`shot_scores`].
pub fn can_score(intersection: &Result<Point2, LinesParallelError>) -> (r: bool)
    ensures
        r == shot_scores(*intersection),
{
    match intersection {
        Ok(i) => {
            let post = Scalar::from_bits(GOAL_MOUTH_HALF_WIDTH);
            i.y.lt(post) && i.y.gt(post.neg())
        },
        Err(_) => false,
    }
}

/// Asks for a straight kick if the shot scores, and says whether it did:
/// see [`shot_scores`].
pub fn shoot_if_can_score(
    robot: &mut AllyRobot,
    intersection: &Result<Point2, LinesParallelError>,
) -> (shot: bool)
    ensures
        shot == shot_scores(*intersection),
        *final(robot) == if shot {
            kicking(*old(robot), Kick::Straight)
        } else {
            *old(robot)
        },
{
    let shot = can_score(intersection);
    if shot {
        robot.kick(Kick::Straight);
    }
    shot
}

/// Asks for a straight kick if the robot has the ball, and says whether it
/// did: a robot that kicks until the ball is gone goes on while this says
/// yes.
pub fn kick_while_holding(robot: &mut AllyRobot) -> (kicked: bool)
    ensures
        kicked == old(robot).has_ball,
        *final(robot) == if kicked {
            kicking(*old(robot), Kick::Straight)
        } else {
            *old(robot)
        },
{
    let kicked = robot.has_ball();
    if kicked {
        robot.kick(Kick::Straight);
    }
    kicked
}

/// Calls `rand::random::<bool>()`, which draws from the generator of the
/// thread. Each call draws anew, so nothing is stated of the result. The
/// call panics where the system cannot seed the generator.
#[verifier::external_body]
fn random_bool() -> bool {
    rand::random::<bool>()
}

/// The winger that a coin picks: the left one for `true`.
pub fn striker_for(coin: bool, left_winger: RobotId, right_winger: RobotId) -> (striker: RobotId)
    ensures
        striker == if coin {
            left_winger
        } else {
            right_winger
        },
{
    if coin {
        left_winger
    } else {
        right_winger
    }
}

/// Picks one of the two wingers at random to receive the pass.
pub fn choose_striker(left_winger: RobotId, right_winger: RobotId) -> (striker: RobotId)
    ensures
        striker == left_winger || striker == right_winger,
{
    striker_for(random_bool(), left_winger, right_winger)
}

} // verus!
