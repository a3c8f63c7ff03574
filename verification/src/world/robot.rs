//! One robot of either team, and what an ally is told to do.
use crate::math::{Point2, Reactive, Scalar, Vec2};
use crate::world::TeamColor;
use vstd::prelude::*;

verus! {

pub type RobotId = u8;

/// A kick that an ally can be asked for.
#[derive(Clone, Copy, Debug, PartialEq, Eq, Structural)]
pub enum Kick {
    Straight,
    Chip,
}

/// What a motion has to keep clear of.
#[derive(Clone, Copy, Debug, PartialEq, Eq, Structural)]
pub enum AvoidanceMode {
    /// May collide with everything.
    AvoidNothing,
    /// May collide with the ball, not with robots.
    AvoidRobots,
    /// May collide with nothing.
    AvoidRobotsAndBall,
}

/// Why a motion gave up.
#[derive(Clone, Debug)]
pub enum GotoError {
    /// The robot stands where it may not be under the avoidance mode.
    DestinationOccupiedError,
    /// The planner spent its tries; the text is the planner's.
    NoPathFoundError(String),
}

/// What a robot carries besides its pose: the commanded state of an ally,
/// nothing for an enemy.
pub trait RobotData: Clone + Default {
    /// What a robot carries when it is first seen.
    spec fn initial() -> Self;

    fn fresh() -> (d: Self)
        ensures
            d == Self::initial(),
    ;
}

/// A robot of a team, as vision and the controller feedback describe it.
#[derive(Clone, Debug)]
pub struct Robot<D: RobotData> {
    pub id: RobotId,
    pub color: TeamColor,
    pub pos: Point2,
    pub vel: Vec2,
    /// Radians per second.
    pub angular_vel: Scalar,
    /// Radians.
    pub orientation: Scalar,
    pub has_ball: bool,
    /// Capture time of the last detection, in seconds of the vision clock.
    pub last_update: Option<Scalar>,
    pub internal_data: D,
}

/// What an ally is commanded to do until told otherwise.
#[derive(Clone, Copy, Debug)]
pub struct AllyData {
    /// Target velocity in the robot's own frame: `x` forward, `y` to the left.
    pub target_vel: Vec2,
    pub target_angular_vel: Scalar,
    pub should_dribble: bool,
    /// The kick that the next command packet will carry.
    pub should_kick: Option<Kick>,
}

impl Default for AllyData {
    /// At rest, dribbler off, no kick pending.
    fn default() -> (d: AllyData)
        ensures
            d == AllyData::idle(),
    {
        AllyData {
            target_vel: Vec2::zero(),
            target_angular_vel: Scalar::zero(),
            should_dribble: false,
            should_kick: None,
        }
    }
}

impl AllyData {
    pub open spec fn idle() -> AllyData {
        AllyData {
            target_vel: Vec2 { x: Scalar { bits: 0 }, y: Scalar { bits: 0 } },
            target_angular_vel: Scalar { bits: 0 },
            should_dribble: false,
            should_kick: None,
        }
    }
}

impl RobotData for AllyData {
    open spec fn initial() -> AllyData {
        AllyData::idle()
    }

    fn fresh() -> (d: AllyData) {
        AllyData {
            target_vel: Vec2::zero(),
            target_angular_vel: Scalar::zero(),
            should_dribble: false,
            should_kick: None,
        }
    }
}

/// An enemy is told nothing: it carries nothing besides its pose.
#[derive(Clone, Copy, Debug)]
pub struct EnnemyData;

impl Default for EnnemyData {
    fn default() -> (d: EnnemyData)
        ensures
            d == EnnemyData,
    {
        EnnemyData
    }
}

impl RobotData for EnnemyData {
    open spec fn initial() -> EnnemyData {
        EnnemyData
    }

    fn fresh() -> (d: EnnemyData) {
        EnnemyData
    }
}

pub type AllyRobot = Robot<AllyData>;

pub type EnnemyRobot = Robot<EnnemyData>;

/// One robot of a vision frame: its number on the wire, where it is in
/// metres and where it faces in radians.
#[derive(Clone, Copy, Debug)]
pub struct RobotDetection {
    pub robot_id: u32,
    pub pos: Point2,
    pub orientation: Scalar,
}

/// Finite-difference velocities between two detections of a robot.
#[derive(Clone, Copy, Debug)]
pub struct Motion {
    pub vel: Vec2,
    pub angular_vel: Scalar,
}

impl<D: RobotData> Reactive<Point2> for Robot<D> {
    open spec fn reactive_value(&self) -> Point2 {
        self.pos
    }

    fn get_reactive(&self) -> (r: Point2) {
        self.pos
    }
}

impl<D: RobotData> Robot<D> {
    /// A robot that no camera has captured yet: at rest at the origin,
    /// facing 0, without the ball.
    pub open spec fn fresh_spec(id: RobotId, color: TeamColor) -> Self {
        Robot {
            id,
            color,
            pos: Point2 { x: Scalar { bits: 0 }, y: Scalar { bits: 0 } },
            vel: Vec2 { x: Scalar { bits: 0 }, y: Scalar { bits: 0 } },
            angular_vel: Scalar { bits: 0 },
            orientation: Scalar { bits: 0 },
            has_ball: false,
            last_update: None,
            internal_data: D::initial(),
        }
    }

    pub fn default_with_id(id: RobotId, color: TeamColor) -> (robot: Self)
        ensures
            robot == Self::fresh_spec(id, color),
    {
        Robot {
            id,
            color,
            pos: Point2::zero(),
            vel: Vec2::zero(),
            angular_vel: Scalar::zero(),
            orientation: Scalar::zero(),
            has_ball: false,
            last_update: None,
            internal_data: D::fresh(),
        }
    }

    pub fn get_id(&self) -> (id: RobotId)
        ensures
            id == self.id,
    {
        self.id
    }

    pub fn get_color(&self) -> (color: TeamColor)
        ensures
            color == self.color,
    {
        self.color
    }

    pub fn has_ball(&self) -> (has_ball: bool)
        ensures
            has_ball == self.has_ball,
    {
        self.has_ball
    }

    pub fn set_has_ball(&mut self, has_ball: bool)
        ensures
            *final(self) == (Robot { has_ball, ..*old(self) }),
    {
        self.has_ball = has_ball;
    }

    pub fn get_orientation(&self) -> (orientation: Scalar)
        ensures
            orientation == self.orientation,
    {
        self.orientation
    }

    pub fn set_orientation(&mut self, orientation: Scalar)
        ensures
            *final(self) == (Robot { orientation, ..*old(self) }),
    {
        self.orientation = orientation;
    }

    pub fn get_pos(&self) -> (pos: Point2)
        ensures
            pos == self.pos,
    {
        self.pos
    }

    pub fn set_pos(&mut self, pos: Point2)
        ensures
            *final(self) == (Robot { pos, ..*old(self) }),
    {
        self.pos = pos;
    }

    pub fn get_vel(&self) -> (vel: Vec2)
        ensures
            vel == self.vel,
    {
        self.vel
    }

    pub fn set_vel(&mut self, vel: Vec2)
        ensures
            *final(self) == (Robot { vel, ..*old(self) }),
    {
        self.vel = vel;
    }

    pub fn get_angular_vel(&self) -> (vel: Scalar)
        ensures
            vel == self.angular_vel,
    {
        self.angular_vel
    }

    pub fn set_angular_vel(&mut self, vel: Scalar)
        ensures
            *final(self) == (Robot { angular_vel: vel, ..*old(self) }),
    {
        self.angular_vel = vel;
    }

    pub fn get_last_update(&self) -> (t: Option<Scalar>)
        ensures
            t == self.last_update,
    {
        self.last_update
    }

    pub fn set_last_update(&mut self, last_update: Scalar)
        ensures
            *final(self) == (Robot { last_update: Some(last_update), ..*old(self) }),
    {
        self.last_update = Some(last_update);
    }

    /// Whether a capture at `t_capture` comes after the one remembered, so
    /// that velocities can be estimated between the two.
    pub open spec fn is_older_than(&self, t_capture: Scalar) -> bool {
        self.last_update matches Some(t) && t.lt_spec(t_capture)
    }

    /// Exec form of [`Robot::is_older_than`].
    pub fn has_older_capture(&self, t_capture: Scalar) -> (r: bool)
        ensures
            r == self.is_older_than(t_capture),
    {
        match self.last_update {
            Some(t) => t.lt(t_capture),
            None => false,
        }
    }

    /// The robot after `detection`, captured at `t_capture`. `estimate` holds
    /// the finite differences between the remembered capture and this one;
    /// they become the velocities where the remembered capture is older.
    pub open spec fn detected(
        self,
        detection: RobotDetection,
        t_capture: Scalar,
        estimate: Option<Motion>,
    ) -> Self {
        let take = self.is_older_than(t_capture) && estimate is Some;
        Robot {
            pos: detection.pos,
            orientation: detection.orientation,
            last_update: Some(t_capture),
            vel: if take {
                estimate->0.vel
            } else {
                self.vel
            },
            angular_vel: if take {
                estimate->0.angular_vel
            } else {
                self.angular_vel
            },
            ..self
        }
    }

    /// Takes a detection in: see [`Robot::detected`].
    pub fn update_from_packet(
        &mut self,
        detection: RobotDetection,
        t_capture: Scalar,
        estimate: Option<Motion>,
    )
        ensures
            *final(self) == old(self).detected(detection, t_capture, estimate),
    {
        if self.has_older_capture(t_capture) {
            if let Some(motion) = estimate {
                self.vel = motion.vel;
                self.angular_vel = motion.angular_vel;
            }
        }
        self.last_update = Some(t_capture);
        self.pos = detection.pos;
        self.orientation = detection.orientation;
    }
}

/// The robot that `team` holds under `id`, or a fresh one of `color` where it
/// holds none.
pub open spec fn fresh_or_known<D: RobotData>(
    team: Map<RobotId, Robot<D>>,
    id: RobotId,
    color: TeamColor,
) -> Robot<D> {
    if team.contains_key(id) {
        team[id]
    } else {
        Robot::<D>::fresh_spec(id, color)
    }
}

impl Robot<AllyData> {
    /// Asks for `kick_type` with the next command packet; a kick asked for
    /// earlier and not sent yet is replaced.
    pub fn kick(&mut self, kick_type: Kick)
        ensures
            final(self).internal_data == (AllyData {
                should_kick: Some(kick_type),
                ..old(self).internal_data
            }),
            *final(self) == (Robot { internal_data: final(self).internal_data, ..*old(self) }),
    {
        self.internal_data.should_kick = Some(kick_type);
    }

    /// Hands out the pending kick and clears it.
    pub fn take_should_kick(&mut self) -> (kick: Option<Kick>)
        ensures
            kick == old(self).internal_data.should_kick,
            final(self).internal_data == (AllyData {
                should_kick: None,
                ..old(self).internal_data
            }),
            *final(self) == (Robot { internal_data: final(self).internal_data, ..*old(self) }),
    {
        let kick = self.internal_data.should_kick;
        self.internal_data.should_kick = None;
        kick
    }

    pub fn enable_dribbler(&mut self)
        ensures
            final(self).internal_data == (AllyData {
                should_dribble: true,
                ..old(self).internal_data
            }),
            *final(self) == (Robot { internal_data: final(self).internal_data, ..*old(self) }),
    {
        self.internal_data.should_dribble = true;
    }

    pub fn disable_dribbler(&mut self)
        ensures
            final(self).internal_data == (AllyData {
                should_dribble: false,
                ..old(self).internal_data
            }),
            *final(self) == (Robot { internal_data: final(self).internal_data, ..*old(self) }),
    {
        self.internal_data.should_dribble = false;
    }

    pub fn should_dribble(&self) -> (r: bool)
        ensures
            r == self.internal_data.should_dribble,
    {
        self.internal_data.should_dribble
    }

    pub fn get_target_vel(&self) -> (vel: Vec2)
        ensures
            vel == self.internal_data.target_vel,
    {
        self.internal_data.target_vel
    }

    pub fn set_target_vel(&mut self, target_vel: Vec2)
        ensures
            final(self).internal_data == (AllyData { target_vel, ..old(self).internal_data }),
            *final(self) == (Robot { internal_data: final(self).internal_data, ..*old(self) }),
    {
        self.internal_data.target_vel = target_vel;
    }

    pub fn get_target_angular_vel(&self) -> (vel: Scalar)
        ensures
            vel == self.internal_data.target_angular_vel,
    {
        self.internal_data.target_angular_vel
    }

    pub fn set_target_angular_vel(&mut self, target_angular_vel: Scalar)
        ensures
            final(self).internal_data == (AllyData {
                target_angular_vel,
                ..old(self).internal_data
            }),
            *final(self) == (Robot { internal_data: final(self).internal_data, ..*old(self) }),
    {
        self.internal_data.target_angular_vel = target_angular_vel;
    }
}

} // verus!
