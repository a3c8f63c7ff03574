//! The ball as vision last saw it.
use crate::math::{Point2, Reactive, Scalar, Vec2};
use vstd::prelude::*;

verus! {

/// Position and velocity of the ball, and when it was last captured.
#[derive(Clone, Copy, Debug)]
pub struct Ball {
    pub pos: Point2,
    pub vel: Vec2,
    /// Capture time of the last detection, in seconds of the vision clock.
    pub last_update: Option<Scalar>,
}

impl Ball {
    /// A ball that no camera has captured yet.
    pub fn new(pos: Point2, vel: Vec2) -> (ball: Ball)
        ensures
            ball.pos == pos,
            ball.vel == vel,
            ball.last_update is None,
    {
        Ball { pos, vel, last_update: None }
    }

    pub fn get_pos(&self) -> (pos: Point2)
        ensures
            pos == self.pos,
    {
        self.pos
    }

    pub fn set_pos(&mut self, pos: Point2)
        ensures
            *final(self) == (Ball { pos, ..*old(self) }),
    {
        self.pos = pos;
    }

    pub fn get_vel(&self) -> (vel: Vec2)
        ensures
            vel == self.vel,
    {
        self.vel
    }

    pub fn set_vel(&mut self, vel: Vec2)
        ensures
            *final(self) == (Ball { vel, ..*old(self) }),
    {
        self.vel = vel;
    }

    pub fn get_last_update(&self) -> (t: Option<Scalar>)
        ensures
            t == self.last_update,
    {
        self.last_update
    }

    pub fn set_last_update(&mut self, last_update: Scalar)
        ensures
            *final(self) == (Ball { last_update: Some(last_update), ..*old(self) }),
    {
        self.last_update = Some(last_update);
    }

    /// Whether a capture at `t_capture` comes after the one remembered, so
    /// that a velocity can be estimated between the two.
    pub open spec fn is_older_than(&self, t_capture: Scalar) -> bool {
        self.last_update matches Some(t) && t.lt_spec(t_capture)
    }

    /// The ball after a detection at `pos`, captured at `t_capture`.
    /// `estimate` is the finite-difference velocity between the remembered
    /// capture and this one; it is taken where the remembered capture is older.
    pub open spec fn detected(self, pos: Point2, t_capture: Scalar, estimate: Option<Vec2>) -> Ball {
        Ball {
            pos,
            vel: if self.is_older_than(t_capture) && estimate is Some {
                estimate->0
            } else {
                self.vel
            },
            last_update: Some(t_capture),
        }
    }

    /// Exec form of [`Ball::is_older_than`].
    pub fn has_older_capture(&self, t_capture: Scalar) -> (r: bool)
        ensures
            r == self.is_older_than(t_capture),
    {
        match self.last_update {
            Some(t) => t.lt(t_capture),
            None => false,
        }
    }

    /// Takes a detection in: see [`Ball::detected`].
    pub fn update_from_detection(&mut self, pos: Point2, t_capture: Scalar, estimate: Option<Vec2>)
        ensures
            *final(self) == old(self).detected(pos, t_capture, estimate),
    {
        if self.has_older_capture(t_capture) {
            if let Some(vel) = estimate {
                self.vel = vel;
            }
        }
        self.pos = pos;
        self.last_update = Some(t_capture);
    }
}

impl Default for Ball {
    /// A ball at rest at the origin, never captured.
    fn default() -> (ball: Ball)
        ensures
            ball.pos == (Point2 { x: Scalar { bits: 0 }, y: Scalar { bits: 0 } }),
            ball.vel == (Vec2 { x: Scalar { bits: 0 }, y: Scalar { bits: 0 } }),
            ball.last_update is None,
    {
        Ball::new(Point2::zero(), Vec2::zero())
    }
}

impl Reactive<Point2> for Ball {
    open spec fn reactive_value(&self) -> Point2 {
        self.pos
    }

    fn get_reactive(&self) -> (r: Point2) {
        self.get_pos()
    }
}

} // verus!
