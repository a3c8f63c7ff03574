//! The decisions of a motion to a destination.
//!
//! A motion alternates between waiting for the world and deciding. The
//! waiting, the measuring and the planning are the caller's; every decision
//! is taken here, by [`Goto::step`], from what the caller reports.
use crate::math::{Point2, Scalar, Vec2};
use crate::world::{AllyData, AllyRobot, AvoidanceMode, GotoError, Robot};
use vstd::prelude::*;

verus! {

/// Bits of 0.05: distance in metres under which a robot has arrived.
pub const IS_CLOSE_EPSILON: u64 = 0x3FA9_9999_9999_999A;

/// Bits of three times 0.05, as the product rounds: distance in metres
/// under which a way point that is not the last counts as passed.
pub const IS_CLOSE_EPSILON_RELAXED: u64 = 0x3FC3_3333_3333_3334;

/// Bits of 0.02: orientation error in radians under which a robot faces its
/// target.
pub const ANGLE_EPSILON: u64 = 0x3F94_7AE1_47AE_147B;

/// Bits of 0.02: speed in metres per second under which a robot stands.
pub const SPEED_EPSILON: u64 = 0x3F94_7AE1_47AE_147B;

/// Most tries that one run of the planner gets.
pub const RRT_MAX_TRIES: usize = 1_000;

/// Bits of 0.1: step length of the planner in metres.
pub const RRT_STEP: u64 = 0x3FB9_9999_9999_999A;

/// Bits of 5: the speed limit of a robot in metres per second.
pub const MAX_VEL: u64 = 0x4014_0000_0000_0000;

/// Bits of 4: the acceleration limit of a robot in metres per second squared.
pub const MAX_ACC: u64 = 0x4010_0000_0000_0000;

/// Bits of 0.1: seconds to which the axes of a trajectory finish together
/// where a path is planned or thinned out.
pub const PLANNING_ACCURACY: u64 = 0x3FB9_9999_9999_999A;

/// Bits of 0.05: seconds to which the axes of a trajectory finish together
/// where a set point is sampled from it.
pub const SET_POINT_ACCURACY: u64 = 0x3FA9_9999_9999_999A;

/// Bits of 0.05: seconds between the samples at which a trajectory is
/// checked for collisions.
pub const COLLISION_TIME_STEP: u64 = 0x3FA9_9999_9999_999A;

/// Bits of 0.075: seconds ahead at which the set point is sampled.
pub const LOOKAHEAD: u64 = 0x3FB3_3333_3333_3333;

/// Bits of 1.5: gain from the orientation error in radians to the target
/// angular velocity in radians per second.
pub const GOTO_ANGULAR_SPEED: u64 = 0x3FF8_0000_0000_0000;

/// What the caller measures on the robot at one instant.
#[derive(Clone, Copy, Debug)]
pub struct Readings {
    /// Distance to the point the robot is heading for: the way point it
    /// follows, or the destination where it follows none.
    pub distance: Scalar,
    /// Distance to the destination, where the destination is now.
    pub distance_to_destination: Scalar,
    /// Target orientation minus orientation, where a target was given.
    pub orientation_error: Option<Scalar>,
    /// Norm of the velocity.
    pub speed: Scalar,
}

/// What a robot is told to do for the next tick: the velocity sampled
/// ahead on the trajectory, in the robot's own frame, and the angular
/// velocity that turns it to the target orientation, where one was given.
#[derive(Clone, Copy, Debug)]
pub struct SetPoint {
    pub vel: Vec2,
    pub angular_vel: Option<Scalar>,
}

/// What the motion is busy with.
#[derive(Clone, Copy, Debug, PartialEq, Eq, Structural)]
pub enum GotoPhase {
    /// Tracking the destination in a straight line.
    Straight,
    /// Without a path: the next thing to come is a plan.
    Planning,
    /// Following way point `index` of the path.
    Following { index: usize },
    /// Over: the result has been handed out.
    Finished,
}

/// What the caller reports to the motion.
#[derive(Clone, Debug)]
pub enum GotoEvent {
    /// A world update came. `readings` were taken after it; `clear` says
    /// whether the trajectory rebuilt from the measured pose to the point the
    /// robot is heading for is valid under the avoidance mode, and
    /// `set_point` is sampled from that trajectory.
    Ticked { readings: Readings, clear: bool, set_point: SetPoint },
    /// Readings taken without waiting.
    Measured { readings: Readings },
    /// The planner found a path; thinned out it is `path`, which leads
    /// from the robot, whose position it does not hold, to the destination.
    Planned { path: Vec<Point2> },
    /// The planner gave up, for `reason`.
    PlanFailed { reason: String },
}

/// What the caller is to do next.
#[derive(Debug)]
pub enum GotoNext {
    /// Wait for the next world update, rebuild the trajectory to the point
    /// the robot is heading for, and report [`GotoEvent::Ticked`].
    Wait,
    /// Take readings now and report [`GotoEvent::Measured`].
    Measure,
    /// Wait for the next world update, plan a path from the robot to the
    /// destination, thin it out, and report [`GotoEvent::Planned`] or
    /// [`GotoEvent::PlanFailed`].
    Plan,
    /// Return this result.
    Finish(Result<(), GotoError>),
    /// Nothing: the motion is over.
    Idle,
}

/// One decision: whether the set point of the event was written to the
/// robot, and what the caller is to do next.
#[derive(Debug)]
pub struct GotoStep {
    pub drive: bool,
    pub next: GotoNext,
}

/// A motion to a destination under an avoidance mode.
#[derive(Debug)]
pub struct Goto {
    pub mode: AvoidanceMode,
    pub phase: GotoPhase,
    /// The path last planned: the way points that the robot heads for one
    /// after the other while it follows the path.
    pub way_points: Vec<Point2>,
}

/// Whether an orientation error is small enough; none is, where no target
/// orientation was given.
pub open spec fn faces_target(orientation_error: Option<Scalar>) -> bool {
    orientation_error matches Some(e) ==> e.abs_spec().lt_spec(Scalar { bits: ANGLE_EPSILON })
}

/// The arrival criterion: close to the point, facing the target orientation
/// where one was given, and standing.
pub open spec fn has_arrived(
    distance: Scalar,
    orientation_error: Option<Scalar>,
    speed: Scalar,
) -> bool {
    &&& distance.lt_spec(Scalar { bits: IS_CLOSE_EPSILON })
    &&& faces_target(orientation_error)
    &&& speed.lt_spec(Scalar { bits: SPEED_EPSILON })
}

/// Whether the robot is done with the destination.
pub open spec fn is_at_destination(readings: Readings) -> bool {
    has_arrived(readings.distance_to_destination, readings.orientation_error, readings.speed)
}

/// Whether the robot is done with the way point it follows: the last one is
/// held to the arrival criterion, the others to three times the distance and
/// to no speed.
pub open spec fn way_point_is_reached(readings: Readings, is_last: bool) -> bool {
    if is_last {
        has_arrived(readings.distance, readings.orientation_error, readings.speed)
    } else {
        &&& readings.distance.lt_spec(Scalar { bits: IS_CLOSE_EPSILON_RELAXED })
        &&& faces_target(readings.orientation_error)
    }
}

/// The decision at the head of the planning loop: done at the destination,
/// else a new plan.
pub open spec fn decide_at_loop_head(readings: Readings) -> (GotoPhase, GotoNext) {
    if is_at_destination(readings) {
        (GotoPhase::Finished, GotoNext::Finish(Ok(())))
    } else {
        (GotoPhase::Planning, GotoNext::Plan)
    }
}

/// The decision on way point `index` of a path of `len`, the last one being
/// the one after which the path has no other: stay on it, go on to the
/// next, or, after the last, back to the head of the planning loop.
pub open spec fn decide_on_way_point(index: usize, len: usize, readings: Readings) -> (
    GotoPhase,
    GotoNext,
) {
    if !way_point_is_reached(readings, index + 1 >= len) {
        (GotoPhase::Following { index }, GotoNext::Wait)
    } else if index + 1 < len {
        (GotoPhase::Following { index: (index + 1) as usize }, GotoNext::Measure)
    } else {
        decide_at_loop_head(readings)
    }
}

/// `robot` told to move as `set_point` says: the target velocity is set,
/// and the target angular velocity where the set point has one.
pub open spec fn driven(robot: AllyRobot, set_point: SetPoint) -> AllyRobot {
    Robot {
        internal_data: AllyData {
            target_vel: set_point.vel,
            target_angular_vel: match set_point.angular_vel {
                Some(angular_vel) => angular_vel,
                None => robot.internal_data.target_angular_vel,
            },
            ..robot.internal_data
        },
        ..robot
    }
}

/// The robot after an event of which the motion decided `step`: told to
/// move as the set point of an update says where the motion drives, and
/// left alone else.
pub open spec fn robot_after(robot: AllyRobot, event: GotoEvent, step: GotoStep) -> AllyRobot {
    match event {
        GotoEvent::Ticked { set_point, .. } => if step.drive {
            driven(robot, set_point)
        } else {
            robot
        },
        _ => robot,
    }
}

/// What a phase is waiting for.
pub open spec fn request_of(phase: GotoPhase) -> GotoNext {
    match phase {
        GotoPhase::Straight => GotoNext::Wait,
        GotoPhase::Planning => GotoNext::Plan,
        GotoPhase::Following { .. } => GotoNext::Measure,
        GotoPhase::Finished => GotoNext::Idle,
    }
}

impl Goto {
    /// A motion that follows a way point follows one that its path has.
    pub open spec fn wf(&self) -> bool {
        self.phase matches GotoPhase::Following { index } ==> index < self.way_points@.len()
    }

    /// The point that the robot is heading for: the way point that it
    /// follows, or `destination` where it follows none.
    pub open spec fn target(&self, destination: Point2) -> Point2 {
        match self.phase {
            GotoPhase::Following { index } => if index < self.way_points@.len() {
                self.way_points@[index as int]
            } else {
                destination
            },
            _ => destination,
        }
    }

    /// The first decision. Where nothing is avoided the robot tracks the
    /// destination in a straight line until it has arrived. Else a robot
    /// that stands where it may not be fails at once, and any other one
    /// enters the planning loop.
    pub open spec fn begun(mode: AvoidanceMode, self_is_free: bool, readings: Readings) -> (
        GotoPhase,
        GotoStep,
    ) {
        if mode is AvoidNothing {
            if is_at_destination(readings) {
                (GotoPhase::Finished, GotoStep { drive: false, next: GotoNext::Finish(Ok(())) })
            } else {
                (GotoPhase::Straight, GotoStep { drive: false, next: GotoNext::Wait })
            }
        } else if !self_is_free {
            (
                GotoPhase::Finished,
                GotoStep {
                    drive: false,
                    next: GotoNext::Finish(Err(GotoError::DestinationOccupiedError)),
                },
            )
        } else {
            let (phase, next) = decide_at_loop_head(readings);
            (phase, GotoStep { drive: false, next })
        }
    }

    /// The motion and the decision after `event`.
    ///
    /// In a straight line every update writes a set point, and the robot
    /// goes on until it has arrived. On a path an update whose trajectory is
    /// not clear writes none and gives the path up; a clear one writes a set
    /// point, and the way point is then judged. A plan becomes the path and
    /// starts at its first way point; an empty one asks for the next plan; a
    /// failed one ends the motion. An event that the phase does not wait for
    /// changes nothing and has the request repeated.
    pub open spec fn stepped(self, event: GotoEvent) -> (Goto, GotoStep) {
        match (self.phase, event) {
            (GotoPhase::Straight, GotoEvent::Ticked { readings, .. }) => {
                if is_at_destination(readings) {
                    (
                        Goto { phase: GotoPhase::Finished, ..self },
                        GotoStep { drive: true, next: GotoNext::Finish(Ok(())) },
                    )
                } else {
                    (self, GotoStep { drive: true, next: GotoNext::Wait })
                }
            },
            (GotoPhase::Planning, GotoEvent::Planned { path }) => {
                if path@.len() == 0 {
                    (
                        Goto { way_points: path, ..self },
                        GotoStep { drive: false, next: GotoNext::Plan },
                    )
                } else {
                    (
                        Goto { phase: GotoPhase::Following { index: 0 }, way_points: path, ..self },
                        GotoStep { drive: false, next: GotoNext::Measure },
                    )
                }
            },
            (GotoPhase::Planning, GotoEvent::PlanFailed { reason }) => (
                Goto { phase: GotoPhase::Finished, ..self },
                GotoStep {
                    drive: false,
                    next: GotoNext::Finish(Err(GotoError::NoPathFoundError(reason))),
                },
            ),
            (GotoPhase::Following { index }, GotoEvent::Measured { readings }) => {
                let (phase, next) = decide_on_way_point(index, self.way_points.len(), readings);
                (Goto { phase, ..self }, GotoStep { drive: false, next })
            },
            (GotoPhase::Following { index }, GotoEvent::Ticked { readings, clear, .. }) => {
                if clear {
                    let (phase, next) = decide_on_way_point(
                        index,
                        self.way_points.len(),
                        readings,
                    );
                    (Goto { phase, ..self }, GotoStep { drive: true, next })
                } else {
                    let (phase, next) = decide_at_loop_head(readings);
                    (Goto { phase, ..self }, GotoStep { drive: false, next })
                }
            },
            _ => (self, GotoStep { drive: false, next: request_of(self.phase) }),
        }
    }
}

/// Exec form of [`faces_target`].
pub fn is_facing_target(orientation_error: Option<Scalar>) -> (r: bool)
    ensures
        r == faces_target(orientation_error),
{
    match orientation_error {
        Some(e) => e.abs().lt(Scalar::from_bits(ANGLE_EPSILON)),
        None => true,
    }
}

/// Exec form of [`has_arrived`].
pub fn arrived(distance: Scalar, orientation_error: Option<Scalar>, speed: Scalar) -> (r: bool)
    ensures
        r == has_arrived(distance, orientation_error, speed),
{
    distance.lt(Scalar::from_bits(IS_CLOSE_EPSILON)) && is_facing_target(orientation_error)
        && speed.lt(Scalar::from_bits(SPEED_EPSILON))
}

/// Exec form of [`way_point_is_reached`].
pub fn reached_way_point(readings: Readings, is_last: bool) -> (r: bool)
    ensures
        r == way_point_is_reached(readings, is_last),
{
    if is_last {
        arrived(readings.distance, readings.orientation_error, readings.speed)
    } else {
        readings.distance.lt(Scalar::from_bits(IS_CLOSE_EPSILON_RELAXED)) && is_facing_target(
            readings.orientation_error,
        )
    }
}

fn at_loop_head(readings: Readings) -> (r: (GotoPhase, GotoNext))
    ensures
        r == decide_at_loop_head(readings),
{
    if arrived(readings.distance_to_destination, readings.orientation_error, readings.speed) {
        (GotoPhase::Finished, GotoNext::Finish(Ok(())))
    } else {
        (GotoPhase::Planning, GotoNext::Plan)
    }
}

fn on_way_point(index: usize, len: usize, readings: Readings) -> (r: (GotoPhase, GotoNext))
    ensures
        r == decide_on_way_point(index, len, readings),
{
    let is_last = index >= len || index + 1 == len;
    if !reached_way_point(readings, is_last) {
        (GotoPhase::Following { index }, GotoNext::Wait)
    } else if !is_last {
        (GotoPhase::Following { index: index + 1 }, GotoNext::Measure)
    } else {
        at_loop_head(readings)
    }
}

/// Exec form of [`driven`].
pub fn drive(robot: &mut AllyRobot, set_point: SetPoint)
    ensures
        *final(robot) == driven(*old(robot), set_point),
{
    robot.set_target_vel(set_point.vel);
    if let Some(angular_vel) = set_point.angular_vel {
        robot.set_target_angular_vel(angular_vel);
    }
}

impl Goto {
    /// Starts a motion: see [`Goto::begun`]. `readings` are taken against the
    /// destination; `self_is_free` says whether the robot may be where it is.
    pub fn begin(mode: AvoidanceMode, self_is_free: bool, readings: Readings) -> (r: (
        Goto,
        GotoStep,
    ))
        ensures
            (r.0.phase, r.1) == Goto::begun(mode, self_is_free, readings),
            r.0.mode == mode,
            r.0.way_points@ == Seq::<Point2>::empty(),
            r.0.wf(),
    {
        let at_destination = arrived(
            readings.distance_to_destination,
            readings.orientation_error,
            readings.speed,
        );
        let (phase, step) = if let AvoidanceMode::AvoidNothing = mode {
            if at_destination {
                (GotoPhase::Finished, GotoStep { drive: false, next: GotoNext::Finish(Ok(())) })
            } else {
                (GotoPhase::Straight, GotoStep { drive: false, next: GotoNext::Wait })
            }
        } else if !self_is_free {
            (
                GotoPhase::Finished,
                GotoStep {
                    drive: false,
                    next: GotoNext::Finish(Err(GotoError::DestinationOccupiedError)),
                },
            )
        } else {
            let (phase, next) = at_loop_head(readings);
            (phase, GotoStep { drive: false, next })
        };
        (Goto { mode, phase, way_points: Vec::new() }, step)
    }

    /// Exec form of [`Goto::target`].
    pub fn heading_for(&self, destination: Point2) -> (target: Point2)
        ensures
            target == self.target(destination),
    {
        match self.phase {
            GotoPhase::Following { index } => {
                if index < self.way_points.len() {
                    self.way_points[index]
                } else {
                    destination
                }
            },
            _ => destination,
        }
    }

    /// Takes `event` in, decides, and writes the set point of the event to
    /// `robot` where the motion drives: see [`Goto::stepped`] and
    /// [`robot_after`].
    pub fn step(&mut self, robot: &mut AllyRobot, event: GotoEvent) -> (step: GotoStep)
        ensures
            (*final(self), step) == old(self).stepped(event),
            *final(robot) == robot_after(*old(robot), event, step),
            old(self).wf() ==> final(self).wf(),
    {
        match (self.phase, event) {
            (GotoPhase::Straight, GotoEvent::Ticked { readings, clear, set_point }) => {
                let _ = clear;
                drive(robot, set_point);
                if arrived(
                    readings.distance_to_destination,
                    readings.orientation_error,
                    readings.speed,
                ) {
                    self.phase = GotoPhase::Finished;
                    GotoStep { drive: true, next: GotoNext::Finish(Ok(())) }
                } else {
                    GotoStep { drive: true, next: GotoNext::Wait }
                }
            },
            (GotoPhase::Planning, GotoEvent::Planned { path }) => {
                let found = path.len() > 0;
                self.way_points = path;
                if found {
                    self.phase = GotoPhase::Following { index: 0 };
                    GotoStep { drive: false, next: GotoNext::Measure }
                } else {
                    GotoStep { drive: false, next: GotoNext::Plan }
                }
            },
            (GotoPhase::Planning, GotoEvent::PlanFailed { reason }) => {
                self.phase = GotoPhase::Finished;
                GotoStep {
                    drive: false,
                    next: GotoNext::Finish(Err(GotoError::NoPathFoundError(reason))),
                }
            },
            (GotoPhase::Following { index }, GotoEvent::Measured { readings }) => {
                let (phase, next) = on_way_point(index, self.way_points.len(), readings);
                self.phase = phase;
                GotoStep { drive: false, next }
            },
            (GotoPhase::Following { index }, GotoEvent::Ticked { readings, clear, set_point }) => {
                if clear {
                    let (phase, next) = on_way_point(index, self.way_points.len(), readings);
                    self.phase = phase;
                    drive(robot, set_point);
                    GotoStep { drive: true, next }
                } else {
                    let (phase, next) = at_loop_head(readings);
                    self.phase = phase;
                    GotoStep { drive: false, next }
                }
            },
            (phase, _) => {
                let next = match phase {
                    GotoPhase::Straight => GotoNext::Wait,
                    GotoPhase::Planning => GotoNext::Plan,
                    GotoPhase::Following { .. } => GotoNext::Measure,
                    GotoPhase::Finished => GotoNext::Idle,
                };
                GotoStep { drive: false, next }
            },
        }
    }
}

/// A motion ends well only where the robot has arrived at the destination:
/// close to it, facing the target orientation where one was given, and
/// standing, by the readings of the event that ended it.
pub proof fn lemma_success_means_arrival(motion: Goto, event: GotoEvent)
    requires
        motion.stepped(event).1.next matches GotoNext::Finish(Ok(_)),
    ensures
        match event {
            GotoEvent::Ticked { readings, .. } => is_at_destination(readings),
            GotoEvent::Measured { readings } => is_at_destination(readings),
            _ => false,
        },
        motion.stepped(event).0.phase is Finished,
{
}

/// A motion that begins by ending well begins at the destination.
pub proof fn lemma_immediate_success_means_arrival(
    mode: AvoidanceMode,
    self_is_free: bool,
    readings: Readings,
)
    requires
        Goto::begun(mode, self_is_free, readings).1.next matches GotoNext::Finish(Ok(_)),
    ensures
        is_at_destination(readings),
        mode is AvoidNothing || self_is_free,
        Goto::begun(mode, self_is_free, readings).0 is Finished,
{
}

/// A set point is written only after an update, and on a path only from a
/// trajectory that is clear; whatever else happens, the robot is told
/// nothing new.
pub proof fn lemma_set_points_follow_clear_updates(
    motion: Goto,
    robot: AllyRobot,
    event: GotoEvent,
)
    ensures
        motion.stepped(event).1.drive ==> match event {
            GotoEvent::Ticked { clear, .. } => motion.phase is Straight || (motion.phase
                is Following && clear),
            _ => false,
        },
        !motion.stepped(event).1.drive ==> robot_after(robot, event, motion.stepped(event).1)
            == robot,
        ({
            let after = robot_after(robot, event, motion.stepped(event).1);
            &&& after.internal_data.should_kick == robot.internal_data.should_kick
            &&& after.internal_data.should_dribble == robot.internal_data.should_dribble
            &&& after == (Robot { internal_data: after.internal_data, ..robot })
        }),
{
}

/// A motion fails in two ways only: at its beginning, where robots are
/// avoided and the robot stands where it may not be; and later with the
/// planner's reason, where the planner gave up.
pub proof fn lemma_failures_are_reported(
    motion: Goto,
    event: GotoEvent,
    mode: AvoidanceMode,
    self_is_free: bool,
    readings: Readings,
)
    ensures
        match motion.stepped(event).1.next {
            GotoNext::Finish(Err(e)) => motion.phase is Planning && match event {
                GotoEvent::PlanFailed { reason } => e == GotoError::NoPathFoundError(reason),
                _ => false,
            },
            _ => !(motion.phase is Planning && event is PlanFailed),
        },
        match Goto::begun(mode, self_is_free, readings).1.next {
            GotoNext::Finish(Err(e)) => e is DestinationOccupiedError && !(mode is AvoidNothing)
                && !self_is_free,
            _ => mode is AvoidNothing || self_is_free,
        },
{
}

/// Where nothing is avoided the motion never plans and never fails: it
/// tracks the destination until it has arrived.
pub proof fn lemma_straight_motion_never_plans(
    self_is_free: bool,
    readings: Readings,
    motion: Goto,
    event: GotoEvent,
)
    ensures
        ({
            let first = Goto::begun(AvoidanceMode::AvoidNothing, self_is_free, readings);
            &&& first.0 is Straight || first.0 is Finished
            &&& first.0 is Straight <==> !is_at_destination(readings)
        }),
        motion.phase is Straight ==> ({
            let after = motion.stepped(event);
            &&& after.0.phase is Straight || after.0.phase is Finished
            &&& after.1.next is Wait || after.1.next matches GotoNext::Finish(Ok(_))
        }),
{
}

/// A motion that follows a way point of its path goes on following one of
/// the same path, that one or the next, or leaves the path; only a plan
/// changes the path; a motion that is over stays over.
pub proof fn lemma_way_points_are_followed_in_order(motion: Goto, event: GotoEvent)
    ensures
        motion.wf() ==> motion.stepped(event).0.wf(),
        motion.stepped(event).0.mode == motion.mode,
        match (motion.phase, motion.stepped(event).0.phase) {
            (GotoPhase::Following { index }, GotoPhase::Following { index: next_index }) => {
                next_index == index || next_index == index + 1
            },
            (GotoPhase::Finished, after) => after is Finished && motion.stepped(event).1.next
                is Idle,
            _ => true,
        },
        motion.stepped(event).0.way_points == motion.way_points || (motion.phase is Planning
            && match event {
            GotoEvent::Planned { path } => motion.stepped(event).0.way_points == path,
            _ => false,
        }),
{
}

/// The motion and the robot after a run of events, each taken in as
/// [`Goto::step`] takes it in.
pub open spec fn after_run(motion: Goto, robot: AllyRobot, events: Seq<GotoEvent>) -> (
    Goto,
    AllyRobot,
)
    decreases events.len(),
{
    if events.len() == 0 {
        (motion, robot)
    } else {
        let (before, robot_before) = after_run(motion, robot, events.drop_last());
        let (after, step) = before.stepped(events.last());
        (after, robot_after(robot_before, events.last(), step))
    }
}

/// Through any run a well-formed motion stays well-formed under its mode,
/// and the robot keeps everything but its target velocities. A run of a
/// motion that is over, or a run without an update, changes nothing on the
/// robot; a motion that is over stays over, and one that tracks in a
/// straight line never takes a path.
pub proof fn lemma_runs_are_tame(motion: Goto, robot: AllyRobot, events: Seq<GotoEvent>)
    ensures
        ({
            let (after, robot_then) = after_run(motion, robot, events);
            &&& motion.wf() ==> after.wf()
            &&& after.mode == motion.mode
            &&& (motion.phase is Straight || motion.phase is Finished) ==> (after.phase
                is Straight || after.phase is Finished) && after.way_points
                == motion.way_points
            &&& robot_then == (Robot {
                internal_data: AllyData {
                    target_vel: robot_then.internal_data.target_vel,
                    target_angular_vel: robot_then.internal_data.target_angular_vel,
                    ..robot.internal_data
                },
                ..robot
            })
            &&& motion.phase is Finished ==> after.phase is Finished && robot_then == robot
            &&& (forall|i: int| 0 <= i < events.len() ==> !(#[trigger] events[i] is Ticked))
                ==> robot_then == robot
        }),
    decreases events.len(),
{
    if events.len() > 0 {
        let earlier = events.drop_last();
        lemma_runs_are_tame(motion, robot, earlier);
        let (before, robot_before) = after_run(motion, robot, earlier);
        lemma_way_points_are_followed_in_order(before, events.last());
        lemma_set_points_follow_clear_updates(before, robot_before, events.last());
        if forall|i: int| 0 <= i < events.len() ==> !(#[trigger] events[i] is Ticked) {
            assert forall|i: int| 0 <= i < earlier.len() implies !(#[trigger] earlier[i]
                is Ticked) by {
                assert(earlier[i] == events[i]);
            }
            assert(!(events[events.len() - 1] is Ticked));
        }
    }
}

} // verus!
