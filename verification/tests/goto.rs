use crabe_async::math::Scalar;
use crabe_async::world::goto::{
    arrived, drive, is_facing_target, reached_way_point, Goto, GotoEvent, GotoNext, GotoPhase,
    GotoStep, Readings, SetPoint, ANGLE_EPSILON, COLLISION_TIME_STEP, GOTO_ANGULAR_SPEED, IS_CLOSE_EPSILON,
    IS_CLOSE_EPSILON_RELAXED, LOOKAHEAD, MAX_ACC, MAX_VEL, PLANNING_ACCURACY, RRT_MAX_TRIES,
    RRT_STEP, SET_POINT_ACCURACY, SPEED_EPSILON,
};
use crabe_async::math::{Point2, Vec2};
use crabe_async::world::{AllyRobot, AvoidanceMode, GotoError, Kick, TeamColor};

fn scalar(x: f64) -> Scalar {
    Scalar::from_bits(x.to_bits())
}

fn readings(distance: f64, to_destination: f64, error: Option<f64>, speed: f64) -> Readings {
    Readings {
        distance: scalar(distance),
        distance_to_destination: scalar(to_destination),
        orientation_error: error.map(scalar),
        speed: scalar(speed),
    }
}

fn idle_robot() -> AllyRobot {
    AllyRobot::default_with_id(0, TeamColor::Blue)
}

fn set_point() -> SetPoint {
    SetPoint { vel: Vec2::new(scalar(1.), scalar(2.)), angular_vel: Some(scalar(0.5)) }
}

fn way_point(i: usize) -> Point2 {
    Point2::new(scalar(i as f64), scalar(0.))
}

fn planned(len: usize) -> GotoEvent {
    GotoEvent::Planned { path: (1..=len).map(way_point).collect() }
}

fn ticked(readings: Readings, clear: bool) -> GotoEvent {
    GotoEvent::Ticked { readings, clear, set_point: set_point() }
}

fn far() -> Readings {
    readings(1., 1., None, 0.)
}

fn there() -> Readings {
    readings(0.01, 0.01, None, 0.01)
}

fn is_ok(step: &GotoStep) -> bool {
    matches!(step.next, GotoNext::Finish(Ok(())))
}

#[test]
fn thresholds_are_those_of_the_motion_core() {
    assert_eq!(f64::from_bits(IS_CLOSE_EPSILON), 0.05);
    assert_eq!(f64::from_bits(IS_CLOSE_EPSILON_RELAXED), 0.05 * 3.);
    assert_eq!(f64::from_bits(ANGLE_EPSILON), 0.02);
    assert_eq!(f64::from_bits(SPEED_EPSILON), 0.02);
    assert_eq!(RRT_MAX_TRIES, 1_000);
    assert_eq!(f64::from_bits(RRT_STEP), 0.1);
    assert_eq!(f64::from_bits(MAX_VEL), 5.);
    assert_eq!(f64::from_bits(MAX_ACC), 4.);
    assert_eq!(f64::from_bits(PLANNING_ACCURACY), 0.1);
    assert_eq!(f64::from_bits(SET_POINT_ACCURACY), 0.05);
    assert_eq!(f64::from_bits(COLLISION_TIME_STEP), 0.05);
    assert_eq!(f64::from_bits(LOOKAHEAD), 0.075);
    assert_eq!(f64::from_bits(GOTO_ANGULAR_SPEED), 1.5);
}

#[test]
fn arrival_needs_all_three() {
    let s = scalar;
    assert!(arrived(s(0.049), None, s(0.019)));
    assert!(arrived(s(0.049), Some(s(0.019)), s(0.019)));
    assert!(arrived(s(0.049), Some(s(-0.019)), s(0.019)));
    assert!(!arrived(s(0.05), None, s(0.)));
    assert!(!arrived(s(0.), Some(s(0.02)), s(0.)));
    assert!(!arrived(s(0.), Some(s(-0.02)), s(0.)));
    assert!(!arrived(s(0.), None, s(0.02)));
    assert!(!arrived(s(f64::NAN), None, s(0.)));
    assert!(is_facing_target(None));
    assert!(is_facing_target(Some(s(0.))));
    assert!(!is_facing_target(Some(s(3.))));
    assert!(!is_facing_target(Some(s(f64::NAN))));
}

#[test]
fn way_points_before_the_last_are_passed_loosely() {
    assert!(reached_way_point(readings(0.14, 5., None, 3.), false));
    assert!(!reached_way_point(readings(0.14, 5., None, 3.), true));
    assert!(!reached_way_point(readings(0.16, 5., None, 0.), false));
    assert!(!reached_way_point(readings(0.14, 5., Some(1.), 0.), false));
    assert!(reached_way_point(readings(0.04, 5., Some(0.01), 0.01), true));
    assert!(!reached_way_point(readings(0.04, 5., None, 0.5), true));
}

#[test]
fn straight_motion_drives_until_it_has_arrived() {
    let (mut motion, step) = Goto::begin(AvoidanceMode::AvoidNothing, false, far());
    let mut robot = idle_robot();
    assert_eq!(motion.phase, GotoPhase::Straight);
    assert!(!step.drive);
    assert!(matches!(step.next, GotoNext::Wait));

    let step = motion.step(&mut robot, ticked(far(), false));
    assert!(step.drive);
    assert!(matches!(step.next, GotoNext::Wait));
    assert_eq!(motion.phase, GotoPhase::Straight);

    // close and facing but still moving
    let step = motion.step(&mut robot, ticked(readings(0.01, 0.01, None, 0.5), true));
    assert!(step.drive);
    assert!(matches!(step.next, GotoNext::Wait));

    let step = motion.step(&mut robot, ticked(there(), true));
    assert!(step.drive);
    assert!(is_ok(&step));
    assert_eq!(motion.phase, GotoPhase::Finished);

    let step = motion.step(&mut robot, ticked(far(), true));
    assert!(!step.drive);
    assert!(matches!(step.next, GotoNext::Idle));
}

#[test]
fn a_motion_that_begins_at_the_destination_is_over() {
    for mode in [AvoidanceMode::AvoidNothing, AvoidanceMode::AvoidRobots, AvoidanceMode::AvoidRobotsAndBall] {
        let (motion, step) = Goto::begin(mode, true, there());
        assert_eq!(motion.phase, GotoPhase::Finished);
        assert!(is_ok(&step));
        assert!(!step.drive);
    }
}

#[test]
fn an_occupied_start_fails_where_robots_are_avoided() {
    for mode in [AvoidanceMode::AvoidRobots, AvoidanceMode::AvoidRobotsAndBall] {
        let (motion, step) = Goto::begin(mode, false, there());
        assert_eq!(motion.phase, GotoPhase::Finished);
        assert!(matches!(step.next, GotoNext::Finish(Err(GotoError::DestinationOccupiedError))));
    }
    let (motion, _) = Goto::begin(AvoidanceMode::AvoidNothing, false, far());
    assert_eq!(motion.phase, GotoPhase::Straight);
}

#[test]
fn a_path_is_followed_way_point_by_way_point() {
    let (mut motion, step) = Goto::begin(AvoidanceMode::AvoidRobots, true, far());
    let mut robot = idle_robot();
    assert_eq!(motion.phase, GotoPhase::Planning);
    assert!(matches!(step.next, GotoNext::Plan));

    let step = motion.step(&mut robot, planned(2));
    assert_eq!(motion.phase, GotoPhase::Following { index: 0 });
    assert!(matches!(step.next, GotoNext::Measure));
    assert!(!step.drive);

    let step = motion.step(&mut robot, GotoEvent::Measured { readings: readings(0.5, 1., None, 0.) });
    assert!(matches!(step.next, GotoNext::Wait));
    assert!(!step.drive);

    let step = motion.step(&mut robot, ticked(readings(0.3, 0.8, None, 2.), true));
    assert!(step.drive);
    assert!(matches!(step.next, GotoNext::Wait));

    // the first way point is passed at speed
    let step = motion.step(&mut robot, ticked(readings(0.1, 0.6, None, 2.), true));
    assert!(step.drive);
    assert!(matches!(step.next, GotoNext::Measure));
    assert_eq!(motion.phase, GotoPhase::Following { index: 1 });

    let step = motion.step(&mut robot, GotoEvent::Measured { readings: readings(0.6, 0.6, None, 2.) });
    assert!(matches!(step.next, GotoNext::Wait));

    // the last one is not
    let step = motion.step(&mut robot, ticked(readings(0.01, 0.01, None, 1.), true));
    assert!(matches!(step.next, GotoNext::Wait));
    assert_eq!(motion.phase, GotoPhase::Following { index: 1 });

    let step = motion.step(&mut robot, ticked(there(), true));
    assert!(step.drive);
    assert!(is_ok(&step));
    assert_eq!(motion.phase, GotoPhase::Finished);
}

#[test]
fn a_blocked_trajectory_gives_the_path_up() {
    let (mut motion, _) = Goto::begin(AvoidanceMode::AvoidRobotsAndBall, true, far());
    let mut robot = idle_robot();
    motion.step(&mut robot, planned(3));
    motion.step(&mut robot, GotoEvent::Measured { readings: far() });
    let step = motion.step(&mut robot, ticked(far(), false));
    assert!(!step.drive);
    assert!(matches!(step.next, GotoNext::Plan));
    assert_eq!(motion.phase, GotoPhase::Planning);

    // blocked, but at the destination already
    motion.step(&mut robot, planned(1));
    motion.step(&mut robot, GotoEvent::Measured { readings: far() });
    let step = motion.step(&mut robot, ticked(there(), false));
    assert!(!step.drive);
    assert!(is_ok(&step));
}

#[test]
fn a_moved_destination_is_planned_for_again() {
    let (mut motion, _) = Goto::begin(AvoidanceMode::AvoidRobots, true, far());
    let mut robot = idle_robot();
    motion.step(&mut robot, planned(1));
    motion.step(&mut robot, GotoEvent::Measured { readings: far() });
    // at the way point and standing, but the destination is elsewhere by now
    let step = motion.step(&mut robot, ticked(readings(0.01, 0.7, None, 0.), true));
    assert!(step.drive);
    assert!(matches!(step.next, GotoNext::Plan));
    assert_eq!(motion.phase, GotoPhase::Planning);
}

#[test]
fn a_failed_plan_ends_the_motion_with_its_reason() {
    let (mut motion, _) = Goto::begin(AvoidanceMode::AvoidRobots, true, far());
    let mut robot = idle_robot();
    let step = motion.step(&mut robot, GotoEvent::PlanFailed { reason: "failed".to_string() });
    match step.next {
        GotoNext::Finish(Err(GotoError::NoPathFoundError(reason))) => assert_eq!(reason, "failed"),
        other => panic!("unexpected {:?}", other),
    }
    assert_eq!(motion.phase, GotoPhase::Finished);
}

#[test]
fn an_empty_plan_is_planned_again() {
    let (mut motion, _) = Goto::begin(AvoidanceMode::AvoidRobots, true, far());
    let mut robot = idle_robot();
    let step = motion.step(&mut robot, planned(0));
    assert!(matches!(step.next, GotoNext::Plan));
    assert_eq!(motion.phase, GotoPhase::Planning);
}

#[test]
fn events_that_are_not_waited_for_change_nothing() {
    let (mut motion, _) = Goto::begin(AvoidanceMode::AvoidNothing, true, far());
    let mut robot = idle_robot();
    let step = motion.step(&mut robot, planned(4));
    assert_eq!(motion.phase, GotoPhase::Straight);
    assert!(!step.drive);
    assert!(matches!(step.next, GotoNext::Wait));
    let step = motion.step(&mut robot, GotoEvent::Measured { readings: there() });
    assert!(matches!(step.next, GotoNext::Wait));

    let (mut motion, _) = Goto::begin(AvoidanceMode::AvoidRobots, true, far());
    let mut robot = idle_robot();
    let step = motion.step(&mut robot, ticked(there(), true));
    assert_eq!(motion.phase, GotoPhase::Planning);
    assert!(matches!(step.next, GotoNext::Plan));
    motion.step(&mut robot, planned(2));
    let step = motion.step(&mut robot, planned(5));
    assert_eq!(motion.phase, GotoPhase::Following { index: 0 });
    assert!(matches!(step.next, GotoNext::Measure));
}

#[test]
fn set_points_are_written_when_the_motion_drives() {
    let (mut motion, _) = Goto::begin(AvoidanceMode::AvoidRobots, true, far());
    let mut robot = idle_robot();
    robot.kick(Kick::Chip);
    motion.step(&mut robot, planned(1));
    motion.step(&mut robot, GotoEvent::Measured { readings: far() });
    assert_eq!(robot.get_target_vel(), Vec2::zero());

    // a blocked trajectory writes nothing
    let step = motion.step(&mut robot, ticked(far(), false));
    assert!(!step.drive);
    assert_eq!(robot.get_target_vel(), Vec2::zero());

    motion.step(&mut robot, planned(1));
    motion.step(&mut robot, GotoEvent::Measured { readings: far() });
    let step = motion.step(&mut robot, ticked(far(), true));
    assert!(step.drive);
    assert_eq!(robot.get_target_vel(), Vec2::new(scalar(1.), scalar(2.)));
    assert_eq!(robot.get_target_angular_vel(), scalar(0.5));
    assert_eq!(robot.internal_data.should_kick, Some(Kick::Chip));
}

#[test]
fn a_set_point_without_a_turn_leaves_the_turn_alone() {
    let mut robot = idle_robot();
    robot.set_target_angular_vel(scalar(3.));
    drive(&mut robot, SetPoint { vel: Vec2::new(scalar(1.), scalar(0.)), angular_vel: None });
    assert_eq!(robot.get_target_vel(), Vec2::new(scalar(1.), scalar(0.)));
    assert_eq!(robot.get_target_angular_vel(), scalar(3.));
    drive(&mut robot, set_point());
    assert_eq!(robot.get_target_angular_vel(), scalar(0.5));
}

#[test]
fn the_robot_heads_for_its_way_point_or_the_destination() {
    let destination = Point2::new(scalar(9.), scalar(9.));
    let (mut motion, _) = Goto::begin(AvoidanceMode::AvoidRobots, true, far());
    let mut robot = idle_robot();
    assert!(motion.way_points.is_empty());
    assert_eq!(motion.heading_for(destination), destination);
    motion.step(&mut robot, planned(2));
    assert_eq!(motion.way_points, vec![way_point(1), way_point(2)]);
    assert_eq!(motion.heading_for(destination), way_point(1));
    motion.step(&mut robot, GotoEvent::Measured { readings: readings(0.1, 5., None, 1.) });
    assert_eq!(motion.heading_for(destination), way_point(2));
    // the path is given up: back to the destination
    motion.step(&mut robot, ticked(far(), false));
    assert_eq!(motion.heading_for(destination), destination);
    // a new plan replaces the path
    motion.step(&mut robot, planned(1));
    assert_eq!(motion.way_points, vec![way_point(1)]);

    let (motion, _) = Goto::begin(AvoidanceMode::AvoidNothing, true, far());
    assert_eq!(motion.heading_for(destination), destination);
}
