use crabe_async::actions::pass_to::PassPhase;
use crabe_async::actions::place_ball::{PlacePhase, STEP_AWAY_FACTOR};
use crabe_async::actions::plays::{
    can_score, choose_striker, kick_while_holding, shoot_if_can_score, striker_for,
};
use crabe_async::actions::strike_alone::StrikePhase;
use crabe_async::actions::{
    Aim, Destination, GoGetBall, GotoOrder, PassTo, PlaceBall, SkillAction, SkillError,
    SkillEvent, StrikeAlone, STAGING_DISTANCE,
};
use crabe_async::math::{LinesParallelError, Point2, Scalar};
use crabe_async::world::{AllyRobot, AvoidanceMode, GotoError, Kick, TeamColor};

fn scalar(x: f64) -> Scalar {
    Scalar::from_bits(x.to_bits())
}

fn point(x: f64, y: f64) -> Point2 {
    Point2::new(scalar(x), scalar(y))
}

fn robot() -> AllyRobot {
    AllyRobot::default_with_id(0, TeamColor::Blue)
}

fn goto_ok() -> SkillEvent {
    SkillEvent::GotoFinished(Ok(()))
}

#[test]
fn go_get_ball_chases_until_it_has_the_ball() {
    let mut robot = robot();
    let mut skill = GoGetBall::new();
    let action = skill.step(&mut robot, SkillEvent::Started);
    assert!(robot.should_dribble());
    let first = GotoOrder {
        destination: Destination::Ball,
        aim: Aim::TowardsBall,
        mode: AvoidanceMode::AvoidNothing,
    };
    assert!(matches!(action, SkillAction::GotoUntilBall(order) if order == first));
    assert_eq!(skill, GoGetBall::Chasing);

    // the chase ended at the ball's place, but the dribbler has not caught it
    let action = skill.step(&mut robot, goto_ok());
    let again = GotoOrder { aim: Aim::AsBefore, ..first };
    assert!(matches!(action, SkillAction::GotoUntilBall(order) if order == again));
    assert_eq!(skill, GoGetBall::Chasing);

    robot.set_has_ball(true);
    let action = skill.step(&mut robot, SkillEvent::BallAcquired);
    assert!(matches!(action, SkillAction::Sleep { millis: 100 }));
    assert_eq!(skill, GoGetBall::Settling);

    let action = skill.step(&mut robot, SkillEvent::SleepOver);
    assert!(matches!(action, SkillAction::Finish(Ok(()))));
    assert_eq!(skill, GoGetBall::Done);
    assert!(robot.should_dribble());
    assert_eq!(robot.internal_data.should_kick, None);
}

#[test]
fn go_get_ball_with_the_ball_settles_at_once() {
    let mut robot = robot();
    robot.set_has_ball(true);
    let mut skill = GoGetBall::new();
    let action = skill.step(&mut robot, SkillEvent::Started);
    assert!(matches!(action, SkillAction::Sleep { millis: 100 }));
    assert!(robot.should_dribble());
}

#[test]
fn a_skill_ignores_what_it_does_not_wait_for() {
    let mut robot = robot();
    let mut skill = GoGetBall::new();
    assert!(matches!(skill.step(&mut robot, SkillEvent::Ticked), SkillAction::Continue));
    assert_eq!(skill, GoGetBall::Start);
    assert!(!robot.should_dribble());
    let mut pass = PassTo::new(1);
    assert!(matches!(pass.step(&mut robot, SkillEvent::TimedOut), SkillAction::Continue));
    assert_eq!(pass.phase, PassPhase::Start);
}

#[test]
fn pass_kicks_until_the_ball_is_gone_and_waits_for_the_receiver() {
    let mut robot = robot();
    robot.set_has_ball(true);
    let mut skill = PassTo::new(4);
    let action = skill.step(&mut robot, SkillEvent::Started);
    let turn = GotoOrder {
        destination: Destination::HoldPosition,
        aim: Aim::TowardsRobot(4),
        mode: AvoidanceMode::AvoidRobots,
    };
    assert!(matches!(action, SkillAction::Goto(order) if order == turn));

    // the turn may fail: the pass goes on
    let action = skill.step(&mut robot, SkillEvent::GotoFinished(Err(GotoError::DestinationOccupiedError)));
    assert!(matches!(action, SkillAction::Sleep { millis: 100 }));

    let action = skill.step(&mut robot, SkillEvent::SleepOver);
    assert!(matches!(action, SkillAction::NextTick { period_millis: 10 }));
    assert_eq!(skill.phase, PassPhase::Kicking);
    assert_eq!(robot.internal_data.should_kick, None);

    let action = skill.step(&mut robot, SkillEvent::Ticked);
    assert_eq!(robot.take_should_kick(), Some(Kick::Straight));
    assert!(matches!(action, SkillAction::NextTick { period_millis: 10 }));

    robot.set_has_ball(false);
    let action = skill.step(&mut robot, SkillEvent::Ticked);
    assert_eq!(robot.take_should_kick(), Some(Kick::Straight));
    assert!(matches!(action, SkillAction::AwaitBallAt { robot: 4, timeout_millis: 1000 }));
    assert_eq!(skill.phase, PassPhase::Receiving);

    let action = skill.step(&mut robot, SkillEvent::ReceiverGotBall);
    assert!(matches!(action, SkillAction::Finish(Ok(()))));
    assert_eq!(skill.phase, PassPhase::Done);
    assert_eq!(skill.receiver, 4);
}

#[test]
fn pass_without_the_ball_kicks_nothing_and_can_time_out() {
    let mut robot = robot();
    let mut skill = PassTo::new(2);
    skill.step(&mut robot, SkillEvent::Started);
    skill.step(&mut robot, goto_ok());
    let action = skill.step(&mut robot, SkillEvent::SleepOver);
    assert!(matches!(action, SkillAction::AwaitBallAt { robot: 2, timeout_millis: 1000 }));
    assert_eq!(robot.internal_data.should_kick, None);
    let action = skill.step(&mut robot, SkillEvent::TimedOut);
    match action {
        SkillAction::Finish(Err(e)) => {
            assert!(matches!(e, SkillError::PassTimedOut));
            assert_eq!(e.message(), "passed but didn't receive");
        }
        other => panic!("unexpected {:?}", other),
    }
}

#[test]
fn errors_say_what_went_wrong() {
    assert_eq!(
        SkillError::Motion(GotoError::NoPathFoundError("failed".to_string())).message(),
        "failed"
    );
    assert_eq!(
        SkillError::Motion(GotoError::DestinationOccupiedError).message(),
        "destination occupied"
    );
}

#[test]
fn strike_stages_approaches_and_kicks() {
    assert_eq!(f64::from_bits(STAGING_DISTANCE), 0.3);
    let goal = point(4.5, 0.);
    let mut robot = robot();
    let mut skill = StrikeAlone::new(goal);
    let action = skill.step(&mut robot, SkillEvent::Started);
    let staging = GotoOrder {
        destination: Destination::BehindBall { target: goal },
        aim: Aim::AlongBallTo { target: goal },
        mode: AvoidanceMode::AvoidRobotsAndBall,
    };
    assert!(matches!(action, SkillAction::Goto(order) if order == staging));
    assert!(!robot.should_dribble());

    let action = skill.step(&mut robot, goto_ok());
    let approach = GotoOrder {
        destination: Destination::Ball,
        aim: Aim::AlongBallTo { target: goal },
        mode: AvoidanceMode::AvoidRobots,
    };
    assert!(matches!(action, SkillAction::GotoUntilBall(order) if order == approach));
    assert!(robot.should_dribble());
    assert_eq!(skill.phase, StrikePhase::Approaching);

    robot.set_has_ball(true);
    let action = skill.step(&mut robot, SkillEvent::BallAcquired);
    assert!(matches!(action, SkillAction::NextTick { period_millis: 1000 }));
    assert!(!robot.should_dribble());
    assert_eq!(robot.internal_data.should_kick, None);

    let action = skill.step(&mut robot, SkillEvent::Ticked);
    assert_eq!(robot.take_should_kick(), Some(Kick::Straight));
    assert!(matches!(action, SkillAction::NextTick { period_millis: 1000 }));

    robot.set_has_ball(false);
    let action = skill.step(&mut robot, SkillEvent::Ticked);
    assert_eq!(robot.take_should_kick(), Some(Kick::Straight));
    assert!(matches!(action, SkillAction::Finish(Ok(()))));
    assert_eq!(skill.phase, StrikePhase::Done);
}

#[test]
fn strike_gives_up_when_it_cannot_stage() {
    let mut robot = robot();
    let mut skill = StrikeAlone::new(point(4.5, 0.));
    skill.step(&mut robot, SkillEvent::Started);
    let action = skill.step(&mut robot, SkillEvent::GotoFinished(Err(GotoError::DestinationOccupiedError)));
    assert!(matches!(
        action,
        SkillAction::Finish(Err(SkillError::Motion(GotoError::DestinationOccupiedError)))
    ));
    assert!(!robot.should_dribble());
    assert_eq!(skill.phase, StrikePhase::Done);
}

#[test]
fn strike_without_the_ball_after_the_approach_is_over() {
    let mut robot = robot();
    let mut skill = StrikeAlone::new(point(4.5, 0.));
    skill.step(&mut robot, SkillEvent::Started);
    skill.step(&mut robot, goto_ok());
    let action = skill.step(&mut robot, goto_ok());
    assert!(matches!(action, SkillAction::Finish(Ok(()))));
    assert_eq!(robot.internal_data.should_kick, None);
}

#[test]
fn placement_fetches_carries_releases_and_steps_back() {
    assert_eq!(STEP_AWAY_FACTOR, 4);
    let target = point(1., 1.);
    let mut robot = robot();
    let mut skill = PlaceBall::new(target);
    let action = skill.step(&mut robot, SkillEvent::Started);
    assert!(matches!(action, SkillAction::GotoUntilBall(_)));
    assert!(robot.should_dribble());
    assert_eq!(skill.phase, PlacePhase::Fetching(GoGetBall::Chasing));

    robot.set_has_ball(true);
    let action = skill.step(&mut robot, SkillEvent::BallAcquired);
    assert!(matches!(action, SkillAction::Sleep { millis: 100 }));
    assert_eq!(skill.phase, PlacePhase::Fetching(GoGetBall::Settling));

    let action = skill.step(&mut robot, SkillEvent::SleepOver);
    let carry = GotoOrder {
        destination: Destination::BallDropOff { target, factor: 1 },
        aim: Aim::TowardsBall,
        mode: AvoidanceMode::AvoidRobots,
    };
    assert!(matches!(action, SkillAction::Goto(order) if order == carry));
    assert_eq!(skill.phase, PlacePhase::Carrying);
    assert!(robot.should_dribble());

    let action = skill.step(&mut robot, SkillEvent::GotoFinished(Err(GotoError::DestinationOccupiedError)));
    assert!(matches!(action, SkillAction::Sleep { millis: 500 }));
    assert!(!robot.should_dribble());

    let action = skill.step(&mut robot, SkillEvent::SleepOver);
    let back = GotoOrder {
        destination: Destination::BallDropOff { target, factor: 4 },
        aim: Aim::AsBefore,
        mode: AvoidanceMode::AvoidRobots,
    };
    assert!(matches!(action, SkillAction::Goto(order) if order == back));

    let action = skill.step(&mut robot, goto_ok());
    assert!(matches!(action, SkillAction::Finish(Ok(()))));
    assert_eq!(skill.phase, PlacePhase::Done);
    assert_eq!(robot.internal_data.should_kick, None);
}

#[test]
fn a_shot_scores_between_the_posts() {
    let at = |y: f64| Ok(point(4.5, y));
    assert!(can_score(&at(0.)));
    assert!(can_score(&at(0.49)));
    assert!(can_score(&at(-0.49)));
    assert!(!can_score(&at(0.5)));
    assert!(!can_score(&at(-0.5)));
    assert!(!can_score(&at(2.)));
    assert!(!can_score(&at(f64::NAN)));
    assert!(!can_score(&Err(LinesParallelError)));
}

#[test]
fn the_striker_is_one_of_the_wingers() {
    assert_eq!(striker_for(true, 1, 2), 1);
    assert_eq!(striker_for(false, 1, 2), 2);
    let mut seen = [false, false];
    for _ in 0..200 {
        match choose_striker(1, 2) {
            1 => seen[0] = true,
            2 => seen[1] = true,
            other => panic!("robot {other} is no winger"),
        }
    }
    assert!(seen[0] && seen[1], "two hundred draws fell on one side");
}

#[test]
fn a_play_shoots_when_it_can_score() {
    let mut robot = robot();
    assert!(!shoot_if_can_score(&mut robot, &Ok(point(4.5, 0.7))));
    assert_eq!(robot.internal_data.should_kick, None);
    assert!(!shoot_if_can_score(&mut robot, &Err(LinesParallelError)));
    assert_eq!(robot.internal_data.should_kick, None);
    assert!(shoot_if_can_score(&mut robot, &Ok(point(4.5, 0.2))));
    assert_eq!(robot.take_should_kick(), Some(Kick::Straight));
}

#[test]
fn a_striker_kicks_while_it_holds_the_ball() {
    let mut robot = robot();
    assert!(!kick_while_holding(&mut robot));
    assert_eq!(robot.internal_data.should_kick, None);
    robot.set_has_ball(true);
    assert!(kick_while_holding(&mut robot));
    assert_eq!(robot.take_should_kick(), Some(Kick::Straight));
    robot.set_has_ball(false);
    assert!(!kick_while_holding(&mut robot));
    assert_eq!(robot.internal_data.should_kick, None);
}
