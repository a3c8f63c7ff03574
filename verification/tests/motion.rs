use crabe_async::math::{Point2, Scalar};
use crabe_async::world::motion::{
    any_robot_is_close, measures_within, robots_of, BALL_CLEARANCE, ROBOT_CLEARANCE,
};
use crabe_async::world::vision::RobotSighting;
use crabe_async::world::{AllyRobot, AvoidanceMode, RobotDetection, TeamColor, World};

fn scalar(x: f64) -> Scalar {
    Scalar::from_bits(x.to_bits())
}

fn num(s: Scalar) -> f64 {
    f64::from_bits(s.to_bits())
}

fn point(x: f64, y: f64) -> Point2 {
    Point2::new(scalar(x), scalar(y))
}

fn distance(a: Point2, b: Point2) -> Scalar {
    scalar(((num(b.x) - num(a.x)).powi(2) + (num(b.y) - num(a.y)).powi(2)).sqrt())
}

fn sighting(id: u32, x: f64, y: f64) -> RobotSighting {
    RobotSighting {
        detection: RobotDetection { robot_id: id, pos: point(x, y), orientation: scalar(0.) },
        estimate: None,
    }
}

/// Robot 0 at the origin, an ally at (1, 0), an enemy at (0, 1), the ball at (-1, 0).
fn world() -> World {
    let mut world = World::default_with_team_color(TeamColor::Blue);
    world.upsert_ally(sighting(0, 0., 0.), scalar(0.));
    world.upsert_ally(sighting(1, 1., 0.), scalar(0.));
    world.upsert_enemy(sighting(0, 0., 1.), scalar(0.));
    world.update_ball(point(-1., 0.), scalar(0.), None);
    world
}

fn me(world: &World) -> &AllyRobot {
    &world.team[&0]
}

#[test]
fn clearances_are_those_of_the_field() {
    assert_eq!(f64::from_bits(ROBOT_CLEARANCE), 0.3);
    assert_eq!(f64::from_bits(BALL_CLEARANCE), 0.2);
    let world = world();
    let other = &world.ennemies[&0];
    assert!(other.collides_with_robot(point(0., 1.), &distance));
    assert!(other.collides_with_robot(point(0.29, 1.), &distance));
    assert!(!other.collides_with_robot(point(0.3, 1.), &distance));
    assert!(!other.collides_with_robot(point(2., 1.), &distance));
    assert!(!other.collides_with_robot(point(f64::NAN, 1.), &distance));
    assert!(measures_within(&distance, point(0., 0.), point(0.1, 0.), scalar(0.2)));
    assert!(!measures_within(&distance, point(0., 0.), point(0.2, 0.), scalar(0.2)));
}

#[test]
fn nothing_is_avoided_in_the_mode_that_avoids_nothing() {
    let world = world();
    for p in [point(0., 0.), point(1., 0.), point(0., 1.), point(-1., 0.)] {
        assert!(me(&world).is_free(p, &world, AvoidanceMode::AvoidNothing, &distance));
    }
}

#[test]
fn other_robots_are_avoided_but_not_oneself() {
    let world = world();
    let free = |x: f64, y: f64| me(&world).is_free(point(x, y), &world, AvoidanceMode::AvoidRobots, &distance);
    // on itself
    assert!(free(0., 0.));
    // near the ally, on either side of the clearance
    assert!(!free(1., 0.));
    assert!(!free(0.75, 0.));
    assert!(free(0.7, 0.));
    assert!(free(0.5, 0.));
    // near the enemy
    assert!(!free(0., 0.8));
    assert!(free(0., 0.7));
    // on the ball
    assert!(free(-1., 0.));
}

#[test]
fn the_ball_is_avoided_in_the_strictest_mode() {
    let world = world();
    let free = |x: f64, y: f64| {
        me(&world).is_free(point(x, y), &world, AvoidanceMode::AvoidRobotsAndBall, &distance)
    };
    assert!(!free(-1., 0.));
    assert!(!free(-0.85, 0.));
    assert!(free(-0.79, 0.));
    assert!(free(-0.5, 0.));
    assert!(!free(1., 0.));
    assert!(!free(0., 0.8));
    assert!(free(0., 0.));
}

#[test]
fn an_ally_sees_the_first_robot_as_an_obstacle() {
    let world = world();
    let other = &world.team[&1];
    assert!(!other.is_free(point(0., 0.), &world, AvoidanceMode::AvoidRobots, &distance));
    assert!(other.is_free(point(1., 0.), &world, AvoidanceMode::AvoidRobots, &distance));
}

#[test]
fn closeness_can_skip_one_number() {
    let world = world();
    assert!(any_robot_is_close(&world.team, None, point(0., 0.), &distance));
    assert!(!any_robot_is_close(&world.team, Some(0), point(0., 0.), &distance));
    assert!(any_robot_is_close(&world.team, Some(0), point(1.1, 0.), &distance));
    assert!(!any_robot_is_close(&world.team, Some(1), point(1.1, 0.), &distance));
    assert!(!any_robot_is_close(&world.ennemies, None, point(0., 0.), &distance));
    let robots = robots_of(&world.team);
    let mut ids: Vec<u8> = robots.iter().map(|r| r.get_id()).collect();
    ids.sort();
    assert_eq!(ids, vec![0, 1]);
}

#[test]
fn a_trajectory_is_valid_when_every_sample_is_free() {
    let world = world();
    let mode = AvoidanceMode::AvoidRobots;
    let clear = vec![point(0., 0.), point(0.2, -0.5), point(0.5, -0.8), point(1., -1.)];
    assert!(me(&world).is_a_valid_trajectory(&clear, &world, mode, &distance));
    let blocked = vec![point(0., 0.), point(0.5, 0.), point(0.9, 0.), point(1.5, 0.)];
    assert!(!me(&world).is_a_valid_trajectory(&blocked, &world, mode, &distance));
    let blocked_at_the_end = vec![point(0., 0.), point(0.5, 0.), point(0.9, 0.)];
    assert!(!me(&world).is_a_valid_trajectory(&blocked_at_the_end, &world, mode, &distance));
    assert!(me(&world).is_a_valid_trajectory(&blocked, &world, AvoidanceMode::AvoidNothing, &distance));
    assert!(me(&world).is_a_valid_trajectory(&vec![], &world, mode, &distance));
    let over_the_ball = vec![point(-0.5, 0.), point(-1., 0.)];
    assert!(me(&world).is_a_valid_trajectory(&over_the_ball, &world, mode, &distance));
    assert!(!me(&world).is_a_valid_trajectory(
        &over_the_ball,
        &world,
        AvoidanceMode::AvoidRobotsAndBall,
        &distance
    ));
}

fn path() -> Vec<Point2> {
    vec![point(1., 0.), point(2., 0.), point(3., 0.), point(4., 0.), point(5., 0.)]
}

#[test]
fn an_open_field_keeps_the_end_only() {
    let world = world();
    let simplified = me(&world).simplify_path(&path(), &|_: Point2, _: Point2| true);
    assert_eq!(simplified, vec![point(5., 0.)]);
}

#[test]
fn a_closed_field_keeps_every_point() {
    let world = world();
    let simplified = me(&world).simplify_path(&path(), &|_: Point2, _: Point2| false);
    let mut want = vec![point(0., 0.)];
    want.extend(path());
    assert_eq!(simplified, want);
}

#[test]
fn the_farthest_reachable_point_becomes_the_anchor() {
    let world = world();
    // one trajectory spans at most two units
    let reachable = |from: Point2, to: Point2| num(distance(from, to)) <= 2.;
    let simplified = me(&world).simplify_path(&path(), &reachable);
    assert_eq!(simplified, vec![point(2., 0.), point(4., 0.), point(5., 0.)]);
}

#[test]
fn the_end_comes_last_even_when_it_is_not_reachable() {
    let world = world();
    let reachable = |_: Point2, to: Point2| num(to.x) < 5.;
    let simplified = me(&world).simplify_path(&path(), &reachable);
    assert_eq!(simplified, vec![point(4., 0.), point(5., 0.)]);
}

#[test]
fn short_paths_are_thinned_too() {
    let world = world();
    assert!(me(&world).simplify_path(&vec![], &|_: Point2, _: Point2| false).is_empty());
    let one = vec![point(1., 1.)];
    assert_eq!(me(&world).simplify_path(&one, &|_: Point2, _: Point2| true), one);
    assert_eq!(
        me(&world).simplify_path(&one, &|_: Point2, _: Point2| false),
        vec![point(0., 0.), point(1., 1.)]
    );
}
