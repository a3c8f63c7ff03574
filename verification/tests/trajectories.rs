use crabe_async::math::Scalar;
use crabe_async::trajectories::bangbang1d::{profile_shape, ramp_acceleration};
use crabe_async::trajectories::bangbang2d::{
    search_goes_on, search_increments, search_step, FIRST_SEARCH_ANGLE, FIRST_SEARCH_INCREMENT,
    SEARCH_RESOLUTION, SEARCH_TRIES,
};
use crabe_async::trajectories::{
    BangBang1d, BangBang2d, BangBangPart, Knot, ProfileShape, SearchStep, Segment,
};
use std::f64::consts::PI;

fn num(s: Scalar) -> f64 {
    f64::from_bits(s.to_bits())
}

fn scalar(x: f64) -> Scalar {
    Scalar::from_bits(x.to_bits())
}

fn knot(time: f64, pos: f64, vel: f64) -> Knot {
    Knot { time: scalar(time), pos: scalar(pos), vel: scalar(vel) }
}

fn pos_if_brake_until_zero_vel(s0: f64, v0: f64, a_max: f64) -> f64 {
    let a = num(ramp_acceleration(scalar(v0), scalar(0.), scalar(a_max)));
    let time_to_stop = -v0 / a;
    s0 + (0.5 * v0 * time_to_stop)
}

fn pos_if_brake_until_zero_vel_triangle(s0: f64, v0: f64, v1: f64, a_max: f64) -> f64 {
    let a1 = num(ramp_acceleration(scalar(v0), scalar(v1), scalar(a_max)));
    let a2 = -a1;
    let t1 = (v1 - v0) / a1;
    let s1 = s0 + (0.5 * (v0 + v1) * t1);
    let t2 = -v1 / a2;
    s1 + (0.5 * v1 * t2)
}

fn shape_of(s0: f64, v0: f64, s1: f64, max_vel: f64, max_accel: f64) -> ProfileShape {
    profile_shape(
        scalar(s1),
        scalar(pos_if_brake_until_zero_vel(s0, v0, max_accel)),
        scalar(pos_if_brake_until_zero_vel_triangle(s0, v0, max_vel, max_accel)),
        scalar(pos_if_brake_until_zero_vel_triangle(s0, v0, -max_vel, max_accel)),
    )
}

fn calc_tri(s0: f64, v0: f64, s2: f64, a: f64) -> BangBang1d {
    let sq = if a > 0. {
        ((a * (s2 - s0)) + (0.5 * v0 * v0)) / (a * a)
    } else {
        ((-a * (s0 - s2)) + (0.5 * v0 * v0)) / (a * a)
    };
    let t2 = if sq > 0. { sq.sqrt() } else { 0. };
    let v1 = a * t2;
    let t1 = (v1 - v0) / a;
    let s1 = s0 + ((v0 + v1) * 0.5 * t1);
    BangBang1d::triangle(scalar(a), knot(0., s0, v0), knot(t1, s1, v1), scalar(t1 + t2))
}

fn calc_trapz(s0: f64, v0: f64, v1: f64, s3: f64, a_max: f64) -> BangBang1d {
    let a1 = num(ramp_acceleration(scalar(v0), scalar(v1), scalar(a_max)));
    let a3 = num(ramp_acceleration(scalar(v1), scalar(0.), scalar(a_max)));
    let t1 = (v1 - v0) / a1;
    let v2 = v1;
    let t3 = -v2 / a3;
    let s1 = s0 + (0.5 * (v0 + v1) * t1);
    let s2 = s3 - (0.5 * v2 * t3);
    let t2 = (s2 - s1) / v1;
    BangBang1d::trapezoid(
        scalar(a_max),
        knot(0., s0, v0),
        knot(t1, s1, v1),
        knot(t1 + t2, s2, v2),
        scalar(t1 + t2 + t3),
    )
}

fn bangbang1d(s0: f64, v0: f64, s1: f64, max_vel: f64, max_accel: f64) -> BangBang1d {
    match shape_of(s0, v0, s1, max_vel, max_accel) {
        ProfileShape::TriangleForward => calc_tri(s0, v0, s1, max_accel),
        ProfileShape::TrapezoidForward => calc_trapz(s0, v0, max_vel, s1, max_accel),
        ProfileShape::TriangleBackward => calc_tri(s0, v0, s1, -max_accel),
        ProfileShape::TrapezoidBackward => calc_trapz(s0, v0, -max_vel, s1, max_accel),
    }
}

fn position_on(segment: &Segment, t: f64) -> f64 {
    num(segment.part.initial_pos)
        + (num(segment.part.initial_vel) * t)
        + (0.5 * num(segment.part.accel) * t * t)
}

fn position(traj: &BangBang1d, tt: f64) -> f64 {
    match traj.segment_at(scalar(tt)) {
        None => {
            let last = traj.last_segment();
            position_on(&last, num(last.part.end_time) - num(last.start_time))
        }
        Some(segment) => position_on(&segment, tt.max(0.) - num(segment.start_time)),
    }
}

fn velocity(traj: &BangBang1d, tt: f64) -> f64 {
    match traj.segment_at(scalar(tt)) {
        None => 0.0,
        Some(segment) => {
            let t = tt.max(0.) - num(segment.start_time);
            num(segment.part.initial_vel) + (num(segment.part.accel) * t)
        }
    }
}

fn acceleration(traj: &BangBang1d, tt: f64) -> f64 {
    num(traj.get_acceleration(scalar(tt)))
}

fn runtime(traj: &BangBang1d) -> f64 {
    num(traj.get_total_runtime())
}

fn bangbang2d(
    from: (f64, f64),
    vel: (f64, f64),
    to: (f64, f64),
    max_vel: f64,
    max_accel: f64,
    accuracy: f64,
) -> BangBang2d {
    let solve = |alpha: f64| {
        let (s_a, c_a) = (alpha.sin(), alpha.cos());
        (
            bangbang1d(from.0, vel.0, to.0, max_vel * c_a, max_accel * c_a),
            bangbang1d(from.1, vel.1, to.1, max_vel * s_a, max_accel * s_a),
        )
    };
    let mut alpha = f64::from_bits(FIRST_SEARCH_ANGLE);
    let (mut x, mut y) = solve(alpha);
    for inc in search_increments().into_iter().map(num) {
        (x, y) = solve(alpha);
        match search_step(
            scalar(runtime(&x)),
            scalar(runtime(&y)),
            scalar(runtime(&x) - runtime(&y)),
            scalar(accuracy),
        ) {
            SearchStep::Stop => break,
            SearchStep::TurnToX => alpha -= inc,
            SearchStep::TurnToY => alpha += inc,
        }
    }
    BangBang2d::new(x, y)
}

fn assert_close(got: f64, want: f64, tolerance: f64) {
    assert!((got - want).abs() <= tolerance, "got {got}, want {want} within {tolerance}");
}

#[test]
fn triangle_from_rest() {
    assert_eq!(shape_of(0., 0., 1., 10., 10.), ProfileShape::TriangleForward);
    let traj = bangbang1d(0., 0., 1., 10., 10.);
    assert_eq!(traj.n_parts(), 2);
    assert_close(runtime(&traj), 2. * (1.0f64 / 10.).sqrt(), 1e-12);
    assert_close(runtime(&traj), 0.6324555320336759, 1e-12);
    // the peak is reached at half time, at the square root of a times s
    assert_close(velocity(&traj, runtime(&traj) / 2.), 10.0f64.sqrt(), 1e-9);
    assert_close(position(&traj, runtime(&traj)), 1.0, 1e-9);
    assert_eq!(velocity(&traj, runtime(&traj)), 0.);
    assert_eq!(acceleration(&traj, 0.1), 10.);
    assert_eq!(acceleration(&traj, 0.5), -10.);
    assert_eq!(acceleration(&traj, runtime(&traj)), 0.);
}

#[test]
fn trapezoid_from_rest() {
    assert_eq!(shape_of(0., 0., 10., 2., 2.), ProfileShape::TrapezoidForward);
    let traj = bangbang1d(0., 0., 10., 2., 2.);
    assert_eq!(traj.n_parts(), 3);
    assert_close(runtime(&traj), 6., 1e-12);
    let sections: Vec<f64> = traj.get_time_sections().into_iter().map(num).collect();
    assert_eq!(sections, vec![1., 5., 6.]);
    assert_close(velocity(&traj, 3.), 2., 1e-12);
    assert_close(position(&traj, 3.), 5.0, 1e-6);
    assert_close(position(&traj, 6.), 10.0, 1e-9);
    assert_eq!(velocity(&traj, 6.), 0.);
    assert_eq!(acceleration(&traj, 0.5), 2.);
    assert_eq!(acceleration(&traj, 3.), 0.);
    assert_eq!(acceleration(&traj, 5.5), -2.);
}

#[test]
fn overshoot_brakes_first() {
    // braking alone stops at 2.25, beyond the target
    assert_close(pos_if_brake_until_zero_vel(0., 3., 2.), 2.25, 1e-12);
    assert_eq!(shape_of(0., 3., 1., 2., 2.), ProfileShape::TriangleBackward);
    let traj = bangbang1d(0., 3., 1., 2., 2.);
    assert_eq!(acceleration(&traj, 0.), -2.);
    assert_eq!(acceleration(&traj, runtime(&traj) - 0.1), 2.);
    assert_close(position(&traj, runtime(&traj)), 1.0, 1e-9);
    assert_eq!(velocity(&traj, runtime(&traj)), 0.);
    assert_eq!(velocity(&traj, runtime(&traj) + 1.), 0.);
    assert_close(position(&traj, runtime(&traj) + 1.), 1.0, 1e-9);
}

#[test]
fn backward_trapezoid() {
    assert_eq!(shape_of(0., 0., -10., 2., 2.), ProfileShape::TrapezoidBackward);
    let traj = bangbang1d(0., 0., -10., 2., 2.);
    assert_close(runtime(&traj), 6., 1e-12);
    assert_close(position(&traj, 3.), -5.0, 1e-9);
    assert_eq!(acceleration(&traj, 0.5), -2.);
    assert_eq!(acceleration(&traj, 5.5), 2.);
}

#[test]
fn limits_hold_along_the_profile() {
    let cases = [
        (0., 0., 1., 10., 10.),
        (0., 0., 10., 2., 2.),
        (0., 1.5, 1., 2., 2.),
        (2., -1., -3., 2., 4.),
        (0., 2., 0.5, 5., 4.),
    ];
    for (s0, v0, s1, max_vel, max_accel) in cases {
        let traj = bangbang1d(s0, v0, s1, max_vel, max_accel);
        let total = runtime(&traj);
        assert_close(position(&traj, total), s1, 1e-9);
        assert_eq!(velocity(&traj, total), 0.);
        for i in 0..=1000 {
            let t = total * i as f64 / 1000.;
            assert!(velocity(&traj, t).abs() <= max_vel + 1e-9, "velocity at {t}");
            assert!(acceleration(&traj, t).abs() <= max_accel + 1e-9, "acceleration at {t}");
        }
    }
}

#[test]
fn axes_finish_together() {
    let traj = bangbang2d((0., 0.), (0., 0.), (3., 4.), 5., 5., 1e-3);
    let (tx, ty) = (runtime(&traj.x), runtime(&traj.y));
    assert!((tx - ty).abs() <= 1e-3, "{tx} against {ty}");
    let total = num(traj.get_total_runtime());
    assert_eq!(total, tx.max(ty));
    assert_close(position(&traj.x, total), 3., 1e-6);
    assert_close(position(&traj.y, total), 4., 1e-6);
    let accel = traj.get_acceleration(scalar(0.));
    assert_eq!(num(accel.x), acceleration(&traj.x, 0.));
    assert_eq!(num(accel.y), acceleration(&traj.y, 0.));
    let sections = traj.get_time_sections();
    assert_eq!(sections.len(), traj.x.n_parts() + traj.y.n_parts());
    assert_eq!(sections[0], traj.x.part(0).end_time);
    assert_eq!(sections[traj.x.n_parts()], traj.y.part(0).end_time);
}

#[test]
fn shape_follows_the_three_stops() {
    let s = scalar;
    // braking stops short: forward; the peak carries past the target: triangle
    assert_eq!(profile_shape(s(1.), s(0.), s(5.), s(-5.)), ProfileShape::TriangleForward);
    assert_eq!(profile_shape(s(1.), s(1.), s(1.), s(-5.)), ProfileShape::TriangleForward);
    assert_eq!(profile_shape(s(1.), s(0.), s(0.5), s(-5.)), ProfileShape::TrapezoidForward);
    // braking overshoots: backward
    assert_eq!(profile_shape(s(1.), s(2.), s(5.), s(0.5)), ProfileShape::TriangleBackward);
    assert_eq!(profile_shape(s(1.), s(2.), s(5.), s(1.)), ProfileShape::TriangleBackward);
    assert_eq!(profile_shape(s(1.), s(2.), s(5.), s(1.5)), ProfileShape::TrapezoidBackward);
    // a stop that is not a number is not short of anything
    assert_eq!(
        profile_shape(s(1.), s(f64::NAN), s(5.), s(f64::NAN)),
        ProfileShape::TrapezoidBackward
    );
}

#[test]
fn ramp_points_from_one_velocity_to_the_other() {
    assert_eq!(num(ramp_acceleration(scalar(0.), scalar(2.), scalar(4.))), 4.);
    assert_eq!(num(ramp_acceleration(scalar(3.), scalar(2.), scalar(4.))), -4.);
    assert_eq!(num(ramp_acceleration(scalar(2.), scalar(2.), scalar(4.))), 4.);
    assert_eq!(num(ramp_acceleration(scalar(-2.), scalar(0.), scalar(4.))), 4.);
}

#[test]
fn parts_are_found_by_time() {
    let traj = BangBang1d::trapezoid(
        scalar(2.),
        knot(0., 0., 0.),
        knot(1., 1., 2.),
        knot(5., 9., 2.),
        scalar(6.),
    );
    assert_eq!(traj.find_part_idx(scalar(-1.)), 0);
    assert_eq!(traj.find_part_idx(scalar(0.)), 0);
    assert_eq!(traj.find_part_idx(scalar(0.999)), 0);
    assert_eq!(traj.find_part_idx(scalar(1.)), 1);
    assert_eq!(traj.find_part_idx(scalar(4.999)), 1);
    assert_eq!(traj.find_part_idx(scalar(5.)), 2);
    assert_eq!(traj.find_part_idx(scalar(6.)), 2);
    assert_eq!(traj.find_part_idx(scalar(100.)), 2);
    assert_eq!(traj.find_part_idx(scalar(f64::NAN)), 2);
    assert_eq!(
        traj.find_part(scalar(2.)),
        BangBangPart {
            end_time: scalar(5.),
            initial_pos: scalar(1.),
            initial_vel: scalar(2.),
            accel: scalar(0.),
        }
    );
    assert_eq!(traj.part(2).accel, scalar(-2.));
    assert_eq!(num(traj.get_total_runtime()), 6.);
}

#[test]
fn segments_carry_their_start() {
    let traj = BangBang1d::triangle(scalar(10.), knot(0., 0., 0.), knot(1., 5., 10.), scalar(2.));
    assert_eq!(traj.part(1).accel, scalar(-10.));
    let first = traj.segment_at(scalar(0.5)).expect("inside the profile");
    assert_eq!(first.start_time, scalar(0.));
    assert_eq!(first.part, traj.part(0));
    let second = traj.segment_at(scalar(1.5)).expect("inside the profile");
    assert_eq!(second.start_time, scalar(1.));
    assert_eq!(second.part, traj.part(1));
    // a time before the start counts as the start
    assert_eq!(traj.segment_at(scalar(-3.)).expect("clamped").part, traj.part(0));
    assert_eq!(traj.segment_at(scalar(2.)), None);
    assert_eq!(traj.segment_at(scalar(7.)), None);
    assert!(traj.is_finished_at(scalar(2.)));
    assert!(!traj.is_finished_at(scalar(1.999)));
    let last = traj.last_segment();
    assert_eq!(last.part, traj.part(1));
    assert_eq!(last.start_time, scalar(1.));
    assert_eq!(num(traj.get_acceleration(scalar(2.))), 0.);
}

#[test]
fn search_turns_to_the_slower_axis() {
    let s = scalar;
    assert_eq!(search_step(s(1.), s(1.0005), s(-0.0005), s(1e-3)), SearchStep::Stop);
    assert_eq!(search_step(s(1.), s(1.001), s(-0.001), s(1e-3)), SearchStep::TurnToY);
    assert_eq!(search_step(s(2.), s(1.), s(1.), s(1e-3)), SearchStep::TurnToX);
    assert_eq!(search_step(s(1.), s(2.), s(-1.), s(1e-3)), SearchStep::TurnToY);
    assert_eq!(search_step(s(1.), s(1.), s(0.), s(0.)), SearchStep::TurnToY);
}

#[test]
fn search_gives_up_at_its_resolution() {
    assert_eq!(f64::from_bits(SEARCH_RESOLUTION), 1e-7);
    assert!(search_goes_on(scalar(PI / 8.)));
    assert!(!search_goes_on(scalar(1e-7)));
    assert!(!search_goes_on(scalar(f64::NAN)));
    let mut inc = PI / 8.0;
    let mut tries = 0;
    while search_goes_on(scalar(inc)) {
        inc *= 0.5;
        tries += 1;
    }
    assert_eq!(tries, 22);
    assert_eq!(SEARCH_TRIES, 22);
}

#[test]
fn search_steps_halve_from_an_eighth_of_pi() {
    assert_eq!(f64::from_bits(FIRST_SEARCH_INCREMENT), PI / 8.);
    assert_eq!(f64::from_bits(FIRST_SEARCH_ANGLE), PI / 4.);
    let increments = search_increments();
    assert_eq!(increments.len(), 22);
    let mut inc = PI / 8.0;
    for increment in increments {
        assert_eq!(num(increment), inc);
        assert!(search_goes_on(increment));
        inc *= 0.5;
    }
    assert!(!search_goes_on(scalar(inc)));
}

#[test]
fn search_without_balance_spends_its_tries() {
    // nothing to do along x: its runtime is zero whatever the split
    let traj = bangbang2d((0., 0.), (0., 0.), (0., 1.), 5., 4., 1e-3);
    assert_eq!(runtime(&traj.x), 0.);
    assert!(runtime(&traj.y) > 1e-3);
    assert_close(position(&traj.y, num(traj.get_total_runtime())), 1., 1e-6);
}

#[test]
fn solved_profiles_have_ordered_times() {
    for (s0, v0, s1, max_vel, max_accel) in [
        (0., 0., 1., 10., 10.),
        (0., 0., 10., 2., 2.),
        (0., 3., 1., 2., 2.),
        (0., 0., -10., 2., 2.),
        (1., 0., 1., 2., 2.),
    ] {
        assert!(bangbang1d(s0, v0, s1, max_vel, max_accel).has_ordered_times());
    }
    let backwards = BangBang1d::triangle(scalar(1.), knot(0., 0., 0.), knot(2., 1., 1.), scalar(1.));
    assert!(!backwards.has_ordered_times());
    let early = BangBang1d::triangle(scalar(1.), knot(0., 0., 0.), knot(-1., 1., 1.), scalar(1.));
    assert!(!early.has_ordered_times());
    let unknown =
        BangBang1d::triangle(scalar(1.), knot(0., 0., 0.), knot(1., 1., 1.), scalar(f64::NAN));
    assert!(!unknown.has_ordered_times());
    let late = BangBang1d::trapezoid(
        scalar(1.),
        knot(0., 0., 0.),
        knot(1., 1., 1.),
        knot(3., 1., 1.),
        scalar(2.),
    );
    assert!(!late.has_ordered_times());
}
