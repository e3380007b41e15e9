use space_chase::capper::MaximumVelocity;
use space_chase::fixed::Fixed;
use space_chase::integrator::all_valid;
use space_chase::integrator::apply_acceleration;
use space_chase::integrator::apply_drag;
use space_chase::integrator::apply_velocity;
use space_chase::integrator::enforce_velocity_maximum;
use space_chase::integrator::tick;
use space_chase::integrator::Acceleration;
use space_chase::integrator::Body;
use space_chase::integrator::Drag;
use space_chase::integrator::Velocity;
use space_chase::integrator::VelocityMaximum;
use space_chase::steering::SteeringParameters;
use space_chase::vec2::Vec2;

fn v(x: i64, y: i64) -> Vec2 {
    Vec2::new(Fixed::from_raw(x), Fixed::from_raw(y))
}

fn dt() -> Fixed {
    Fixed::from_raw(15_625)
}

fn tenth() -> Drag {
    Drag { recommend: Fixed::from_raw(100_000), actual: Fixed::from_raw(100_000) }
}

fn sample() -> Body {
    Body {
        position: Vec2::from_units(10, -20),
        velocity: Velocity(Vec2::from_units(100, -64)),
        acceleration: Some(Acceleration(Vec2::from_units(640, -6_400))),
        velocity_max: Some(VelocityMaximum(Vec2::from_units(105, 150))),
        drag: Some(tenth()),
    }
}

#[test]
fn cap_limits_each_axis_to_its_maximum() {
    let maximum = VelocityMaximum(Vec2::from_units(900, 50));
    assert_eq!(maximum.cap(Velocity(Vec2::from_units(1_200, -70))).0, Vec2::from_units(900, -50));
    assert_eq!(maximum.cap(Velocity(Vec2::from_units(-1_200, 70))).0, Vec2::from_units(-900, 50));
    assert_eq!(maximum.cap(Velocity(Vec2::from_units(900, -50))).0, Vec2::from_units(900, -50));
    assert_eq!(maximum.cap(Velocity(Vec2::from_units(3, 4))).0, Vec2::from_units(3, 4));
    assert_eq!(maximum.cap(Velocity(v(i64::MIN, i64::MAX))).0, Vec2::from_units(-900, 50));
}

#[test]
fn capped_velocity_is_within_the_maximum_on_each_axis() {
    let samples = [0, 1, -1, 49, 50, 51, -49, -50, -51, 1_000_000, i64::MAX, i64::MIN];
    for mx in [0, 1, 50, i64::MAX] {
        for my in [0, 7, i64::MAX] {
            let maximum = VelocityMaximum(v(mx, my));
            for x in samples {
                for y in samples {
                    let capped = maximum.cap(Velocity(v(x, y))).0;
                    assert!(capped.x.raw() as i128 <= mx as i128);
                    assert!(-(capped.x.raw() as i128) <= mx as i128);
                    assert!(capped.y.raw() as i128 <= my as i128);
                    assert!(-(capped.y.raw() as i128) <= my as i128);
                    assert_eq!(maximum.cap(Velocity(capped)).0, capped);
                }
            }
        }
    }
}

#[test]
fn cap_is_a_box_and_not_a_circle() {
    let maximum = VelocityMaximum(Vec2::from_units(10, 10));
    let capped = maximum.cap(Velocity(Vec2::from_units(10, 10))).0;
    assert_eq!(capped, Vec2::from_units(10, 10));
}

#[test]
fn maximum_refuses_negative_values() {
    assert!(VelocityMaximum::new(Fixed::from_raw(-1), Fixed::zero()).is_none());
    assert!(VelocityMaximum::new(Fixed::zero(), Fixed::from_raw(-1)).is_none());
    assert_eq!(
        VelocityMaximum::new(Fixed::zero(), Fixed::from_raw(8)),
        Some(VelocityMaximum(v(0, 8)))
    );
    assert!(VelocityMaximum(v(0, 0)).is_valid());
    assert!(!VelocityMaximum(v(0, -1)).is_valid());
    assert!(!VelocityMaximum(v(-1, 0)).is_valid());
}

#[test]
fn linear_and_angular_velocity_are_capped_together() {
    let maximum = MaximumVelocity {
        linear: VelocityMaximum(Vec2::from_units(1_000, 1_000)),
        angular: Fixed::from_units(2),
    };
    assert!(maximum.is_valid());
    let (linear, angular) = maximum.cap(Velocity(Vec2::from_units(1_500, -20)), Fixed::from_units(-9));
    assert_eq!(linear.0, Vec2::from_units(1_000, -20));
    assert_eq!(angular, Fixed::from_units(-2));
    let (linear, angular) = maximum.cap(Velocity(Vec2::from_units(5, 5)), Fixed::from_units(1));
    assert_eq!(linear.0, Vec2::from_units(5, 5));
    assert_eq!(angular, Fixed::from_units(1));
    let locked = MaximumVelocity { linear: maximum.linear, angular: Fixed::zero() };
    assert_eq!(locked.cap(Velocity(Vec2::zero()), Fixed::from_units(4)).1, Fixed::zero());
    let broken = MaximumVelocity { linear: maximum.linear, angular: Fixed::from_raw(-1) };
    assert!(!broken.is_valid());
}

#[test]
fn maxima_of_a_chaser_come_from_its_parameters() {
    let parameters = SteeringParameters {
        attack_angle: Fixed::zero(),
        acceleration_factor: Fixed::one(),
        max_linear_velocity: Vec2::from_units(900, 900),
        max_angular_velocity: Fixed::zero(),
    };
    let maximum = parameters.maximum();
    assert_eq!(maximum.linear, VelocityMaximum(Vec2::from_units(900, 900)));
    assert_eq!(maximum.angular, Fixed::zero());
}

#[test]
fn drag_divides_by_one_plus_coefficient_times_dt() {
    let slowed = tenth().decay(Velocity(Vec2::from_units(100, -64)), dt());
    assert_eq!(slowed.0, v(99_844_043, -63_900_187));
}

#[test]
fn zero_drag_keeps_the_velocity() {
    let off = Drag { recommend: Fixed::from_raw(100_000), actual: Fixed::zero() };
    for x in [0, 1, -1, 99_844_043, i64::MAX, i64::MIN] {
        for step in [0, 1, 15_625, 1_000_000, i64::MAX] {
            let velocity = Velocity(v(x, -x.saturating_add(1)));
            assert_eq!(off.decay(velocity, Fixed::from_raw(step)), velocity);
        }
    }
}

#[test]
fn drag_over_no_time_keeps_the_velocity() {
    let velocity = Velocity(Vec2::from_units(100, -64));
    assert_eq!(tenth().decay(velocity, Fixed::zero()), velocity);
}

#[test]
fn drag_never_speeds_up() {
    for k in [1, 100_000, 1_000_000, i64::MAX] {
        let drag = Drag { recommend: Fixed::from_raw(k), actual: Fixed::from_raw(k) };
        for x in [0, 1, -1, 5_000_000, -5_000_000, i64::MAX, i64::MIN] {
            let slowed = drag.decay(Velocity(v(x, x)), Fixed::from_raw(15_625)).0;
            assert!((slowed.x.raw() as i128).abs() <= (x as i128).abs());
            assert!(slowed.x.raw().signum() == 0 || slowed.x.raw().signum() == x.signum());
        }
    }
}

#[test]
fn drag_switches_with_thrust() {
    let drag = tenth().with_thrust(true);
    assert_eq!(drag.actual, Fixed::zero());
    assert_eq!(drag.recommend, Fixed::from_raw(100_000));
    let back = drag.with_thrust(false);
    assert_eq!(back, tenth());
}

#[test]
fn drag_refuses_a_negative_coefficient() {
    assert!(Drag::new(Fixed::from_raw(-1)).is_none());
    assert_eq!(Drag::new(Fixed::from_raw(100_000)), Some(tenth()));
    assert!(tenth().is_valid());
    assert!(!Drag { recommend: Fixed::zero(), actual: Fixed::from_raw(-1) }.is_valid());
    assert!(!Drag { recommend: Fixed::from_raw(-1), actual: Fixed::zero() }.is_valid());
}

#[test]
fn body_at_rest() {
    let body = Body::at(Vec2::from_units(3, 4));
    assert_eq!(body.position, Vec2::from_units(3, 4));
    assert_eq!(body.velocity.0, Vec2::zero());
    assert!(body.acceleration.is_none());
    assert!(body.velocity_max.is_none());
    assert!(body.drag.is_none());
    assert!(body.is_valid());
    assert_eq!(body.step(dt()), body);
}

#[test]
fn body_validity() {
    assert!(sample().is_valid());
    let mut body = sample();
    body.velocity_max = Some(VelocityMaximum(v(-1, 0)));
    assert!(!body.is_valid());
    let mut body = sample();
    body.drag = Some(Drag { recommend: Fixed::zero(), actual: Fixed::from_raw(-1) });
    assert!(!body.is_valid());
}

#[test]
fn position_moves_by_velocity_times_dt() {
    let body = sample().step_position(dt());
    assert_eq!(body.position, v(11_562_500, -21_000_000));
    assert_eq!(body.velocity, sample().velocity);
}

#[test]
fn acceleration_adds_to_the_velocity_and_caps() {
    let body = sample().step_acceleration(dt());
    assert_eq!(body.velocity.0, Vec2::from_units(105, -150));
    let mut free = sample();
    free.velocity_max = None;
    assert_eq!(free.step_acceleration(dt()).velocity.0, Vec2::from_units(110, -164));
    let mut still = sample();
    still.acceleration = None;
    assert_eq!(still.step_acceleration(dt()), still);
}

#[test]
fn one_tick_runs_drag_acceleration_integration_and_cap_in_order() {
    let body = sample().step(dt());
    assert_eq!(body.position, v(11_640_625, -22_343_750));
    assert_eq!(body.velocity.0, v(105_000_000, -150_000_000));
    let mut free = sample();
    free.velocity_max = None;
    let body = free.step(dt());
    assert_eq!(body.position, v(11_716_313, -22_560_940));
    assert_eq!(body.velocity.0, v(109_844_043, -163_900_187));
    let by_hand = free.step_drag(dt()).step_acceleration(dt()).step_position(dt()).step_cap();
    assert_eq!(by_hand, body);
    let other_order = free.step_acceleration(dt()).step_drag(dt()).step_position(dt()).step_cap();
    assert_ne!(other_order, body);
}

#[test]
fn coasting_body_keeps_its_velocity() {
    let mut body = sample();
    body.acceleration = Some(Acceleration(Vec2::zero()));
    body.drag = Some(tenth().with_thrust(true));
    body.velocity = Velocity(Vec2::from_units(100, -64));
    let mut next = body;
    for _ in 0..10 {
        next = next.step(dt());
        assert_eq!(next.velocity, body.velocity);
    }
    assert_eq!(next.position, v(25_625_000, -30_000_000));
}

#[test]
fn systems_act_on_every_body() {
    let mut plain = sample();
    plain.drag = None;
    plain.acceleration = None;
    let start = vec![sample(), plain, Body::at(Vec2::zero())];

    let mut bodies = start.clone();
    apply_velocity(&mut bodies, dt());
    let expected: Vec<Body> = start.iter().map(|b| b.step_position(dt())).collect();
    assert_eq!(bodies, expected);
    assert_eq!(bodies[1].position, v(11_562_500, -21_000_000));

    let mut bodies = start.clone();
    apply_drag(&mut bodies, dt());
    assert_eq!(bodies[0].velocity.0, v(99_844_043, -63_900_187));
    assert_eq!(bodies[1], start[1]);
    assert_eq!(bodies[2], start[2]);

    let mut bodies = start.clone();
    apply_acceleration(&mut bodies, dt());
    assert_eq!(bodies[0].velocity.0, Vec2::from_units(105, -150));
    assert_eq!(bodies[1], start[1]);
    assert_eq!(bodies[2], start[2]);

    let mut fast = sample();
    fast.velocity = Velocity(Vec2::from_units(-500, 500));
    let mut bodies = vec![fast, start[2]];
    enforce_velocity_maximum(&mut bodies);
    assert_eq!(bodies[0].velocity.0, Vec2::from_units(-105, 150));
    assert_eq!(bodies[1], start[2]);
}

#[test]
fn tick_of_all_bodies_is_the_step_of_each() {
    let mut plain = sample();
    plain.drag = None;
    plain.acceleration = None;
    let start = vec![sample(), plain, Body::at(Vec2::zero())];
    let mut bodies = start.clone();
    tick(&mut bodies, dt());
    let expected: Vec<Body> = start.iter().map(|b| b.step(dt())).collect();
    assert_eq!(bodies, expected);
    assert_eq!(bodies[0].position, v(11_640_625, -22_343_750));
    assert_eq!(bodies[1].position, v(11_562_500, -21_000_000));
    let mut none: Vec<Body> = Vec::new();
    tick(&mut none, dt());
    assert!(none.is_empty());
}

#[test]
fn all_valid_finds_an_invalid_body() {
    let mut broken = sample();
    broken.drag = Some(Drag { recommend: Fixed::from_raw(-1), actual: Fixed::zero() });
    assert!(all_valid(&vec![sample(), Body::at(Vec2::zero())]));
    assert!(all_valid(&Vec::new()));
    assert!(!all_valid(&vec![sample(), broken]));
    assert!(!all_valid(&vec![broken, sample()]));
}
