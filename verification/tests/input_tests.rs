use space_chase::fixed::Fixed;
use space_chase::input::player_input;
use space_chase::input::Command;
use space_chase::input::Controls;
use space_chase::input::DirectionalInput;
use space_chase::integrator::Acceleration;
use space_chase::integrator::Body;
use space_chase::integrator::Drag;
use space_chase::integrator::Velocity;
use space_chase::vec2::Vec2;

fn controls() -> Controls {
    Controls {
        sensitivity: Fixed::from_units(1_000_000),
        reverse_boost: Fixed::from_units(3),
        reverse_threshold: Fixed::from_units(50),
    }
}

fn held(up: bool, right: bool, down: bool, left: bool) -> DirectionalInput {
    DirectionalInput { up, right, down, left }
}

fn moving(x: i64, y: i64) -> Velocity {
    Velocity(Vec2::from_units(x, y))
}

#[test]
fn thrust_up_against_a_fast_fall_is_boosted() {
    let command = controls().command(held(true, false, false, false), moving(0, -60));
    assert_eq!(command.force, Vec2::from_units(0, 3_000_000));
    assert!(command.thrusting);
}

#[test]
fn thrust_up_while_rising_is_not_boosted() {
    let command = controls().command(held(true, false, false, false), moving(0, 10));
    assert_eq!(command.force, Vec2::from_units(0, 1_000_000));
    assert!(command.thrusting);
}

#[test]
fn boost_starts_beyond_the_threshold() {
    let c = controls();
    let up = held(true, false, false, false);
    assert_eq!(c.command(up, moving(0, -50)).force, Vec2::from_units(0, 1_000_000));
    let just = Velocity(Vec2::new(Fixed::zero(), Fixed::from_raw(-50_000_001)));
    assert_eq!(c.command(up, just).force, Vec2::from_units(0, 3_000_000));
    let down = held(false, false, true, false);
    assert_eq!(c.command(down, moving(0, 50)).force, Vec2::from_units(0, -1_000_000));
    let just = Velocity(Vec2::new(Fixed::zero(), Fixed::from_raw(50_000_001)));
    assert_eq!(c.command(down, just).force, Vec2::from_units(0, -3_000_000));
}

#[test]
fn each_direction_thrusts_along_its_axis() {
    let c = controls();
    let rest = moving(0, 0);
    assert_eq!(c.command(held(false, true, false, false), rest).force, Vec2::from_units(1_000_000, 0));
    assert_eq!(c.command(held(false, false, false, true), rest).force, Vec2::from_units(-1_000_000, 0));
    assert_eq!(c.command(held(false, false, true, false), rest).force, Vec2::from_units(0, -1_000_000));
    assert_eq!(
        c.command(held(true, true, false, false), moving(-60, -60)).force,
        Vec2::from_units(3_000_000, 3_000_000)
    );
    assert_eq!(
        c.command(held(false, false, true, true), moving(60, 60)).force,
        Vec2::from_units(-3_000_000, -3_000_000)
    );
    assert_eq!(
        c.command(held(false, false, true, true), moving(-60, -60)).force,
        Vec2::from_units(-1_000_000, -1_000_000)
    );
}

#[test]
fn down_and_left_win_over_up_and_right() {
    let c = controls();
    assert_eq!(
        c.command(held(true, true, true, true), moving(0, 0)).force,
        Vec2::from_units(-1_000_000, -1_000_000)
    );
    assert_eq!(
        c.command(held(true, false, true, false), moving(0, -60)).force,
        Vec2::from_units(0, -1_000_000)
    );
}

#[test]
fn no_input_gives_no_thrust() {
    let command = controls().command(DirectionalInput::none(), moving(500, -500));
    assert_eq!(command, Command { force: Vec2::zero(), thrusting: false });
    assert!(!DirectionalInput::none().any());
    assert!(held(false, false, false, true).any());
    assert!(held(false, false, true, false).any());
    assert!(held(false, true, false, false).any());
    assert!(held(true, false, false, false).any());
}

#[test]
fn input_sets_acceleration_and_switches_drag() {
    let drag = Drag { recommend: Fixed::from_raw(100_000), actual: Fixed::from_raw(100_000) };
    let mut body = Body::at(Vec2::zero());
    body.drag = Some(drag);
    body.velocity = moving(0, -60);
    player_input(&mut body, held(true, false, false, false), &controls());
    assert_eq!(body.acceleration, Some(Acceleration(Vec2::from_units(0, 3_000_000))));
    assert_eq!(body.drag, Some(Drag { recommend: Fixed::from_raw(100_000), actual: Fixed::zero() }));
    assert_eq!(body.velocity, moving(0, -60));
    player_input(&mut body, DirectionalInput::none(), &controls());
    assert_eq!(body.acceleration, Some(Acceleration(Vec2::zero())));
    assert_eq!(body.drag, Some(drag));
    let mut bare = Body::at(Vec2::zero());
    player_input(&mut bare, held(false, true, false, false), &controls());
    assert_eq!(bare.acceleration, Some(Acceleration(Vec2::from_units(1_000_000, 0))));
    assert!(bare.drag.is_none());
}
