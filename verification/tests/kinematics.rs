use platformer::kinematics::{Acceleration, Position, Velocity, TICKS_PER_SECOND};
use platformer::vector::Vec2;

#[test]
fn a_tick_is_a_sixtieth_of_a_second() {
    assert_eq!(TICKS_PER_SECOND, 60);
}

#[test]
fn velocity_grows_by_a_sixtieth_of_the_acceleration() {
    let mut v = Velocity(Vec2::new(0, 0));
    v.advance(&Acceleration(Vec2::new(600, -1200)));
    assert_eq!(v, Velocity(Vec2::new(10, -20)));
    v.advance(&Acceleration(Vec2::new(600, -1200)));
    assert_eq!(v, Velocity(Vec2::new(20, -40)));
}

#[test]
fn position_grows_by_a_sixtieth_of_the_velocity() {
    let mut p = Position(Vec2::new(0, 15));
    p.advance(&Velocity(Vec2::new(120, -180)));
    assert_eq!(p, Position(Vec2::new(2, 12)));
}

#[test]
fn a_step_rounds_toward_zero() {
    let mut p = Position(Vec2::new(0, 0));
    p.advance(&Velocity(Vec2::new(119, -119)));
    assert_eq!(p, Position(Vec2::new(1, -1)));
    p.advance(&Velocity(Vec2::new(59, -59)));
    assert_eq!(p, Position(Vec2::new(1, -1)));
    let mut v = Velocity(Vec2::new(5, 5));
    v.advance(&Acceleration(Vec2::new(-61, 61)));
    assert_eq!(v, Velocity(Vec2::new(4, 6)));
}

#[test]
fn a_step_that_fits_is_told_from_one_that_does_not() {
    let top = Velocity(Vec2::new(i32::MAX, 0));
    assert!(top.advance_fits(&Acceleration(Vec2::new(59, 0))));
    assert!(!top.advance_fits(&Acceleration(Vec2::new(60, 0))));
    assert!(top.advance_fits(&Acceleration(Vec2::new(-60, 0))));
    let bottom = Position(Vec2::new(0, i32::MIN));
    assert!(bottom.advance_fits(&Velocity(Vec2::new(0, -59))));
    assert!(!bottom.advance_fits(&Velocity(Vec2::new(0, -60))));
    assert!(bottom.advance_fits(&Velocity(Vec2::new(i32::MAX, i32::MAX))));
}

#[test]
fn a_step_may_reach_the_limit() {
    let mut v = Velocity(Vec2::new(i32::MAX - 1, i32::MIN + 1));
    v.advance(&Acceleration(Vec2::new(60, -60)));
    assert_eq!(v, Velocity(Vec2::new(i32::MAX, i32::MIN)));
}
