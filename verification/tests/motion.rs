use locomotion::countdown::Countdown;
use locomotion::motion::{Gravity, Momentum, MoveDirection};
use locomotion::vec3::Vec3;

fn vec(x: i64, y: i64, z: i64) -> Vec3 {
    Vec3 { x, y, z }
}

#[test]
fn gravity_points_straight_down() {
    let gravity = Gravity::new(400);
    assert_eq!(gravity.force(), vec(0, -400, 0));
}

#[test]
fn momentum_accessors_and_mutators() {
    let mut momentum = Momentum::default();
    assert!(!momentum.is_any());
    momentum.set(vec(3, -4, 5));
    assert_eq!(momentum.get(), vec(3, -4, 5));
    assert_eq!(momentum.get_flat(), vec(3, 0, 5));
    assert_eq!(momentum.y(), -4);
    momentum.add(vec(1, 1, 1));
    assert_eq!(momentum.get(), vec(4, -3, 6));
    momentum.clear_vertical();
    assert_eq!(momentum.get(), vec(4, 0, 6));
    momentum.clear_horizontal();
    assert_eq!(momentum.get(), vec(0, 0, 0));
    momentum.set(vec(7, 7, 7));
    momentum.reset();
    assert!(!momentum.is_any());
}

#[test]
fn momentum_activity_threshold_is_300_thousandths() {
    let mut momentum = Momentum::default();
    momentum.set(vec(300, 0, 0));
    assert!(momentum.is_active());
    momentum.set(vec(299, 0, 0));
    assert!(!momentum.is_active());
}

#[test]
fn momentum_decay_moves_toward_zero() {
    let mut momentum = Momentum::default();
    momentum.set(vec(1000, -1000, 400));
    momentum.decay(250);
    assert_eq!(momentum.get(), vec(750, -750, 300));
    momentum.decay(1000);
    assert_eq!(momentum.get(), vec(0, 0, 0));
}

#[test]
fn direction_activity_threshold() {
    let mut direction = MoveDirection::default();
    assert!(!direction.is_any());
    direction.set(vec(0, 0, 1000));
    assert!(direction.is_any());
    assert!(direction.is_active());
    direction.set(vec(100, 0, 100));
    assert!(!direction.is_active());
    direction.reset();
    assert_eq!(direction.get(), vec(0, 0, 0));
}

#[test]
fn countdown_saturates_at_its_duration() {
    let mut countdown = Countdown::from_micros(100);
    assert!(!countdown.finished());
    countdown.tick(60);
    assert_eq!(countdown.remaining_micros(), 40);
    countdown.tick(u64::MAX);
    assert!(countdown.finished());
    assert_eq!(countdown.elapsed_us, 100);
    countdown.reset();
    assert!(!countdown.finished());
    assert_eq!(countdown.remaining_micros(), 100);
}

#[test]
fn zero_duration_countdown_is_born_finished() {
    let countdown = Countdown::default();
    assert!(countdown.finished());
}

#[test]
fn vector_scaling_rounds_toward_zero() {
    let v = vec(-5, 5, 0);
    assert_eq!(v.scaled(1, 2), vec(-2, 2, 0));
    let w = vec(1000, -1000, 250);
    assert_eq!(w.scaled(330, 1000), vec(330, -330, 82));
}

#[test]
fn vector_sum_and_flat() {
    let a = vec(1, 2, 3);
    let b = vec(-4, 5, -6);
    assert_eq!(a.add(b), vec(-3, 7, -3));
    assert_eq!(a.flat(), vec(1, 0, 3));
    assert!(a.is_any());
    assert!(!vec(0, 0, 0).is_any());
}
