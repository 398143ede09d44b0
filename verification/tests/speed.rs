use locomotion::speed::{Speed, SPEED_BASE, SPEED_MAX};

#[test]
fn ramp_waits_for_its_step_countdown() {
    let mut speed = Speed::default();
    // 17 ticks at 60 per second total 283_339 of the 300_000 step countdown.
    for _ in 0..17 {
        speed.accelerate(16_667);
    }
    assert_eq!(speed.current(), SPEED_BASE);
    // The 18th tick finishes the step countdown and takes the first ramp step:
    // (20000 - 4000) * 2500 * 16667 / 1e9 = 666 thousandths.
    speed.accelerate(16_667);
    assert_eq!(speed.current(), SPEED_BASE + 666);
}

#[test]
fn ramp_step_formula_is_exact() {
    let mut speed = Speed::default();
    // One tick as long as the whole step countdown: the step is
    // (20000 - 4000) * 2500 * 300000 / 1e9 = 12000 thousandths.
    speed.accelerate(300_000);
    assert_eq!(speed.current(), 16_000);
}

#[test]
fn ramp_never_passes_max() {
    let mut speed = Speed::default();
    for _ in 0..200 {
        speed.accelerate(1_000_000);
    }
    assert_eq!(speed.current(), SPEED_MAX);
}

#[test]
fn idle_grace_of_six_ticks_resets_to_base() {
    let mut speed = Speed::default();
    speed.accelerate(300_000);
    assert_eq!(speed.current(), 16_000);
    // Five idle ticks total 83_335 of the 100_000 grace: no reset yet.
    for _ in 0..5 {
        speed.tick_reset_timer(16_667);
    }
    assert!(!speed.should_reset());
    // The sixth tick passes the grace; the speed snaps exactly to base.
    speed.tick_reset_timer(16_667);
    assert!(speed.should_reset());
    speed.reset();
    assert_eq!(speed.current(), SPEED_BASE);
}

#[test]
fn active_input_restarts_the_grace() {
    let mut speed = Speed::default();
    for _ in 0..5 {
        speed.tick_reset_timer(16_667);
    }
    speed.reset_reset_timer();
    for _ in 0..5 {
        speed.tick_reset_timer(16_667);
    }
    assert!(!speed.should_reset());
}

#[test]
fn reset_restarts_the_acceleration_countdown() {
    let mut speed = Speed::default();
    speed.accelerate(300_000);
    speed.reset();
    // The step countdown must run in full again before the next step.
    speed.accelerate(16_667);
    assert_eq!(speed.current(), SPEED_BASE);
}
