use locomotion::jumper::{
    JumpStage, Jumper, JUMP_FORCE_DOUBLE, JUMP_FORCE_SINGLE, JUMP_FORCE_TRIPLE,
};

#[test]
fn first_landing_restarts_cadence_without_advancing() {
    let mut jumper = Jumper::default();
    // The spawn tracker has no window running, so the first landing counts
    // as a stale one: the stage resets to Single and a window starts.
    jumper.land();
    assert_eq!(jumper.stage, JumpStage::Single);
    assert_eq!(jumper.get_force(), JUMP_FORCE_SINGLE);
}

#[test]
fn landing_within_window_advances_exactly_one_level() {
    let mut jumper = Jumper::default();
    jumper.land();
    jumper.tick(50_000);
    jumper.land();
    assert_eq!(jumper.stage, JumpStage::Double);
    jumper.tick(50_000);
    jumper.land();
    assert_eq!(jumper.stage, JumpStage::Triple);
}

#[test]
fn full_cadence_escalates_then_wraps() {
    let mut jumper = Jumper::default();
    jumper.land();
    jumper.tick(100_000);
    jumper.land();
    jumper.tick(100_000);
    jumper.land();
    // A fourth jump takes off with Triple's magnitude.
    assert_eq!(jumper.get_force(), JUMP_FORCE_TRIPLE);
    // Its landing returns the cadence to Single.
    jumper.land();
    assert_eq!(jumper.stage, JumpStage::Single);
}

#[test]
fn stage_forces_are_fixed_per_stage() {
    assert_eq!(JUMP_FORCE_SINGLE, 10_000);
    assert_eq!(JUMP_FORCE_DOUBLE, 13_000);
    assert_eq!(JUMP_FORCE_TRIPLE, 18_000);
    let mut jumper = Jumper::default();
    jumper.land();
    jumper.land();
    assert_eq!(jumper.get_force(), JUMP_FORCE_DOUBLE);
}

#[test]
fn gap_longer_than_window_resets_to_single() {
    let mut jumper = Jumper::default();
    jumper.land();
    jumper.tick(50_000);
    jumper.land();
    assert_eq!(jumper.stage, JumpStage::Double);
    // 200_000 microseconds of grounded time lapse the 166_000 window.
    jumper.tick(200_000);
    assert_eq!(jumper.stage, JumpStage::Single);
    // A landing after the lapse does not advance that same landing.
    jumper.land();
    assert_eq!(jumper.stage, JumpStage::Single);
}

#[test]
fn window_lapses_exactly_at_its_duration() {
    let mut jumper = Jumper::default();
    jumper.land();
    jumper.tick(50_000);
    jumper.land();
    jumper.tick(165_999);
    assert_eq!(jumper.stage, JumpStage::Double);
    jumper.tick(1);
    assert_eq!(jumper.stage, JumpStage::Single);
}
