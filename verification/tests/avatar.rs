use locomotion::force::ForceDecayType;
use locomotion::jumper::JumpStage;
use locomotion::motion::Gravity;
use locomotion::pipeline::{Avatar, TickInput};
use locomotion::sensor::GroundedState;
use locomotion::vec3::Vec3;

const TICK_US: u64 = 16_667;

fn vec(x: i64, y: i64, z: i64) -> Vec3 {
    Vec3 { x, y, z }
}

fn base_input() -> TickInput {
    TickInput {
        delta_us: TICK_US,
        jump_pressed: false,
        jump_released: false,
        move_pressed: false,
        move_released: false,
        crouch_pressed: false,
        crouch_released: false,
        key_left: false,
        key_right: false,
        key_forward: false,
        key_back: false,
        forward_basis: vec(0, 0, 1000),
        right_basis: vec(1000, 0, 0),
        facing: vec(0, 0, 1000),
        probe_hit: true,
        probe_angle_mdeg: None,
    }
}

fn airborne_input() -> TickInput {
    let mut inp = base_input();
    inp.probe_hit = false;
    inp
}

fn jump_input() -> TickInput {
    let mut inp = base_input();
    inp.jump_pressed = true;
    inp
}

fn run_input() -> TickInput {
    let mut inp = base_input();
    inp.key_forward = true;
    inp.move_pressed = true;
    inp
}

/// Ticks until vertical momentum is no longer positive, with no ground.
fn fall(avatar: &mut Avatar, gravity: &Gravity) {
    let mut guard: u32 = 0;
    while avatar.momentum.y() > 0 {
        avatar.tick(&airborne_input(), gravity);
        guard += 1;
        assert!(guard < 2000, "avatar never started falling");
    }
}

#[test]
fn gravity_accumulates_linearly_while_airborne() {
    let gravity = Gravity::new(20);
    let mut avatar = Avatar::default();
    // One tick with no probe contact leaves the ground.
    avatar.tick(&airborne_input(), &gravity);
    assert_eq!(avatar.sensor.state, GroundedState::Airborne);
    // Five airborne ticks accumulate -20 each: pure accumulation, no cap.
    for _ in 0..5 {
        avatar.tick(&airborne_input(), &gravity);
    }
    let entry = avatar.forces.gravity.expect("gravity force present");
    assert_eq!(entry.force.applied_force, vec(0, -100, 0));
    assert_eq!(avatar.momentum.y(), -100);
}

#[test]
fn gravity_removed_once_grounded() {
    let gravity = Gravity::new(20);
    let mut avatar = Avatar::default();
    for _ in 0..4 {
        avatar.tick(&airborne_input(), &gravity);
    }
    assert!(avatar.forces.gravity.is_some());
    // Momentum is falling, so probe contact grounds the avatar; the next
    // grounded tick removes the gravity entry entirely.
    avatar.tick(&base_input(), &gravity);
    assert_eq!(avatar.sensor.state, GroundedState::Grounded);
    avatar.tick(&base_input(), &gravity);
    assert!(avatar.forces.gravity.is_none());
}

#[test]
fn jump_press_inserts_stage_force_with_manual_timer() {
    let gravity = Gravity::new(20);
    let mut avatar = Avatar::default();
    avatar.tick(&jump_input(), &gravity);
    let entry = avatar.forces.jump.expect("jump force present");
    assert_eq!(entry.force.applied_force, vec(0, 10_000, 0));
    assert_eq!(entry.force.decay_type, ForceDecayType::Manual);
    let timer = entry.force.expiration_timer.expect("jump force expires");
    assert_eq!(timer.duration_us, 150_000);
    assert_eq!(timer.elapsed_us, TICK_US);
    assert_eq!(avatar.momentum.get(), vec(0, 10_000, 0));
}

#[test]
fn ascending_avatar_is_never_grounded_even_on_probe_hit() {
    let gravity = Gravity::new(20);
    let mut avatar = Avatar::default();
    avatar.tick(&jump_input(), &gravity);
    assert_eq!(avatar.momentum.y(), 10_000);
    // The probe still intersects the floor at launch, but vertical
    // momentum is strictly positive: the sensor must read Airborne.
    avatar.tick(&base_input(), &gravity);
    assert_eq!(avatar.sensor.state, GroundedState::Airborne);
}

#[test]
fn run_force_is_speed_times_facing() {
    let gravity = Gravity::new(20);
    let mut avatar = Avatar::default();
    avatar.tick(&run_input(), &gravity);
    let entry = avatar.forces.run.expect("run force present");
    // Base speed 4000 thousandths along the unit facing vector.
    assert_eq!(entry.force.applied_force, vec(0, 0, 4_000));
    assert_eq!(avatar.momentum.get(), vec(0, 0, 4_000));
    assert_eq!(avatar.direction.0, vec(0, 0, 1000));
}

#[test]
fn inactive_direction_converts_run_to_skid() {
    let gravity = Gravity::new(20);
    let mut avatar = Avatar::default();
    avatar.tick(&run_input(), &gravity);
    // Input stops: the run force becomes a short automatic skid at 33%.
    avatar.tick(&base_input(), &gravity);
    assert!(avatar.forces.run.is_none());
    let entry = avatar.forces.skid.expect("skid force present");
    assert_eq!(entry.force.applied_force, vec(0, 0, 1_320));
    assert_eq!(entry.force.decay_type, ForceDecayType::Automatic);
    assert_eq!(entry.force.expiration_timer.expect("skid expires").duration_us, 250_000);
    // The skid decays away on its own within its quarter second.
    for _ in 0..15 {
        avatar.tick(&base_input(), &gravity);
    }
    assert!(avatar.forces.skid.is_none());
}

#[test]
fn crouch_converts_run_into_doubled_slide() {
    let gravity = Gravity::new(20);
    let mut avatar = Avatar::default();
    avatar.tick(&run_input(), &gravity);
    let mut inp = run_input();
    inp.crouch_pressed = true;
    avatar.tick(&inp, &gravity);
    assert!(avatar.sliding);
    let entry = avatar.forces.slide.expect("slide force present");
    assert_eq!(entry.force.applied_force, vec(0, 0, 8_000));
    assert_eq!(entry.force.decay_type, ForceDecayType::Manual);
    assert!(entry.force.expiration_timer.is_none());
}

#[test]
fn steep_surface_maintains_slope_stick_force() {
    let gravity = Gravity::new(20);
    let mut avatar = Avatar::default();
    let mut inp = base_input();
    inp.probe_angle_mdeg = Some(10_000);
    avatar.tick(&inp, &gravity);
    assert_eq!(avatar.sensor.surface_angle_mdeg, 10_000);
    let entry = avatar.forces.slope.expect("slope force present");
    // Ten degrees squared: one hundred units downward.
    assert_eq!(entry.force.applied_force, vec(0, -100_000, 0));
    // Leaving the ground removes the slope force at once.
    avatar.tick(&airborne_input(), &gravity);
    assert!(avatar.forces.slope.is_none());
}

#[test]
fn shallow_surface_gets_no_slope_force() {
    let gravity = Gravity::new(20);
    let mut avatar = Avatar::default();
    let mut inp = base_input();
    inp.probe_angle_mdeg = Some(4_000);
    avatar.tick(&inp, &gravity);
    assert!(avatar.forces.slope.is_none());
}

#[test]
fn released_jump_is_scheduled_then_swept_when_its_timer_ends() {
    let gravity = Gravity::new(20);
    let mut avatar = Avatar::default();
    avatar.tick(&jump_input(), &gravity);
    let mut release = airborne_input();
    release.jump_released = true;
    avatar.tick(&release, &gravity);
    for _ in 0..4 {
        avatar.tick(&airborne_input(), &gravity);
    }
    // The buffering window has now lapsed, so the release is complete;
    // removal is requested, but the force's own countdown (150 ms) has
    // not finished: the entry is only marked.
    avatar.tick(&airborne_input(), &gravity);
    let entry = avatar.forces.jump.expect("jump force still present");
    assert!(entry.scheduled_to_remove);
    // Three more ticks pass the 150 ms mark (the still-buffered press
    // refreshed the force's countdown on the second grounded tick): the
    // entry leaves exactly then.
    avatar.tick(&airborne_input(), &gravity);
    avatar.tick(&airborne_input(), &gravity);
    assert!(avatar.forces.jump.is_some());
    avatar.tick(&airborne_input(), &gravity);
    assert!(avatar.forces.jump.is_none());
}

#[test]
fn landing_cadence_escalates_across_jumps() {
    let gravity = Gravity::new(20);
    let mut avatar = Avatar::default();
    // First jump, fall, land: the landing restarts the cadence.
    avatar.tick(&jump_input(), &gravity);
    fall(&mut avatar, &gravity);
    avatar.tick(&base_input(), &gravity);
    assert_eq!(avatar.sensor.state, GroundedState::Grounded);
    assert_eq!(avatar.jumper.stage, JumpStage::Single);
    assert!(avatar.forces.jump.is_none());
    // Second jump right away: little grounded time has passed, so the
    // landing window is still open and the landing escalates.
    avatar.tick(&jump_input(), &gravity);
    fall(&mut avatar, &gravity);
    avatar.tick(&base_input(), &gravity);
    assert_eq!(avatar.jumper.stage, JumpStage::Double);
}

#[test]
fn opposite_keys_cancel_to_zero_direction() {
    let gravity = Gravity::new(20);
    let mut avatar = Avatar::default();
    let mut inp = base_input();
    inp.key_left = true;
    inp.key_right = true;
    inp.key_forward = true;
    inp.key_back = true;
    avatar.tick(&inp, &gravity);
    assert_eq!(avatar.direction.0, vec(0, 0, 0));
}

#[test]
fn single_key_follows_camera_basis() {
    let gravity = Gravity::new(20);
    let mut avatar = Avatar::default();
    let mut inp = base_input();
    inp.key_left = true;
    avatar.tick(&inp, &gravity);
    assert_eq!(avatar.direction.0, vec(-1000, 0, 0));
}

#[test]
fn displacement_request_equals_momentum() {
    let gravity = Gravity::new(20);
    let mut avatar = Avatar::default();
    let request = avatar.tick(&run_input(), &gravity);
    assert_eq!(request, avatar.momentum.get());
}
