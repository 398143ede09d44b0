//! The per-tick locomotion pipeline.
//!
//! Each rule is a function from the avatar's components and the tick's
//! inputs to their next state, with its exact transition stated as a spec
//! function; [`Avatar::tick`] runs the rules in their fixed order and is
//! proved equal to the composition of the transitions.
//!
//! The collision resolver, camera and key mapping stay outside: the caller
//! supplies the probe result (hit flag and surface angle), the
//! camera-projected basis vectors, the avatar's facing vector and the
//! logical action edges, and receives the displacement request back.

use crate::force::Force;
use crate::force::ForceDecayType;
use crate::force::ForceId;
use crate::input::InputBuffer;
use crate::input::PlayerAction;
use crate::input::action_press;
use crate::input::action_release;
use crate::jumper::Jumper;
use crate::jumper::jumper_tick;
use crate::jumper::jumper_land;
use crate::jumper::spec_stage_force;
use crate::ledger::Entry;
use crate::ledger::Forces;
use crate::motion::Gravity;
use crate::motion::Momentum;
use crate::motion::MoveDirection;
use crate::motion::vec_active;
use crate::countdown::Countdown;
use crate::sensor::GroundSensor;
use crate::sensor::GroundedState;
use crate::sensor::MAX_SURFACE_ANGLE_MDEG;
use crate::speed::Speed;
use crate::speed::IDLE_RESET_US;
use crate::speed::speed_accelerate;
use crate::vec3::COMPONENT_CAP;
use crate::vec3::Vec3;
use crate::vec3::lemma_mul_bounds;
use crate::vec3::lemma_scale_trunc_bound;
use crate::vec3::scale_trunc;
use vstd::prelude::*;

verus! {

/// Drift accumulation rate: thousandths of the direction vector per second
/// airborne.
pub const DRIFT_SCALE_MILLI: i64 = 250;

/// What fraction (in thousandths) of a run force survives as skid.
pub const SKID_FACTOR_MILLI: i64 = 330;

/// How long a skid force lives, in microseconds.
pub const SKID_LIFETIME_US: u64 = 250_000;

/// How long a jump force lives, in microseconds.
pub const JUMP_LIFETIME_US: u64 = 150_000;

/// Surface angle above which the slope-stick force is maintained, in
/// thousandths of a degree.
pub const SLOPE_MIN_MDEG: i64 = 5_000;

/// Largest magnitude of a basis or facing vector component the pipeline
/// accepts, in thousandths of a unit.
pub const BASIS_CAP: i64 = 1_000_000;

/// Everything one fixed tick consumes from outside the core: the tick
/// length, the logical action edges, the pressed state of the four
/// direction keys, the camera-projected basis vectors, the avatar's facing
/// vector, and last tick's probe result.
#[derive(Clone, Copy, PartialEq, Eq, Structural, Debug)]
pub struct TickInput {
    /// Fixed tick length, in microseconds.
    pub delta_us: u64,
    /// The jump action was pressed this tick.
    pub jump_pressed: bool,
    /// The jump action was released this tick.
    pub jump_released: bool,
    /// The move action was pressed this tick.
    pub move_pressed: bool,
    /// The move action was released this tick.
    pub move_released: bool,
    /// The crouch action was pressed this tick.
    pub crouch_pressed: bool,
    /// The crouch action was released this tick.
    pub crouch_released: bool,
    /// The left direction key is held.
    pub key_left: bool,
    /// The right direction key is held.
    pub key_right: bool,
    /// The forward direction key is held.
    pub key_forward: bool,
    /// The back direction key is held.
    pub key_back: bool,
    /// Camera forward, flattened and renormalized, in thousandths.
    pub forward_basis: Vec3,
    /// Camera right, flattened and renormalized, in thousandths.
    pub right_basis: Vec3,
    /// The avatar's facing vector, in thousandths.
    pub facing: Vec3,
    /// The proximity probe found geometry within its short range.
    pub probe_hit: bool,
    /// The contact-surface angle the probe reported, if any, in
    /// thousandths of a degree.
    pub probe_angle_mdeg: Option<i64>,
}

/// The input buffer after one tick: the buffering windows advance first, so
/// that the fresh edges recorded afterwards reflect this tick.
#[verifier::opaque]
pub open spec fn read_inputs_spec(b: InputBuffer, inp: TickInput) -> InputBuffer {
    let b0 = b.tick_spec(inp.delta_us);
    let b1 = if inp.jump_pressed {
        b0.with_state(PlayerAction::Jump, action_press(b0.jump))
    } else {
        b0
    };
    let b2 = if inp.jump_released {
        b1.with_state(PlayerAction::Jump, action_release(b1.jump))
    } else {
        b1
    };
    let b3 = if inp.move_pressed {
        b2.with_state(PlayerAction::Move, action_press(b2.movement))
    } else {
        b2
    };
    let b4 = if inp.move_released {
        b3.with_state(PlayerAction::Move, action_release(b3.movement))
    } else {
        b3
    };
    let b5 = if inp.crouch_pressed {
        b4.with_state(PlayerAction::Crouch, action_press(b4.crouch))
    } else {
        b4
    };
    if inp.crouch_released {
        b5.with_state(PlayerAction::Crouch, action_release(b5.crouch))
    } else {
        b5
    }
}

/// Advances the input buffer and records this tick's action edges.
pub fn read_inputs(buffer: &mut InputBuffer, inp: &TickInput)
    requires
        old(buffer).wf(),
    ensures
        *final(buffer) == read_inputs_spec(*old(buffer), *inp),
        final(buffer).wf(),
{
    proof {
        reveal(read_inputs_spec);
    }
    buffer.tick(inp.delta_us);
    if inp.jump_pressed {
        buffer.press(PlayerAction::Jump);
    }
    if inp.jump_released {
        buffer.release(PlayerAction::Jump);
    }
    if inp.move_pressed {
        buffer.press(PlayerAction::Move);
    }
    if inp.move_released {
        buffer.release(PlayerAction::Move);
    }
    if inp.crouch_pressed {
        buffer.press(PlayerAction::Crouch);
    }
    if inp.crouch_released {
        buffer.release(PlayerAction::Crouch);
    }
}

/// `v` weighted by the axis of two opposing keys: `v` itself for the
/// positive key alone, its negation for the negative key alone, and zero
/// when the keys cancel or neither is held.
pub open spec fn axis_scaled(v: Vec3, pos: bool, neg: bool) -> Vec3 {
    if pos == neg {
        Vec3 { x: 0, y: 0, z: 0 }
    } else if pos {
        v
    } else {
        Vec3 { x: (0 - v.x) as i64, y: (0 - v.y) as i64, z: (0 - v.z) as i64 }
    }
}

/// The camera-relative movement direction: the right basis weighted by the
/// left/right keys plus the forward basis weighted by the forward/back
/// keys.  Opposite keys cancel to a smaller or zero vector, never a fault.
pub open spec fn camera_dir_spec(inp: TickInput) -> Vec3 {
    crate::vec3::vec_add(
        axis_scaled(inp.right_basis, inp.key_right, inp.key_left),
        axis_scaled(inp.forward_basis, inp.key_forward, inp.key_back),
    )
}

/// `v` weighted by an axis of two opposing keys.
fn scale_by_axis(v: Vec3, pos: bool, neg: bool) -> (r: Vec3)
    requires
        v.bounded(BASIS_CAP as int),
    ensures
        r == axis_scaled(v, pos, neg),
        r.bounded(BASIS_CAP as int),
{
    if pos == neg {
        Vec3 { x: 0, y: 0, z: 0 }
    } else if pos {
        v
    } else {
        Vec3 { x: -v.x, y: -v.y, z: -v.z }
    }
}

/// Resolves the desired movement direction from the four direction keys
/// and the camera-projected basis vectors.
pub fn get_direction_in_camera_space(inp: &TickInput) -> (r: Vec3)
    requires
        inp.forward_basis.bounded(BASIS_CAP as int),
        inp.right_basis.bounded(BASIS_CAP as int),
    ensures
        r == camera_dir_spec(*inp),
        r.bounded(2 * BASIS_CAP),
{
    let right_vec = scale_by_axis(inp.right_basis, inp.key_right, inp.key_left);
    let forward_vec = scale_by_axis(inp.forward_basis, inp.key_forward, inp.key_back);
    right_vec.add(forward_vec)
}

/// The ledger and sliding flag after the crouch rule: a fresh crouch press
/// while grounded with a run force converts the run into a doubled,
/// non-expiring `Manual` slide force and marks the avatar as sliding.
#[verifier::opaque]
pub open spec fn enter_sliding_spec(
    forces: Forces,
    buffer: InputBuffer,
    sensor: GroundSensor,
    sliding: bool,
) -> (Forces, bool) {
    if buffer.crouch.spec_just_pressed() && !sliding && forces.run is Some && sensor.state
        is Grounded {
        let run_vec = forces.run->Some_0.force.applied_force;
        let doubled = Vec3 {
            x: scale_trunc(run_vec.x as int, 2, 1) as i64,
            y: scale_trunc(run_vec.y as int, 2, 1) as i64,
            z: scale_trunc(run_vec.z as int, 2, 1) as i64,
        };
        let converted = forces.remove_spec(ForceId::Run).with_entry(
            ForceId::Slide,
            Some(
                Entry {
                    force: Force {
                        applied_force: doubled,
                        expiration_timer: None,
                        decay_type: ForceDecayType::Manual,
                    },
                    scheduled_to_remove: false,
                },
            ),
        );
        (converted, true)
    } else {
        (forces, sliding)
    }
}

/// Runs the crouch/slide conversion rule.
pub fn enter_sliding(
    forces: &mut Forces,
    buffer: &InputBuffer,
    sensor: &GroundSensor,
    sliding: &mut bool,
)
    requires
        old(forces).wf(),
        old(forces).run matches Some(e) ==> e.force.applied_force.bounded(
            (COMPONENT_CAP / 2) as int,
        ),
    ensures
        (*final(forces), *final(sliding)) == enter_sliding_spec(
            *old(forces),
            *buffer,
            *sensor,
            *old(sliding),
        ),
        final(forces).wf(),
        final(forces).drift == old(forces).drift,
        final(forces).gravity == old(forces).gravity,
{
    proof {
        reveal(enter_sliding_spec);
    }
    if buffer.just_pressed(PlayerAction::Crouch) && !*sliding && forces.has_key(ForceId::Run)
        && sensor.grounded() {
        let run_vector = forces.get_vector(ForceId::Run);
        if let Some(vector) = run_vector {
            forces.remove(ForceId::Run);
            *sliding = true;
            proof {
                lemma_mul_bounds(vector.x as int, 2, (COMPONENT_CAP / 2) as int, 2);
                lemma_mul_bounds(vector.y as int, 2, (COMPONENT_CAP / 2) as int, 2);
                lemma_mul_bounds(vector.z as int, 2, (COMPONENT_CAP / 2) as int, 2);
            }
            let doubled = vector.scaled(2, 1);
            proof {
                lemma_scale_trunc_bound(vector.x as int, 2, 1, (COMPONENT_CAP / 2) as int);
                lemma_scale_trunc_bound(vector.y as int, 2, 1, (COMPONENT_CAP / 2) as int);
                lemma_scale_trunc_bound(vector.z as int, 2, 1, (COMPONENT_CAP / 2) as int);
            }
            forces.add(
                ForceId::Slide,
                Force::new(doubled, None, ForceDecayType::Manual),
            );
        }
    }
}

/// The ledger and speed after the run rule, while grounded: with active
/// direction input the ramp accelerates, the run force is overwritten with
/// the facing vector scaled by the new speed, and the idle grace period
/// restarts; with inactive input an existing run force is converted to a
/// short-lived automatic skid force at a fraction of its strength, and the
/// idle countdown advances, resetting the ramp when it lapses.  Airborne,
/// nothing changes.
#[verifier::opaque]
pub open spec fn handle_speed_spec(
    forces: Forces,
    speed: Speed,
    direction: MoveDirection,
    sensor: GroundSensor,
    facing: Vec3,
    delta_us: u64,
) -> (Forces, Speed) {
    if sensor.state is Grounded {
        if vec_active(direction.0) {
            let s1 = speed_accelerate(speed, delta_us);
            let run_force = Vec3 {
                x: scale_trunc(facing.x as int, s1.current as int, 1000) as i64,
                y: scale_trunc(facing.y as int, s1.current as int, 1000) as i64,
                z: scale_trunc(facing.z as int, s1.current as int, 1000) as i64,
            };
            let f1 = forces.with_entry(
                ForceId::Run,
                Some(
                    Entry {
                        force: Force {
                            applied_force: run_force,
                            expiration_timer: None,
                            decay_type: ForceDecayType::Manual,
                        },
                        scheduled_to_remove: false,
                    },
                ),
            );
            let s2 = Speed {
                reset_timer: Countdown { elapsed_us: 0, duration_us: IDLE_RESET_US },
                ..s1
            };
            (f1, s2)
        } else {
            let f1 = match forces.run {
                Some(e) => {
                    let skid = Vec3 {
                        x: scale_trunc(
                            e.force.applied_force.x as int,
                            SKID_FACTOR_MILLI as int,
                            1000,
                        ) as i64,
                        y: scale_trunc(
                            e.force.applied_force.y as int,
                            SKID_FACTOR_MILLI as int,
                            1000,
                        ) as i64,
                        z: scale_trunc(
                            e.force.applied_force.z as int,
                            SKID_FACTOR_MILLI as int,
                            1000,
                        ) as i64,
                    };
                    forces.remove_spec(ForceId::Run).with_entry(
                        ForceId::Skid,
                        Some(
                            Entry {
                                force: Force {
                                    applied_force: skid,
                                    expiration_timer: Some(
                                        Countdown { elapsed_us: 0, duration_us: SKID_LIFETIME_US },
                                    ),
                                    decay_type: ForceDecayType::Automatic,
                                },
                                scheduled_to_remove: false,
                            },
                        ),
                    )
                },
                None => forces,
            };
            let s1 = Speed {
                reset_timer: crate::countdown::countdown_tick(speed.reset_timer, delta_us),
                ..speed
            };
            let s2 = if s1.reset_timer.spec_finished() {
                Speed {
                    current: s1.base,
                    max: s1.base_max,
                    accel_timer: Countdown { elapsed_us: 0, duration_us: s1.accel_timer.duration_us },
                    ..s1
                }
            } else {
                s1
            };
            (f1, s2)
        }
    } else {
        (forces, speed)
    }
}

/// Runs the grounded run/skid rule.
pub fn handle_speed(
    forces: &mut Forces,
    speed: &mut Speed,
    direction: &MoveDirection,
    sensor: &GroundSensor,
    facing: Vec3,
    delta_us: u64,
)
    requires
        old(forces).wf(),
        old(speed).wf(),
        direction.wf(),
        facing.bounded(BASIS_CAP as int),
        delta_us <= 1_000_000,
    ensures
        (*final(forces), *final(speed)) == handle_speed_spec(
            *old(forces),
            *old(speed),
            *direction,
            *sensor,
            facing,
            delta_us,
        ),
        final(forces).wf(),
        final(speed).wf(),
        final(forces).drift == old(forces).drift,
        final(forces).gravity == old(forces).gravity,
{
    proof {
        reveal(handle_speed_spec);
    }
    if sensor.grounded() {
        if direction.is_active() {
            speed.accelerate(delta_us);
            let current: i64 = speed.current();
            proof {
                lemma_mul_bounds(facing.x as int, current as int, BASIS_CAP as int, 1_000_000);
                lemma_mul_bounds(facing.y as int, current as int, BASIS_CAP as int, 1_000_000);
                lemma_mul_bounds(facing.z as int, current as int, BASIS_CAP as int, 1_000_000);
            }
            let movement_force = facing.scaled(current, 1000);
            proof {
                lemma_scale_trunc_bound(facing.x as int, current as int, 1000, BASIS_CAP as int);
                lemma_scale_trunc_bound(facing.y as int, current as int, 1000, BASIS_CAP as int);
                lemma_scale_trunc_bound(facing.z as int, current as int, 1000, BASIS_CAP as int);
            }
            forces.add(
                ForceId::Run,
                Force::new(movement_force, None, ForceDecayType::Manual),
            );
            speed.reset_reset_timer();
        } else {
            let run_vector = forces.get_vector(ForceId::Run);
            if let Some(run_vec) = run_vector {
                forces.remove(ForceId::Run);
                proof {
                    lemma_mul_bounds(
                        run_vec.x as int,
                        SKID_FACTOR_MILLI as int,
                        COMPONENT_CAP as int,
                        1000,
                    );
                    lemma_mul_bounds(
                        run_vec.y as int,
                        SKID_FACTOR_MILLI as int,
                        COMPONENT_CAP as int,
                        1000,
                    );
                    lemma_mul_bounds(
                        run_vec.z as int,
                        SKID_FACTOR_MILLI as int,
                        COMPONENT_CAP as int,
                        1000,
                    );
                }
                let skid = run_vec.scaled(SKID_FACTOR_MILLI, 1000);
                proof {
                    lemma_scale_trunc_bound(
                        run_vec.x as int,
                        SKID_FACTOR_MILLI as int,
                        1000,
                        COMPONENT_CAP as int,
                    );
                    lemma_scale_trunc_bound(
                        run_vec.y as int,
                        SKID_FACTOR_MILLI as int,
                        1000,
                        COMPONENT_CAP as int,
                    );
                    lemma_scale_trunc_bound(
                        run_vec.z as int,
                        SKID_FACTOR_MILLI as int,
                        1000,
                        COMPONENT_CAP as int,
                    );
                }
                forces.add(
                    ForceId::Skid,
                    Force::new(skid, Some(SKID_LIFETIME_US), ForceDecayType::Automatic),
                );
            }
            speed.tick_reset_timer(delta_us);
            if speed.should_reset() {
                speed.reset();
            }
        }
    }
}

/// The ledger after the drift rule: grounded, any drift force is removed;
/// airborne, the camera-relative direction, scaled by the tick length and
/// the drift rate, is accumulated onto the drift entry.
#[verifier::opaque]
pub open spec fn apply_drift_spec(
    forces: Forces,
    sensor: GroundSensor,
    dir: Vec3,
    delta_us: u64,
) -> Forces {
    if sensor.state is Grounded {
        forces.remove_spec(ForceId::Drift)
    } else {
        let delta = Vec3 {
            x: scale_trunc(dir.x as int, delta_us * DRIFT_SCALE_MILLI, 1_000_000_000) as i64,
            y: scale_trunc(dir.y as int, delta_us * DRIFT_SCALE_MILLI, 1_000_000_000) as i64,
            z: scale_trunc(dir.z as int, delta_us * DRIFT_SCALE_MILLI, 1_000_000_000) as i64,
        };
        forces.add_to_spec(ForceId::Drift, delta)
    }
}

/// Runs the airborne drift rule.
pub fn apply_drift(forces: &mut Forces, sensor: &GroundSensor, dir: Vec3, delta_us: u64)
    requires
        old(forces).wf(),
        dir.bounded(2 * BASIS_CAP),
        delta_us <= 1_000_000,
        old(forces).drift matches Some(e) ==> e.force.applied_force.bounded(
            COMPONENT_CAP - 1_000_000,
        ),
    ensures
        *final(forces) == apply_drift_spec(*old(forces), *sensor, dir, delta_us),
        final(forces).wf(),
        final(forces).gravity == old(forces).gravity,
{
    proof {
        reveal(apply_drift_spec);
    }
    if sensor.grounded() {
        forces.remove(ForceId::Drift);
    } else {
        let num: i64 = (delta_us as i64) * DRIFT_SCALE_MILLI;
        proof {
            lemma_mul_bounds(dir.x as int, num as int, 2 * BASIS_CAP, 250_000_000);
            lemma_mul_bounds(dir.y as int, num as int, 2 * BASIS_CAP, 250_000_000);
            lemma_mul_bounds(dir.z as int, num as int, 2 * BASIS_CAP, 250_000_000);
        }
        let delta = dir.scaled(num, 1_000_000_000);
        proof {
            lemma_scale_trunc_bound(dir.x as int, num as int, 1_000_000_000, 2 * BASIS_CAP);
            lemma_scale_trunc_bound(dir.y as int, num as int, 1_000_000_000, 2 * BASIS_CAP);
            lemma_scale_trunc_bound(dir.z as int, num as int, 1_000_000_000, 2 * BASIS_CAP);
            assert(((2 * BASIS_CAP) * num) / 1_000_000_000 <= 500_000) by (nonlinear_arith)
                requires
                    0 <= num <= 250_000_000,
            ;
        }
        forces.add_to(ForceId::Drift, delta);
    }
}

/// The jump stage tracker after its grounded tick: the landing window only
/// runs while the avatar stands on the ground.
#[verifier::opaque]
pub open spec fn handle_jump_timer_spec(
    jumper: Jumper,
    sensor: GroundSensor,
    delta_us: u64,
) -> Jumper {
    if sensor.state is Grounded {
        jumper_tick(jumper, delta_us)
    } else {
        jumper
    }
}

/// Advances the jump stage tracker's landing window while grounded.
pub fn handle_jump_timer(jumper: &mut Jumper, sensor: &GroundSensor, delta_us: u64)
    requires
        old(jumper).wf(),
    ensures
        *final(jumper) == handle_jump_timer_spec(*old(jumper), *sensor, delta_us),
        final(jumper).wf(),
{
    proof {
        reveal(handle_jump_timer_spec);
    }
    if sensor.grounded() {
        jumper.tick(delta_us);
    }
}

/// The ledger and sliding flag after the jump rule: a fresh jump press
/// while grounded ends any slide and inserts a short-lived `Manual` jump
/// force, straight up, with the magnitude of the current jump stage.
#[verifier::opaque]
pub open spec fn jump_spec(
    forces: Forces,
    buffer: InputBuffer,
    sensor: GroundSensor,
    jumper: Jumper,
    sliding: bool,
) -> (Forces, bool) {
    if buffer.jump.spec_just_pressed() && sensor.state is Grounded {
        let f1 = forces.with_entry(
            ForceId::Jump,
            Some(
                Entry {
                    force: Force {
                        applied_force: Vec3 {
                            x: 0,
                            y: spec_stage_force(jumper.stage) as i64,
                            z: 0,
                        },
                        expiration_timer: Some(
                            Countdown { elapsed_us: 0, duration_us: JUMP_LIFETIME_US },
                        ),
                        decay_type: ForceDecayType::Manual,
                    },
                    scheduled_to_remove: false,
                },
            ),
        );
        (f1, false)
    } else {
        (forces, sliding)
    }
}

/// Runs the jump rule.
pub fn jump(
    forces: &mut Forces,
    buffer: &InputBuffer,
    sensor: &GroundSensor,
    jumper: &Jumper,
    sliding: &mut bool,
)
    requires
        old(forces).wf(),
    ensures
        (*final(forces), *final(sliding)) == jump_spec(
            *old(forces),
            *buffer,
            *sensor,
            *jumper,
            *old(sliding),
        ),
        final(forces).wf(),
        final(forces).gravity == old(forces).gravity,
{
    proof {
        reveal(jump_spec);
    }
    if buffer.just_pressed(PlayerAction::Jump) && sensor.grounded() {
        if *sliding {
            *sliding = false;
        }
        let magnitude: i64 = jumper.get_force();
        forces.add(
            ForceId::Jump,
            Force::new(
                Vec3 { x: 0, y: magnitude, z: 0 },
                Some(JUMP_LIFETIME_US),
                ForceDecayType::Manual,
            ),
        );
    }
}

/// The ledger after the jump release rule: once the jump action has been
/// fully released, or vertical momentum is no longer positive, removal of
/// the jump force is requested.
#[verifier::opaque]
pub open spec fn release_jump_spec(
    forces: Forces,
    momentum: Momentum,
    buffer: InputBuffer,
) -> Forces {
    if (buffer.jump.spec_released() || momentum.0.y <= 0) && forces.jump is Some {
        forces.remove_spec(ForceId::Jump)
    } else {
        forces
    }
}

/// Runs the jump release rule.
pub fn release_jump(forces: &mut Forces, momentum: &Momentum, buffer: &InputBuffer)
    requires
        old(forces).wf(),
    ensures
        *final(forces) == release_jump_spec(*old(forces), *momentum, *buffer),
        final(forces).wf(),
        final(forces).gravity == old(forces).gravity,
{
    proof {
        reveal(release_jump_spec);
    }
    if (buffer.released(PlayerAction::Jump) || momentum.y() <= 0) && forces.has_key(
        ForceId::Jump,
    ) {
        forces.remove(ForceId::Jump);
    }
}

/// The ledger after the gravity rule: every airborne tick accumulates the
/// constant downward pull onto the gravity entry (creating it on the first
/// such tick); the entry is removed entirely once grounded.
#[verifier::opaque]
pub open spec fn apply_gravity_spec(forces: Forces, sensor: GroundSensor, g: Gravity) -> Forces {
    if !(sensor.state is Grounded) {
        if forces.gravity is None {
            forces.with_entry(
                ForceId::Gravity,
                Some(
                    Entry {
                        force: Force {
                            applied_force: g.force,
                            expiration_timer: None,
                            decay_type: ForceDecayType::Manual,
                        },
                        scheduled_to_remove: false,
                    },
                ),
            )
        } else {
            forces.add_to_spec(ForceId::Gravity, g.force)
        }
    } else {
        if forces.gravity is Some {
            forces.remove_spec(ForceId::Gravity)
        } else {
            forces
        }
    }
}

/// Runs the gravity rule.
pub fn apply_gravity(forces: &mut Forces, sensor: &GroundSensor, g: &Gravity)
    requires
        old(forces).wf(),
        g.force.bounded(1_000_000),
        old(forces).gravity matches Some(e) ==> e.force.applied_force.bounded(
            COMPONENT_CAP - 1_000_000,
        ),
    ensures
        *final(forces) == apply_gravity_spec(*old(forces), *sensor, *g),
        final(forces).wf(),
{
    proof {
        reveal(apply_gravity_spec);
    }
    if !sensor.grounded() {
        if !forces.has_key(ForceId::Gravity) {
            forces.add(
                ForceId::Gravity,
                Force::new(g.force(), None, ForceDecayType::Manual),
            );
        } else {
            forces.add_to(ForceId::Gravity, g.force());
        }
    } else {
        if forces.has_key(ForceId::Gravity) {
            forces.remove(ForceId::Gravity);
        }
    }
}

/// The ground sensor, ledger and jump stage tracker after the probe result
/// is consumed.
///
/// The sensor reports `Grounded` only when the probe hit geometry *and*
/// vertical momentum is not positive; in every other case it reports
/// `Airborne`, so an ascending avatar is never classified as grounded even
/// while the probe still intersects the floor.  On the airborne-to-grounded
/// edge, removal of the jump and slide forces is requested and the tracker
/// records the landing.  Any angle the probe reported overwrites the
/// sensor's surface angle.
#[verifier::opaque]
pub open spec fn ground_sensor_spec(
    sensor: GroundSensor,
    forces: Forces,
    jumper: Jumper,
    momentum: Momentum,
    probe_hit: bool,
    probe_angle_mdeg: Option<i64>,
) -> (GroundSensor, Forces, Jumper) {
    let landing = probe_hit && momentum.0.y <= 0 && !(sensor.state is Grounded);
    let state = if probe_hit && momentum.0.y <= 0 {
        GroundedState::Grounded
    } else {
        GroundedState::Airborne
    };
    let f1 = if landing {
        forces.remove_spec(ForceId::Jump).remove_spec(ForceId::Slide)
    } else {
        forces
    };
    let j1 = if landing {
        jumper_land(jumper)
    } else {
        jumper
    };
    let angle = match probe_angle_mdeg {
        Some(a) => a,
        None => sensor.surface_angle_mdeg,
    };
    (GroundSensor { state, surface_angle_mdeg: angle }, f1, j1)
}

/// Consumes the probe result, as [`ground_sensor_spec`] describes.
pub fn handle_ground_sensor(
    sensor: &mut GroundSensor,
    forces: &mut Forces,
    jumper: &mut Jumper,
    momentum: &Momentum,
    probe_hit: bool,
    probe_angle_mdeg: Option<i64>,
)
    requires
        old(forces).wf(),
        old(sensor).wf(),
        probe_angle_mdeg matches Some(a) ==> 0 <= a <= MAX_SURFACE_ANGLE_MDEG,
    ensures
        (*final(sensor), *final(forces), *final(jumper)) == ground_sensor_spec(
            *old(sensor),
            *old(forces),
            *old(jumper),
            *momentum,
            probe_hit,
            probe_angle_mdeg,
        ),
        final(forces).wf(),
        final(sensor).wf(),
        old(jumper).wf() ==> final(jumper).wf(),
        final(sensor).state is Grounded ==> probe_hit && momentum.0.y <= 0,
{
    proof {
        reveal(ground_sensor_spec);
    }
    if probe_hit && momentum.y() <= 0 {
        if !sensor.grounded() {
            sensor.set_state(GroundedState::Grounded);
            forces.remove(ForceId::Jump);
            forces.remove(ForceId::Slide);
            jumper.land();
        } else {
            sensor.set_state(GroundedState::Grounded);
        }
    } else {
        sensor.set_state(GroundedState::Airborne);
    }
    if let Some(angle) = probe_angle_mdeg {
        sensor.set_surface_angle(angle);
    }
}

/// The ledger after the slope rule: while grounded on a surface steeper
/// than the threshold, a non-expiring downward `Manual` force proportional
/// to the square of the surface angle is maintained; the moment the sensor
/// leaves `Grounded` the force is removed.
#[verifier::opaque]
pub open spec fn stick_to_slopes_spec(forces: Forces, sensor: GroundSensor) -> Forces {
    if sensor.state is Grounded && sensor.surface_angle_mdeg > SLOPE_MIN_MDEG {
        if forces.slope is None {
            forces.with_entry(
                ForceId::Slope,
                Some(
                    Entry {
                        force: Force {
                            applied_force: Vec3 {
                                x: 0,
                                y: (0 - sensor.surface_angle_mdeg * sensor.surface_angle_mdeg
                                    / 1000) as i64,
                                z: 0,
                            },
                            expiration_timer: None,
                            decay_type: ForceDecayType::Manual,
                        },
                        scheduled_to_remove: false,
                    },
                ),
            )
        } else {
            forces
        }
    } else if !(sensor.state is Grounded) {
        if forces.slope is Some {
            forces.remove_spec(ForceId::Slope)
        } else {
            forces
        }
    } else {
        forces
    }
}

/// Runs the slope-stick rule.
pub fn stick_to_slopes(forces: &mut Forces, sensor: &GroundSensor)
    requires
        old(forces).wf(),
        sensor.wf(),
    ensures
        *final(forces) == stick_to_slopes_spec(*old(forces), *sensor),
        final(forces).wf(),
{
    proof {
        reveal(stick_to_slopes_spec);
    }
    if sensor.grounded() && sensor.get_surface_angle() > SLOPE_MIN_MDEG {
        if !forces.has_key(ForceId::Slope) {
            let angle: i64 = sensor.get_surface_angle();
            assert((angle as u64) * (angle as u64) <= 32_400_000_000u64) by (nonlinear_arith)
                requires
                    0 <= angle <= 180_000,
            ;
            let magnitude: i64 = (((angle as u64) * (angle as u64)) / 1000) as i64;
            forces.add(
                ForceId::Slope,
                Force::new(
                    Vec3 { x: 0, y: -magnitude, z: 0 },
                    None,
                    ForceDecayType::Manual,
                ),
            );
        }
    } else if !sensor.grounded() {
        if forces.has_key(ForceId::Slope) {
            forces.remove(ForceId::Slope);
        }
    }
}

/// The ledger and momentum after the final ledger tick: every entry's
/// countdown advances, expired entries are swept, and the momentum is
/// overwritten with the vector sum of what remains.
#[verifier::opaque]
pub open spec fn apply_forces_spec(
    momentum: Momentum,
    forces: Forces,
    delta_us: u64,
) -> (Momentum, Forces) {
    let f1 = forces.tick_spec(delta_us);
    let m1 = Momentum(
        Vec3 {
            x: f1.combined_x() as i64,
            y: f1.combined_y() as i64,
            z: f1.combined_z() as i64,
        },
    );
    (m1, f1)
}

/// Ticks the ledger once and sets the momentum to the combined force.
#[verifier::rlimit(100)]
pub fn apply_forces(momentum: &mut Momentum, forces: &mut Forces, delta_us: u64)
    requires
        old(forces).wf(),
    ensures
        (*final(momentum), *final(forces)) == apply_forces_spec(
            *old(momentum),
            *old(forces),
            delta_us,
        ),
        final(momentum).0.x == final(forces).combined_x(),
        final(momentum).0.y == final(forces).combined_y(),
        final(momentum).0.z == final(forces).combined_z(),
        final(forces).wf(),
        final(momentum).wf(),
{
    proof {
        reveal(apply_forces_spec);
    }
    forces.tick(delta_us);
    proof {
        crate::ledger::lemma_combined_bounded(*forces);
    }
    let combined = forces.get_combined_force();
    momentum.set(combined);
}

/// The avatar's complete per-tick component bundle: the force ledger, the
/// ground sensor, the jump stage tracker, the input buffer, momentum, the
/// run-speed ramp, the resolved movement direction, and the sliding flag.
#[derive(Clone, Copy, PartialEq, Eq, Structural, Debug)]
pub struct Avatar {
    pub forces: Forces,
    pub sensor: GroundSensor,
    pub jumper: Jumper,
    pub buffer: InputBuffer,
    pub momentum: Momentum,
    pub speed: Speed,
    pub direction: MoveDirection,
    pub sliding: bool,
}

/// The avatar after one fixed tick: the composition, in their fixed order,
/// of the pipeline's rules.
///
/// Order per tick: the input buffer advances and records this tick's
/// edges; the camera-relative direction is resolved; the crouch rule may
/// convert the run force into a slide; the run rule updates speed and the
/// run/skid forces; the drift rule accumulates airborne drift; the jump
/// stage tracker's window advances while grounded; the jump rule may
/// insert a jump force and the release rule may request its removal; the
/// gravity rule accumulates the downward pull; the probe result drives the
/// ground sensor and the landing side effects; the slope rule maintains
/// the slope-stick force; finally the ledger is ticked once, swept, and
/// combined into the new momentum.
pub open spec fn avatar_tick_spec(a: Avatar, g: Gravity, inp: TickInput) -> Avatar {
    let b1 = read_inputs_spec(a.buffer, inp);
    let dir = camera_dir_spec(inp);
    let d1 = MoveDirection(dir);
    let (f3, sl3) = enter_sliding_spec(a.forces, b1, a.sensor, a.sliding);
    let (f4, s4) = handle_speed_spec(f3, a.speed, d1, a.sensor, inp.facing, inp.delta_us);
    let f5 = apply_drift_spec(f4, a.sensor, dir, inp.delta_us);
    let j6 = handle_jump_timer_spec(a.jumper, a.sensor, inp.delta_us);
    let (f7, sl7) = jump_spec(f5, b1, a.sensor, j6, sl3);
    let f8 = release_jump_spec(f7, a.momentum, b1);
    let f9 = apply_gravity_spec(f8, a.sensor, g);
    let (sen10, f10, j10) = ground_sensor_spec(
        a.sensor,
        f9,
        j6,
        a.momentum,
        inp.probe_hit,
        inp.probe_angle_mdeg,
    );
    let f11 = stick_to_slopes_spec(f10, sen10);
    let (m12, f12) = apply_forces_spec(a.momentum, f11, inp.delta_us);
    Avatar {
        forces: f12,
        sensor: sen10,
        jumper: j10,
        buffer: b1,
        momentum: m12,
        speed: s4,
        direction: d1,
        sliding: sl7,
    }
}

impl Avatar {
    /// Every component is well formed.
    pub open spec fn wf(self) -> bool {
        &&& self.forces.wf()
        &&& self.sensor.wf()
        &&& self.jumper.wf()
        &&& self.buffer.wf()
        &&& self.momentum.wf()
        &&& self.speed.wf()
        &&& self.direction.wf()
    }

    /// The entries the accumulating rules grow, and the run force the
    /// crouch rule may double, leave room for one more tick's growth.
    pub open spec fn headroom(self) -> bool {
        &&& (self.forces.run matches Some(e) ==> e.force.applied_force.bounded(
            (COMPONENT_CAP / 2) as int,
        ))
        &&& (self.forces.drift matches Some(e) ==> e.force.applied_force.bounded(
            COMPONENT_CAP - 1_000_000,
        ))
        &&& (self.forces.gravity matches Some(e) ==> e.force.applied_force.bounded(
            COMPONENT_CAP - 1_000_000,
        ))
    }

    /// Runs one fixed tick of the locomotion pipeline and returns the
    /// displacement request for the external collision resolver.
    #[verifier::rlimit(100)]
    #[verifier::spinoff_prover]
    pub fn tick(&mut self, inp: &TickInput, g: &Gravity) -> (r: Vec3)
        requires
            old(self).wf(),
            old(self).headroom(),
            inp.delta_us <= 1_000_000,
            inp.forward_basis.bounded(BASIS_CAP as int),
            inp.right_basis.bounded(BASIS_CAP as int),
            inp.facing.bounded(BASIS_CAP as int),
            g.force.bounded(1_000_000),
            inp.probe_angle_mdeg matches Some(a) ==> 0 <= a <= MAX_SURFACE_ANGLE_MDEG,
        ensures
            *final(self) == avatar_tick_spec(*old(self), *g, *inp),
            r == final(self).momentum.0,
            final(self).momentum.0.x == final(self).forces.combined_x(),
            final(self).momentum.0.y == final(self).forces.combined_y(),
            final(self).momentum.0.z == final(self).forces.combined_z(),
            final(self).wf(),
            final(self).sensor.state is Grounded ==> inp.probe_hit && old(self).momentum.0.y
                <= 0,
    {
        let ghost a0 = *self;
        let ghost g0 = *g;
        let ghost inp0 = *inp;
        read_inputs(&mut self.buffer, inp);
        let ghost b1 = read_inputs_spec(a0.buffer, inp0);
        let dir = get_direction_in_camera_space(inp);
        self.direction.set(dir);
        enter_sliding(&mut self.forces, &self.buffer, &self.sensor, &mut self.sliding);
        let ghost f3 = enter_sliding_spec(a0.forces, b1, a0.sensor, a0.sliding).0;
        let ghost sl3 = enter_sliding_spec(a0.forces, b1, a0.sensor, a0.sliding).1;
        proof {
            assert(self.forces == f3 && self.sliding == sl3);
        }
        handle_speed(
            &mut self.forces,
            &mut self.speed,
            &self.direction,
            &self.sensor,
            inp.facing,
            inp.delta_us,
        );
        let ghost f4 = handle_speed_spec(f3, a0.speed, MoveDirection(camera_dir_spec(inp0)), a0.sensor, inp0.facing, inp0.delta_us).0;
        let ghost s4 = handle_speed_spec(f3, a0.speed, MoveDirection(camera_dir_spec(inp0)), a0.sensor, inp0.facing, inp0.delta_us).1;
        proof {
            assert(self.forces == f4 && self.speed == s4);
        }
        apply_drift(&mut self.forces, &self.sensor, dir, inp.delta_us);
        let ghost f5 = apply_drift_spec(f4, a0.sensor, camera_dir_spec(inp0), inp0.delta_us);
        proof {
            assert(self.forces == f5);
        }
        handle_jump_timer(&mut self.jumper, &self.sensor, inp.delta_us);
        let ghost j6 = handle_jump_timer_spec(a0.jumper, a0.sensor, inp0.delta_us);
        jump(&mut self.forces, &self.buffer, &self.sensor, &self.jumper, &mut self.sliding);
        let ghost f7 = jump_spec(f5, b1, a0.sensor, j6, sl3).0;
        let ghost sl7 = jump_spec(f5, b1, a0.sensor, j6, sl3).1;
        proof {
            assert(self.forces == f7 && self.sliding == sl7);
        }
        release_jump(&mut self.forces, &self.momentum, &self.buffer);
        let ghost f8 = release_jump_spec(f7, a0.momentum, b1);
        apply_gravity(&mut self.forces, &self.sensor, g);
        let ghost f9 = apply_gravity_spec(f8, a0.sensor, g0);
        proof {
            assert(self.forces == f9);
        }
        handle_ground_sensor(
            &mut self.sensor,
            &mut self.forces,
            &mut self.jumper,
            &self.momentum,
            inp.probe_hit,
            inp.probe_angle_mdeg,
        );
        let ghost sen10 = ground_sensor_spec(
            a0.sensor,
            f9,
            j6,
            a0.momentum,
            inp0.probe_hit,
            inp0.probe_angle_mdeg,
        ).0;
        let ghost f10 = ground_sensor_spec(
            a0.sensor,
            f9,
            j6,
            a0.momentum,
            inp0.probe_hit,
            inp0.probe_angle_mdeg,
        ).1;
        let ghost j10 = ground_sensor_spec(
            a0.sensor,
            f9,
            j6,
            a0.momentum,
            inp0.probe_hit,
            inp0.probe_angle_mdeg,
        ).2;
        proof {
            assert(self.sensor == sen10 && self.forces == f10 && self.jumper == j10);
        }
        stick_to_slopes(&mut self.forces, &self.sensor);
        let ghost f11 = stick_to_slopes_spec(f10, sen10);
        apply_forces(&mut self.momentum, &mut self.forces, inp.delta_us);
        let ghost m12 = apply_forces_spec(a0.momentum, f11, inp0.delta_us).0;
        let ghost f12 = apply_forces_spec(a0.momentum, f11, inp0.delta_us).1;
        proof {
            assert(self.momentum == m12 && self.forces == f12);
            assert(*self == (Avatar {
                forces: f12,
                sensor: sen10,
                jumper: j10,
                buffer: b1,
                momentum: m12,
                speed: s4,
                direction: MoveDirection(camera_dir_spec(inp0)),
                sliding: sl7,
            }));
            assert(*self == avatar_tick_spec(a0, g0, inp0));
        }
        self.momentum.get()
    }
}

impl Default for Avatar {
    /// An avatar at spawn: empty ledger, grounded on flat ground, fresh
    /// jump stage, idle inputs, zero momentum, tuned speed ramp, no
    /// direction, not sliding.
    fn default() -> (r: Avatar)
        ensures
            r.forces == (Forces {
                gravity: None,
                run: None,
                jump: None,
                wind: None,
                slide: None,
                skid: None,
                drift: None,
                slope: None,
            }),
            r.sensor == (GroundSensor { state: GroundedState::Grounded, surface_angle_mdeg: 0 }),
            r.jumper.stage is Single,
            r.jumper.increase_timer.spec_finished(),
            !r.buffer.jump.pressed && !r.buffer.jump.buffered && !r.buffer.jump.stale,
            !r.buffer.movement.pressed && !r.buffer.movement.buffered && !r.buffer.movement.stale,
            !r.buffer.crouch.pressed && !r.buffer.crouch.buffered && !r.buffer.crouch.stale,
            r.momentum.0 == (Vec3 { x: 0, y: 0, z: 0 }),
            r.speed.current == crate::speed::SPEED_BASE,
            r.speed.base == crate::speed::SPEED_BASE,
            r.speed.max == crate::speed::SPEED_MAX,
            r.direction.0 == (Vec3 { x: 0, y: 0, z: 0 }),
            !r.sliding,
            r.wf(),
            r.headroom(),
    {
        Avatar {
            forces: Forces::default(),
            sensor: GroundSensor::default(),
            jumper: Jumper::default(),
            buffer: InputBuffer::default(),
            momentum: Momentum::default(),
            speed: Speed::default(),
            direction: MoveDirection::default(),
            sliding: false,
        }
    }
}

} // verus!
