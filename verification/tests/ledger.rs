use locomotion::force::{Force, ForceDecayType, ForceId};
use locomotion::ledger::Forces;
use locomotion::vec3::Vec3;

fn vec(x: i64, y: i64, z: i64) -> Vec3 {
    Vec3 { x, y, z }
}

#[test]
fn combine_equals_exact_sum() {
    let mut forces = Forces::default();
    forces.add(
        ForceId::Gravity,
        Force::new(vec(0, -20, 0), None, ForceDecayType::Manual),
    );
    forces.add(
        ForceId::Run,
        Force::new(vec(100, 0, 50), None, ForceDecayType::Manual),
    );
    forces.add(
        ForceId::Wind,
        Force::new(vec(-7, 3, 1), Some(500_000), ForceDecayType::Automatic),
    );
    assert_eq!(forces.length(), 3);
    assert_eq!(forces.get_combined_force(), vec(93, -17, 51));
}

#[test]
fn absent_lookup_is_absent_never_an_error() {
    let mut forces = Forces::default();
    assert_eq!(forces.get_vector(ForceId::Jump), None);
    assert!(!forces.has_key(ForceId::Jump));
    forces.remove(ForceId::Jump);
    assert_eq!(forces.length(), 0);
    assert_eq!(forces.get_combined_force(), vec(0, 0, 0));
}

#[test]
fn manual_entry_with_unexpired_timer_survives_repeated_removal() {
    let mut forces = Forces::default();
    forces.add(
        ForceId::Wind,
        Force::new(vec(5, 0, 0), Some(100_000), ForceDecayType::Manual),
    );
    // Removal is requested every tick; the entry must stay until its
    // countdown naturally finishes.
    for _ in 0..5 {
        forces.remove(ForceId::Wind);
        forces.tick(16_667);
        assert!(forces.has_key(ForceId::Wind));
        assert_eq!(forces.get_vector(ForceId::Wind), Some(vec(5, 0, 0)));
    }
    // Elapsed is now 83_335 of 100_000; the next tick finishes the
    // countdown and the scheduled entry leaves exactly then.
    forces.remove(ForceId::Wind);
    forces.tick(16_667);
    assert!(!forces.has_key(ForceId::Wind));
}

#[test]
fn manual_timerless_entry_removed_only_on_request() {
    let mut forces = Forces::default();
    forces.add(
        ForceId::Wind,
        Force::new(vec(1, 2, 3), None, ForceDecayType::Manual),
    );
    for _ in 0..10 {
        forces.tick(1_000_000);
    }
    assert!(forces.has_key(ForceId::Wind));
    forces.remove(ForceId::Wind);
    assert!(!forces.has_key(ForceId::Wind));
}

#[test]
fn automatic_entry_swept_when_finished() {
    let mut forces = Forces::default();
    forces.add(
        ForceId::Skid,
        Force::new(vec(9, 0, 0), Some(100_000), ForceDecayType::Automatic),
    );
    forces.tick(50_000);
    assert!(forces.has_key(ForceId::Skid));
    forces.tick(60_000);
    assert!(!forces.has_key(ForceId::Skid));
}

#[test]
fn overwriting_clears_a_scheduled_removal() {
    let mut forces = Forces::default();
    forces.add(
        ForceId::Wind,
        Force::new(vec(5, 0, 0), Some(100_000), ForceDecayType::Manual),
    );
    forces.remove(ForceId::Wind);
    forces.add(
        ForceId::Wind,
        Force::new(vec(6, 0, 0), Some(100_000), ForceDecayType::Manual),
    );
    // The overwritten entry is no longer scheduled, so it survives its
    // countdown finishing.
    forces.tick(200_000);
    assert!(forces.has_key(ForceId::Wind));
    assert_eq!(forces.get_vector(ForceId::Wind), Some(vec(6, 0, 0)));
}

#[test]
fn accumulate_creates_then_grows_in_place() {
    let mut forces = Forces::default();
    forces.add_to(ForceId::Drift, vec(1, 2, 3));
    assert_eq!(forces.get_vector(ForceId::Drift), Some(vec(1, 2, 3)));
    forces.add_to(ForceId::Drift, vec(1, 2, 3));
    assert_eq!(forces.get_vector(ForceId::Drift), Some(vec(2, 4, 6)));
    // A created entry is Manual and non-expiring: the sweep never takes it.
    forces.tick(1_000_000);
    assert!(forces.has_key(ForceId::Drift));
}

#[test]
fn reset_empties_every_slot() {
    let mut forces = Forces::default();
    forces.add_to(ForceId::Drift, vec(1, 0, 0));
    forces.add_to(ForceId::Gravity, vec(0, -5, 0));
    forces.reset();
    assert_eq!(forces.length(), 0);
    assert_eq!(forces.get_combined_force(), vec(0, 0, 0));
}

#[test]
fn force_add_time_extends_remaining() {
    let mut force = Force::new(vec(1, 0, 0), Some(100_000), ForceDecayType::Manual);
    force.tick(50_000);
    force.add_time(30_000);
    // 50_000 remained, 30_000 was added.
    force.tick(70_000);
    assert!(!force.finished());
    force.tick(10_000);
    assert!(force.finished());
}

#[test]
fn force_without_timer_counts_as_finished() {
    let force = Force::new(vec(1, 0, 0), None, ForceDecayType::Manual);
    assert!(force.finished());
    let timed = Force::new(vec(1, 0, 0), Some(1), ForceDecayType::Manual);
    assert!(!timed.finished());
}

#[test]
fn force_add_force_accumulates_vector() {
    let mut force = Force::new(vec(1, -2, 3), None, ForceDecayType::Manual);
    force.add_force(vec(10, 10, 10));
    assert_eq!(force.applied_force, vec(11, 8, 13));
}
