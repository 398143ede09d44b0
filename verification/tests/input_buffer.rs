use locomotion::input::{InputBuffer, PlayerAction, INPUT_BUFFER_US};

#[test]
fn press_then_release_within_one_tick_stays_just_pressed() {
    let mut buffer = InputBuffer::default();
    buffer.press(PlayerAction::Jump);
    buffer.release(PlayerAction::Jump);
    // A consumer that runs before the next tick still sees the press.
    assert!(buffer.just_pressed(PlayerAction::Jump));
    assert!(!buffer.pressed(PlayerAction::Jump));
}

#[test]
fn buffered_press_survives_short_ticks() {
    let mut buffer = InputBuffer::default();
    buffer.press(PlayerAction::Jump);
    buffer.tick(50_000);
    assert!(buffer.just_pressed(PlayerAction::Jump));
}

#[test]
fn held_press_goes_stale_after_the_window() {
    let mut buffer = InputBuffer::default();
    buffer.press(PlayerAction::Jump);
    buffer.tick(INPUT_BUFFER_US);
    // The key is still down, but the press is no longer fresh.
    assert!(buffer.pressed(PlayerAction::Jump));
    assert!(!buffer.just_pressed(PlayerAction::Jump));
    assert!(!buffer.released(PlayerAction::Jump));
}

#[test]
fn released_needs_release_and_lapsed_window() {
    let mut buffer = InputBuffer::default();
    buffer.press(PlayerAction::Jump);
    buffer.release(PlayerAction::Jump);
    // The buffering window still runs, so the action is not yet released.
    assert!(!buffer.released(PlayerAction::Jump));
    buffer.tick(INPUT_BUFFER_US);
    assert!(buffer.released(PlayerAction::Jump));
    assert!(!buffer.just_pressed(PlayerAction::Jump));
}

#[test]
fn release_after_stale_hold_reads_released() {
    let mut buffer = InputBuffer::default();
    buffer.press(PlayerAction::Jump);
    buffer.tick(INPUT_BUFFER_US);
    buffer.release(PlayerAction::Jump);
    assert!(buffer.released(PlayerAction::Jump));
    assert!(!buffer.just_pressed(PlayerAction::Jump));
}

#[test]
fn idle_action_reads_released_and_not_pressed() {
    let buffer = InputBuffer::default();
    assert!(buffer.released(PlayerAction::Crouch));
    assert!(!buffer.pressed(PlayerAction::Crouch));
    assert!(!buffer.just_pressed(PlayerAction::Crouch));
}

#[test]
fn actions_are_tracked_independently() {
    let mut buffer = InputBuffer::default();
    buffer.press(PlayerAction::Jump);
    assert!(!buffer.pressed(PlayerAction::Move));
    assert!(!buffer.just_pressed(PlayerAction::Crouch));
    buffer.press(PlayerAction::Move);
    buffer.release(PlayerAction::Jump);
    assert!(buffer.pressed(PlayerAction::Move));
    assert!(!buffer.pressed(PlayerAction::Jump));
}

#[test]
fn a_new_press_refreshes_a_stale_action() {
    let mut buffer = InputBuffer::default();
    buffer.press(PlayerAction::Jump);
    buffer.tick(INPUT_BUFFER_US);
    assert!(!buffer.just_pressed(PlayerAction::Jump));
    buffer.press(PlayerAction::Jump);
    assert!(buffer.just_pressed(PlayerAction::Jump));
}
