//! The input buffer: per-action press/release tracking with a short
//! buffering window.
//!
//! A press stays consumable as "just pressed" for a buffering window, even
//! if the action is released again in the meantime, so a rule that runs
//! slightly later in the same or a following tick can still consume it.
//! Once the window lapses the press goes stale: a still-held action then
//! reads as held but no longer as just pressed.

use crate::countdown::Countdown;
use crate::countdown::countdown_tick;
use vstd::prelude::*;

verus! {

/// How long a press stays fresh, in microseconds.
pub const INPUT_BUFFER_US: u64 = 100_000;

/// The logical actions the locomotion core consumes.
#[derive(Clone, Copy, PartialEq, Eq, Structural, Debug)]
pub enum PlayerAction {
    Jump,
    Move,
    Crouch,
}

/// Press state for one action.
#[derive(Clone, Copy, PartialEq, Eq, Structural, Debug)]
pub struct ActionState {
    /// The action is currently held down.
    pub pressed: bool,
    /// A press's buffering window is still open.
    pub buffered: bool,
    /// The buffering window lapsed without a release: the press is no
    /// longer fresh.
    pub stale: bool,
    /// The buffering window's countdown.
    pub buffer_timer: Countdown,
}

/// The state after the action is pressed: held, freshly buffered, and a new
/// buffering window starts.
pub open spec fn action_press(s: ActionState) -> ActionState {
    ActionState {
        pressed: true,
        buffered: true,
        stale: false,
        buffer_timer: Countdown { elapsed_us: 0, duration_us: INPUT_BUFFER_US },
    }
}

/// The state after the action is released: no longer held and no longer
/// stale; an open buffering window keeps running, so the press stays
/// consumable until the window lapses.
pub open spec fn action_release(s: ActionState) -> ActionState {
    ActionState { pressed: false, stale: false, ..s }
}

/// The state after `delta_us` microseconds: an open buffering window
/// advances, and on lapsing marks the press stale.
pub open spec fn action_tick(s: ActionState, delta_us: u64) -> ActionState {
    if s.buffered {
        let t = countdown_tick(s.buffer_timer, delta_us);
        if t.spec_finished() {
            ActionState { buffered: false, stale: true, buffer_timer: t, ..s }
        } else {
            ActionState { buffer_timer: t, ..s }
        }
    } else {
        s
    }
}

impl ActionState {
    /// The buffering countdown is well formed.
    pub open spec fn wf(self) -> bool {
        self.buffer_timer.wf()
    }

    /// The action is held: true for the entire hold, not just the edge.
    pub open spec fn spec_pressed(self) -> bool {
        self.pressed
    }

    /// The press is still fresh: held or buffered, and not yet stale.
    pub open spec fn spec_just_pressed(self) -> bool {
        (self.pressed || self.buffered) && !self.stale
    }

    /// A full release has been observed: neither held nor buffered.
    pub open spec fn spec_released(self) -> bool {
        !self.pressed && !self.buffered
    }

    /// The idle state: not held, not buffered, not stale.
    pub fn idle() -> (r: ActionState)
        ensures
            r == (ActionState {
                pressed: false,
                buffered: false,
                stale: false,
                buffer_timer: Countdown { elapsed_us: 0, duration_us: 0 },
            }),
    {
        ActionState {
            pressed: false,
            buffered: false,
            stale: false,
            buffer_timer: Countdown { elapsed_us: 0, duration_us: 0 },
        }
    }
}

/// The per-avatar input buffer: one press state per logical action.
#[derive(Clone, Copy, PartialEq, Eq, Structural, Debug)]
pub struct InputBuffer {
    pub jump: ActionState,
    pub movement: ActionState,
    pub crouch: ActionState,
}

impl InputBuffer {
    /// The press state of `action`.
    pub open spec fn action_state(self, action: PlayerAction) -> ActionState {
        match action {
            PlayerAction::Jump => self.jump,
            PlayerAction::Move => self.movement,
            PlayerAction::Crouch => self.crouch,
        }
    }

    /// The buffer with the press state of `action` replaced by `s`.
    pub open spec fn with_state(self, action: PlayerAction, s: ActionState) -> InputBuffer {
        match action {
            PlayerAction::Jump => InputBuffer { jump: s, ..self },
            PlayerAction::Move => InputBuffer { movement: s, ..self },
            PlayerAction::Crouch => InputBuffer { crouch: s, ..self },
        }
    }

    /// Every action's press state is well formed.
    pub open spec fn wf(self) -> bool {
        &&& self.jump.wf()
        &&& self.movement.wf()
        &&& self.crouch.wf()
    }

    /// The buffer after `delta_us` microseconds.
    pub open spec fn tick_spec(self, delta_us: u64) -> InputBuffer {
        InputBuffer {
            jump: action_tick(self.jump, delta_us),
            movement: action_tick(self.movement, delta_us),
            crouch: action_tick(self.crouch, delta_us),
        }
    }

    /// A mutable reference to the press state of `action`; the other
    /// actions are untouched.
    fn state_mut(&mut self, action: PlayerAction) -> (r: &mut ActionState)
        ensures
            *r == old(self).action_state(action),
            *final(self) == old(self).with_state(action, *final(r)),
    {
        match action {
            PlayerAction::Jump => &mut self.jump,
            PlayerAction::Move => &mut self.movement,
            PlayerAction::Crouch => &mut self.crouch,
        }
    }

    /// A shared reference to the press state of `action`.
    fn state(&self, action: PlayerAction) -> (r: &ActionState)
        ensures
            *r == self.action_state(action),
    {
        match action {
            PlayerAction::Jump => &self.jump,
            PlayerAction::Move => &self.movement,
            PlayerAction::Crouch => &self.crouch,
        }
    }

    /// Records a press: the action becomes held and freshly buffered, and
    /// a new buffering window starts.
    pub fn press(&mut self, action: PlayerAction)
        ensures
            *final(self) == old(self).with_state(
                action,
                action_press(old(self).action_state(action)),
            ),
    {
        let s = self.state_mut(action);
        s.pressed = true;
        s.buffered = true;
        s.stale = false;
        s.buffer_timer = Countdown::from_micros(INPUT_BUFFER_US);
    }

    /// Records a release: the action is no longer held and no longer
    /// stale; an open buffering window keeps running.
    pub fn release(&mut self, action: PlayerAction)
        ensures
            *final(self) == old(self).with_state(
                action,
                action_release(old(self).action_state(action)),
            ),
    {
        let s = self.state_mut(action);
        s.pressed = false;
        s.stale = false;
    }

    /// Advances every action's buffering window; a window that lapses
    /// marks its press stale.
    pub fn tick(&mut self, delta_us: u64)
        requires
            old(self).wf(),
        ensures
            *final(self) == old(self).tick_spec(delta_us),
            final(self).wf(),
    {
        tick_action(&mut self.jump, delta_us);
        tick_action(&mut self.movement, delta_us);
        tick_action(&mut self.crouch, delta_us);
    }

    /// True iff `action` is held (the entire hold, not just the edge).
    pub fn pressed(&self, action: PlayerAction) -> (r: bool)
        ensures
            r == self.action_state(action).spec_pressed(),
    {
        self.state(action).pressed
    }

    /// True iff `action`'s press is still fresh: held or buffered, and not
    /// yet stale.
    pub fn just_pressed(&self, action: PlayerAction) -> (r: bool)
        ensures
            r == self.action_state(action).spec_just_pressed(),
    {
        let s = self.state(action);
        (s.pressed || s.buffered) && !s.stale
    }

    /// True iff a full release of `action` has been observed: neither held
    /// nor buffered.
    pub fn released(&self, action: PlayerAction) -> (r: bool)
        ensures
            r == self.action_state(action).spec_released(),
    {
        let s = self.state(action);
        !s.pressed && !s.buffered
    }
}

impl Default for InputBuffer {
    /// A buffer with every action idle.
    fn default() -> (r: InputBuffer)
        ensures
            r == (InputBuffer {
                jump: ActionState {
                    pressed: false,
                    buffered: false,
                    stale: false,
                    buffer_timer: Countdown { elapsed_us: 0, duration_us: 0 },
                },
                movement: ActionState {
                    pressed: false,
                    buffered: false,
                    stale: false,
                    buffer_timer: Countdown { elapsed_us: 0, duration_us: 0 },
                },
                crouch: ActionState {
                    pressed: false,
                    buffered: false,
                    stale: false,
                    buffer_timer: Countdown { elapsed_us: 0, duration_us: 0 },
                },
            }),
    {
        InputBuffer { jump: ActionState::idle(), movement: ActionState::idle(), crouch: ActionState::idle() }
    }
}

/// Advances one action's buffering window, as [`action_tick`] describes.
fn tick_action(s: &mut ActionState, delta_us: u64)
    requires
        old(s).wf(),
    ensures
        *final(s) == action_tick(*old(s), delta_us),
        final(s).wf(),
{
    if s.buffered {
        s.buffer_timer.tick(delta_us);
        if s.buffer_timer.finished() {
            s.buffered = false;
            s.stale = true;
        }
    }
}

} // verus!
