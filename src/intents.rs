//! The movement intents: one level-triggered flag per direction.
use vstd::prelude::*;

use crate::keys::{axis_of, Axis, Key};

verus! {

/// Which of the six movement directions are currently held.
///
/// A flag is set while a key of its axis is down and cleared when that key is
/// released; a repeated press of a held key changes nothing.
#[derive(Clone, Copy, Debug, PartialEq, Eq, Structural)]
pub struct MoveIntents {
    pub forward: bool,
    pub backward: bool,
    pub left: bool,
    pub right: bool,
    pub up: bool,
    pub down: bool,
}

/// `1` for a held flag, `0` otherwise.
pub open spec fn level(b: bool) -> int {
    if b { 1 } else { 0 }
}

impl MoveIntents {
    /// Whether the flag of `axis` is set.
    pub open spec fn held(self, axis: Axis) -> bool {
        match axis {
            Axis::Forward => self.forward,
            Axis::Backward => self.backward,
            Axis::Left => self.left,
            Axis::Right => self.right,
            Axis::Up => self.up,
            Axis::Down => self.down,
        }
    }

    /// These intents with the flag of `axis` set to `on`.
    pub open spec fn with(self, axis: Axis, on: bool) -> MoveIntents {
        match axis {
            Axis::Forward => MoveIntents { forward: on, ..self },
            Axis::Backward => MoveIntents { backward: on, ..self },
            Axis::Left => MoveIntents { left: on, ..self },
            Axis::Right => MoveIntents { right: on, ..self },
            Axis::Up => MoveIntents { up: on, ..self },
            Axis::Down => MoveIntents { down: on, ..self },
        }
    }

    /// What a key event does to these intents: the flag of the key's axis
    /// follows the key, and an unrecognised key changes nothing.
    pub open spec fn after_key(self, key: Key, pressed: bool) -> MoveIntents {
        match axis_of(key) {
            Some(axis) => self.with(axis, pressed),
            None => self,
        }
    }

    /// Forward minus backward.
    pub open spec fn forward_spec(self) -> int {
        level(self.forward) - level(self.backward)
    }

    /// Right minus left.
    pub open spec fn right_spec(self) -> int {
        level(self.right) - level(self.left)
    }

    /// Up minus down.
    pub open spec fn up_spec(self) -> int {
        level(self.up) - level(self.down)
    }

    /// No direction is held.
    pub open spec fn none_held(self) -> bool {
        !self.forward && !self.backward && !self.left && !self.right && !self.up && !self.down
    }

    /// Intents with nothing held.
    pub fn new() -> (r: MoveIntents)
        ensures
            r.none_held(),
    {
        MoveIntents {
            forward: false,
            backward: false,
            left: false,
            right: false,
            up: false,
            down: false,
        }
    }

    /// Applies a key event. Returns whether the key controls the camera, so
    /// that the caller handles the other keys itself.
    pub fn process_keyboard(&mut self, key: Key, pressed: bool) -> (handled: bool)
        ensures
            handled == axis_of(key).is_some(),
            *final(self) == old(self).after_key(key, pressed),
    {
        match key.axis() {
            Some(Axis::Forward) => {
                self.forward = pressed;
                true
            },
            Some(Axis::Backward) => {
                self.backward = pressed;
                true
            },
            Some(Axis::Left) => {
                self.left = pressed;
                true
            },
            Some(Axis::Right) => {
                self.right = pressed;
                true
            },
            Some(Axis::Up) => {
                self.up = pressed;
                true
            },
            Some(Axis::Down) => {
                self.down = pressed;
                true
            },
            None => false,
        }
    }

    /// Net movement along the view direction: `1` forward, `-1` backward.
    pub fn net_forward(&self) -> (r: i8)
        ensures
            r as int == self.forward_spec(),
    {
        (self.forward as i8) - (self.backward as i8)
    }

    /// Net sideways movement: `1` to the right, `-1` to the left.
    pub fn net_right(&self) -> (r: i8)
        ensures
            r as int == self.right_spec(),
    {
        (self.right as i8) - (self.left as i8)
    }

    /// Net vertical movement: `1` up, `-1` down.
    pub fn net_up(&self) -> (r: i8)
        ensures
            r as int == self.up_spec(),
    {
        (self.up as i8) - (self.down as i8)
    }

    /// Whether no direction is held.
    pub fn is_idle(&self) -> (r: bool)
        ensures
            r == self.none_held(),
    {
        !self.forward && !self.backward && !self.left && !self.right && !self.up && !self.down
    }
}

/// Pressing a key and then releasing it, with no frame in between, leaves the
/// key's axis released and every other axis as it was; from an idle state it
/// returns to idle.
pub proof fn lemma_press_then_release(m: MoveIntents, key: Key)
    ensures
        ({
            let r = m.after_key(key, true).after_key(key, false);
            &&& match axis_of(key) {
                Some(a) => !r.held(a) && forall|b: Axis| b != a ==> r.held(b) == m.held(b),
                None => r == m,
            }
            &&& m.none_held() ==> r.none_held()
        }),
{
}

/// Repeating a key event changes nothing: holding a key that sends "pressed"
/// again and again has the effect of one press.
pub proof fn lemma_key_event_idempotent(m: MoveIntents, key: Key, pressed: bool)
    ensures
        m.after_key(key, pressed).after_key(key, pressed) == m.after_key(key, pressed),
{
}

} // verus!
