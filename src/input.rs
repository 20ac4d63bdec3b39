//! Routing of window input events to the camera controls.
use vstd::prelude::*;

use crate::accumulator::InputAccumulator;
use crate::keys::{axis_of, Key};

verus! {

/// A mouse button, as far as the camera controls tell buttons apart.
#[derive(Clone, Copy, Debug, PartialEq, Eq, Structural)]
pub enum MouseButton {
    /// Held down to look around with the mouse.
    Left,
    /// Puts the camera back to its home pose.
    Right,
    Other,
}

/// A window event that the camera controls may consume; `S` is a wheel delta.
#[derive(Debug, PartialEq, Eq)]
pub enum InputEvent<S> {
    Key { key: Key, pressed: bool },
    Wheel(S),
    Button { button: MouseButton, pressed: bool },
    Other,
}

/// What became of an event.
#[derive(Clone, Copy, Debug, PartialEq, Eq, Structural)]
pub enum Response {
    /// Not a camera control: the caller handles it.
    Ignored,
    /// Consumed by the camera controls.
    Handled,
    /// Consumed, and the camera is to go back to its home pose.
    Recenter,
}

impl Response {
    /// Whether the event was consumed.
    pub fn handled(self) -> (r: bool)
        ensures
            r == (self != Response::Ignored),
    {
        match self {
            Response::Ignored => false,
            _ => true,
        }
    }
}

/// The input side of the frame loop: the accumulator and the look-mode flag,
/// which is on while the left mouse button is held.
#[derive(Debug)]
pub struct InputState<L, S> {
    pub controller: InputAccumulator<L, S>,
    pub mouse_pressed: bool,
}

impl<L, S> InputState<L, S> {
    /// The response to an event.
    pub open spec fn response_to(event: InputEvent<S>) -> Response {
        match event {
            InputEvent::Key { key, .. } => if axis_of(key).is_some() {
                Response::Handled
            } else {
                Response::Ignored
            },
            InputEvent::Wheel(_) => Response::Handled,
            InputEvent::Button { button: MouseButton::Left, .. } => Response::Handled,
            InputEvent::Button { button: MouseButton::Right, .. } => Response::Recenter,
            _ => Response::Ignored,
        }
    }

    /// The state after an event.
    pub open spec fn after(self, event: InputEvent<S>) -> Self {
        match event {
            InputEvent::Key { key, pressed } => InputState {
                controller: self.controller.after_key(key, pressed),
                ..self
            },
            InputEvent::Wheel(delta) => InputState {
                controller: self.controller.after_scroll(delta),
                ..self
            },
            InputEvent::Button { button: MouseButton::Left, pressed } => InputState {
                mouse_pressed: pressed,
                ..self
            },
            _ => self,
        }
    }

    /// Idle controls, look mode off.
    pub fn new() -> (r: Self)
        ensures
            r.controller.idle(),
            !r.mouse_pressed,
    {
        InputState { controller: InputAccumulator::new(), mouse_pressed: false }
    }

    /// Applies a window event: movement keys go to the accumulator, a wheel
    /// event becomes the pending scroll, the left button switches look mode
    /// and the right button asks for a recenter on press and on release.
    pub fn input(&mut self, event: InputEvent<S>) -> (r: Response)
        ensures
            r == Self::response_to(event),
            *final(self) == old(self).after(event),
    {
        match event {
            InputEvent::Key { key, pressed } => {
                if self.controller.process_keyboard(key, pressed) {
                    Response::Handled
                } else {
                    Response::Ignored
                }
            },
            InputEvent::Wheel(delta) => {
                self.controller.process_scroll(delta);
                Response::Handled
            },
            InputEvent::Button { button: MouseButton::Left, pressed } => {
                self.mouse_pressed = pressed;
                Response::Handled
            },
            InputEvent::Button { button: MouseButton::Right, .. } => Response::Recenter,
            _ => Response::Ignored,
        }
    }

    /// Takes a raw mouse motion. It becomes the pending look delta only in
    /// look mode; returns whether it was taken.
    pub fn mouse_motion(&mut self, delta: L) -> (taken: bool)
        ensures
            taken == old(self).mouse_pressed,
            final(self).mouse_pressed == old(self).mouse_pressed,
            final(self).controller == if taken {
                old(self).controller.after_mouse(delta)
            } else {
                old(self).controller
            },
    {
        if self.mouse_pressed {
            self.controller.process_mouse(delta);
            true
        } else {
            false
        }
    }
}

} // verus!
