//! The keys that drive the camera and the movement axis each one controls.
use vstd::prelude::*;

verus! {

/// A keyboard key, as far as the camera controls tell keys apart.
#[derive(Clone, Copy, Debug, PartialEq, Eq, Structural)]
pub enum Key {
    W,
    A,
    S,
    D,
    Up,
    Down,
    Left,
    Right,
    Space,
    LShift,
    /// Any key the camera does not react to.
    Other,
}

/// One of the six directions a held key moves the camera in.
#[derive(Clone, Copy, Debug, PartialEq, Eq, Structural)]
pub enum Axis {
    Forward,
    Backward,
    Left,
    Right,
    Up,
    Down,
}

/// The axis a key controls: W/S/A/D and the arrow keys move in the horizontal
/// plane, Space moves up and left Shift moves down.
pub open spec fn axis_of(key: Key) -> Option<Axis> {
    match key {
        Key::W | Key::Up => Some(Axis::Forward),
        Key::S | Key::Down => Some(Axis::Backward),
        Key::A | Key::Left => Some(Axis::Left),
        Key::D | Key::Right => Some(Axis::Right),
        Key::Space => Some(Axis::Up),
        Key::LShift => Some(Axis::Down),
        Key::Other => None,
    }
}

impl Key {
    /// The axis this key controls, or `None` for a key the camera ignores.
    pub fn axis(self) -> (r: Option<Axis>)
        ensures
            r == axis_of(self),
    {
        match self {
            Key::W | Key::Up => Some(Axis::Forward),
            Key::S | Key::Down => Some(Axis::Backward),
            Key::A | Key::Left => Some(Axis::Left),
            Key::D | Key::Right => Some(Axis::Right),
            Key::Space => Some(Axis::Up),
            Key::LShift => Some(Axis::Down),
            Key::Other => None,
        }
    }
}

} // verus!
