//! Input handling for a free-flying first-person camera.
//!
//! The library keeps the discrete part of the camera controls: which movement
//! keys are held, the look and scroll deltas that wait for the next frame, the
//! look-mode gate and the viewport size. Each frame it hands out a [`Frame`]
//! that says how the camera is to move; the numeric camera model applies it.
pub mod keys;
pub mod intents;
pub mod accumulator;
pub mod viewport;
pub mod input;

pub use keys::{Axis, Key};
pub use intents::MoveIntents;
pub use accumulator::{Frame, InputAccumulator};
pub use viewport::Viewport;
pub use input::{InputEvent, InputState, MouseButton, Response};
