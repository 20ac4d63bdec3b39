//! The input accumulator: held directions plus the one-shot look and scroll
//! deltas that wait for the next frame.
use vstd::prelude::*;

use crate::intents::MoveIntents;
use crate::keys::{axis_of, Key};

verus! {

/// What one frame is to do with the camera.
///
/// `forward`, `right` and `up` are the net movement along each axis, each in
/// `-1..=1`; `look` is the mouse delta to turn the view by and `scroll` the
/// wheel delta to move along the view direction by, when there is one.
#[derive(Debug, PartialEq, Eq)]
pub struct Frame<L, S> {
    pub forward: i8,
    pub right: i8,
    pub up: i8,
    pub look: Option<L>,
    pub scroll: Option<S>,
}

impl<L, S> Frame<L, S> {
    /// The frame moves nothing and turns nothing.
    pub open spec fn still(self) -> bool {
        &&& self.forward == 0
        &&& self.right == 0
        &&& self.up == 0
        &&& self.look.is_none()
        &&& self.scroll.is_none()
    }

    /// Whether the frame moves nothing and turns nothing.
    pub fn is_still(&self) -> (r: bool)
        ensures
            r == self.still(),
    {
        self.forward == 0 && self.right == 0 && self.up == 0 && self.look.is_none()
            && self.scroll.is_none()
    }
}

/// Collects input events between two frames.
///
/// `look` and `scroll` hold the latest delta received since the last frame: a
/// newer event of the same kind replaces it, and taking a frame empties both,
/// so each delta acts on exactly one frame.
#[derive(Debug)]
pub struct InputAccumulator<L, S> {
    pub intents: MoveIntents,
    pub look: Option<L>,
    pub scroll: Option<S>,
}

impl<L, S> InputAccumulator<L, S> {
    /// Nothing held and nothing pending.
    pub open spec fn idle(self) -> bool {
        self.intents.none_held() && self.look.is_none() && self.scroll.is_none()
    }

    /// The state after a key event.
    pub open spec fn after_key(self, key: Key, pressed: bool) -> Self {
        InputAccumulator { intents: self.intents.after_key(key, pressed), ..self }
    }

    /// The state after a mouse motion in look mode.
    pub open spec fn after_mouse(self, delta: L) -> Self {
        InputAccumulator { look: Some(delta), ..self }
    }

    /// The state after a wheel event.
    pub open spec fn after_scroll(self, delta: S) -> Self {
        InputAccumulator { scroll: Some(delta), ..self }
    }

    /// The state after a frame has been taken: the held directions stay and
    /// the one-shot deltas are gone.
    pub open spec fn after_frame(self) -> Self {
        InputAccumulator { look: None, scroll: None, ..self }
    }

    /// The frame this state hands out.
    pub open spec fn frame_matches(self, f: Frame<L, S>) -> bool {
        &&& f.forward as int == self.intents.forward_spec()
        &&& f.right as int == self.intents.right_spec()
        &&& f.up as int == self.intents.up_spec()
        &&& f.look == self.look
        &&& f.scroll == self.scroll
    }

    /// An accumulator with nothing held and nothing pending.
    pub fn new() -> (r: Self)
        ensures
            r.idle(),
    {
        InputAccumulator { intents: MoveIntents::new(), look: None, scroll: None }
    }

    /// Applies a key event; returns whether the key controls the camera.
    pub fn process_keyboard(&mut self, key: Key, pressed: bool) -> (handled: bool)
        ensures
            handled == axis_of(key).is_some(),
            *final(self) == old(self).after_key(key, pressed),
    {
        self.intents.process_keyboard(key, pressed)
    }

    /// Records a mouse delta to turn the view by, replacing any pending one.
    pub fn process_mouse(&mut self, delta: L)
        ensures
            *final(self) == old(self).after_mouse(delta),
    {
        self.look = Some(delta);
    }

    /// Records a wheel delta, replacing any pending one.
    pub fn process_scroll(&mut self, delta: S)
        ensures
            *final(self) == old(self).after_scroll(delta),
    {
        self.scroll = Some(delta);
    }

    /// Hands out what the coming frame is to do and consumes the pending
    /// look and scroll deltas.
    pub fn take_frame(&mut self) -> (f: Frame<L, S>)
        ensures
            old(self).frame_matches(f),
            *final(self) == old(self).after_frame(),
    {
        let forward = self.intents.net_forward();
        let right = self.intents.net_right();
        let up = self.intents.net_up();
        let look = self.look.take();
        let scroll = self.scroll.take();
        Frame { forward, right, up, look, scroll }
    }
}

/// With nothing held and nothing pending, the frame handed out is still and
/// taking it changes nothing.
pub proof fn lemma_idle_frame_is_still<L, S>(acc: InputAccumulator<L, S>, f: Frame<L, S>)
    requires
        acc.idle(),
        acc.frame_matches(f),
    ensures
        f.still(),
        acc.after_frame() == acc,
{
}

/// A mouse delta turns the view in the next frame only: the frame after that,
/// with no new mouse event, carries no look delta.
pub proof fn lemma_look_applies_once<L, S>(
    acc: InputAccumulator<L, S>,
    delta: L,
    first: Frame<L, S>,
    second: Frame<L, S>,
)
    requires
        acc.after_mouse(delta).frame_matches(first),
        acc.after_mouse(delta).after_frame().frame_matches(second),
    ensures
        first.look == Some(delta),
        second.look.is_none(),
{
}

/// A wheel delta moves the camera in the next frame only, and taking that
/// frame leaves no scroll pending.
pub proof fn lemma_scroll_applies_once<L, S>(acc: InputAccumulator<L, S>, delta: S, f: Frame<L, S>)
    requires
        acc.after_scroll(delta).frame_matches(f),
    ensures
        f.scroll == Some(delta),
        acc.after_scroll(delta).after_frame().scroll.is_none(),
{
}

/// Of two mouse deltas received before a frame, the later one counts.
pub proof fn lemma_latest_look_wins<L, S>(acc: InputAccumulator<L, S>, d1: L, d2: L)
    ensures
        acc.after_mouse(d1).after_mouse(d2) == acc.after_mouse(d2),
{
}

} // verus!
