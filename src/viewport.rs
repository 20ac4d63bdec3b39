//! The size of the surface the camera renders to.
use vstd::prelude::*;

verus! {

/// A viewport size in physical pixels; both sides are always positive, so the
/// aspect ratio `width / height` is always defined and never zero.
#[derive(Clone, Copy, Debug, PartialEq, Eq)]
pub struct Viewport {
    width: u32,
    height: u32,
}

impl View for Viewport {
    type V = (u32, u32);

    closed spec fn view(&self) -> (u32, u32) {
        (self.width, self.height)
    }
}

/// A size that a viewport can take: neither side is zero.
pub open spec fn usable(width: u32, height: u32) -> bool {
    width > 0 && height > 0
}

impl Viewport {
    #[verifier::type_invariant]
    spec fn positive(self) -> bool {
        usable(self.width, self.height)
    }

    /// A viewport of the given size, or `None` when a side is zero.
    pub fn new(width: u32, height: u32) -> (r: Option<Viewport>)
        ensures
            r.is_some() == usable(width, height),
            r.is_some() ==> r.unwrap()@ == (width, height),
    {
        if width > 0 && height > 0 {
            Some(Viewport { width, height })
        } else {
            None
        }
    }

    /// Takes the new size of the surface. A size with a zero side is ignored,
    /// which keeps the aspect ratio as it was. Returns whether the size was
    /// taken.
    pub fn resize(&mut self, width: u32, height: u32) -> (taken: bool)
        ensures
            taken == usable(width, height),
            final(self)@ == if taken { (width, height) } else { old(self)@ },
    {
        if width > 0 && height > 0 {
            *self = Viewport { width, height };
            true
        } else {
            false
        }
    }

    /// The width in pixels.
    pub fn width(&self) -> (r: u32)
        ensures
            r == self@.0,
            r > 0,
    {
        proof {
            use_type_invariant(self);
        }
        self.width
    }

    /// The height in pixels.
    pub fn height(&self) -> (r: u32)
        ensures
            r == self@.1,
            r > 0,
    {
        proof {
            use_type_invariant(self);
        }
        self.height
    }
}

} // verus!
