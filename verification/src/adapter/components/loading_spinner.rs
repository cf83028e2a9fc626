//! The spinner shown while a screen's data is loading.

use vstd::prelude::*;

verus! {

/// The number of frames of the spinner's animation.
pub const SPINNER_FRAMES: usize = 10;

/// A spinner that turns one frame at each tick.
pub struct LoadingSpinner {
    frame: usize,
}

impl View for LoadingSpinner {
    type V = nat;

    closed spec fn view(&self) -> nat {
        self.frame as nat
    }
}

impl LoadingSpinner {
    /// A spinner on its first frame.
    pub fn new() -> (r: Self)
        ensures
            r@ == 0,
    {
        LoadingSpinner { frame: 0 }
    }

    /// Turns to the next frame, back to the first after the last.
    pub fn tick(&mut self)
        requires
            old(self)@ < SPINNER_FRAMES,
        ensures
            final(self)@ == (old(self)@ + 1) % (SPINNER_FRAMES as nat),
            final(self)@ < SPINNER_FRAMES,
    {
        self.frame = (self.frame + 1) % SPINNER_FRAMES;
    }

    /// The frame shown.
    pub fn frame(&self) -> (r: usize)
        ensures
            r == self@,
    {
        self.frame
    }
}

} // verus!
