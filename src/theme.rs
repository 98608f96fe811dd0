use vstd::prelude::*;

verus! {

/// Where the looping theme music stands.
#[derive(Clone, Copy, Debug, PartialEq, Eq, Structural)]
pub struct ThemeState {
    /// A looping instance has been started.
    pub started: bool,
    pub is_playing: bool,
}

impl ThemeState {
    pub fn new() -> (r: ThemeState)
        ensures
            r == (ThemeState { started: false, is_playing: false }),
    {
        ThemeState { started: false, is_playing: false }
    }

    /// Asks for the theme to play. Returns whether the caller must start a
    /// looping instance now: only the first time, so the music is never
    /// layered over itself.
    pub fn play(&mut self) -> (r: bool)
        ensures
            r == !old(self).started,
            final(self).started,
            final(self).is_playing == (old(self).is_playing || !old(self).started),
    {
        if self.started {
            false
        } else {
            self.started = true;
            self.is_playing = true;
            true
        }
    }
}

} // verus!
