//! Sound effects and the assets that play them.
use vstd::prelude::*;

verus! {

/// A single sound effect to play.
#[derive(Clone, Copy, Debug, PartialEq, Eq)]
pub enum Sfx {
    ButtonHover,
    ButtonPress,
    Step,
}

impl Sfx {
    /// Asset path of each sound effect.
    pub open spec fn spec_path(self) -> Seq<char> {
        match self {
            Sfx::ButtonHover => "audio/sfx/button_hover.ogg"@,
            Sfx::ButtonPress => "audio/sfx/button_press.ogg"@,
            Sfx::Step => "audio/sfx/motorcycle-sound-effects-sfx-179535.ogg"@,
        }
    }

    /// The asset path of this sound effect.
    pub fn path(&self) -> (r: &'static str)
        ensures
            r@ == self.spec_path(),
    {
        match self {
            Sfx::ButtonHover => "audio/sfx/button_hover.ogg",
            Sfx::ButtonPress => "audio/sfx/button_press.ogg",
            Sfx::Step => "audio/sfx/motorcycle-sound-effects-sfx-179535.ogg",
        }
    }
}

} // verus!
