//! The kinds of audio cue a sequence can ask for.

use vstd::prelude::*;

verus! {

/// What a sequence sounds like: nothing, a bell when a workout expires, or
/// beeps that count the last seconds in.
#[derive(Clone, Copy, Debug, PartialEq, Eq, Hash, Structural)]
pub enum Sound {
    Silent,
    Bell,
    Beep,
}

impl Sound {
    pub open spec fn name_text(self) -> Seq<char> {
        match self {
            Sound::Silent => "Silent"@,
            Sound::Bell => "Bell"@,
            Sound::Beep => "Beep"@,
        }
    }

    pub fn is_silent(&self) -> (silent: bool)
        ensures
            silent == (*self == Sound::Silent),
    {
        matches!(self, Sound::Silent)
    }

    /// The cue that rings when a workout expires.
    pub fn is_bell(&self) -> (bell: bool)
        ensures
            bell == (*self == Sound::Bell),
    {
        matches!(self, Sound::Bell)
    }

    /// The cue that warns early, during the last seconds.
    pub fn is_beep(&self) -> (beep: bool)
        ensures
            beep == (*self == Sound::Beep),
    {
        matches!(self, Sound::Beep)
    }

    /// The name the host knows the cue by.
    pub fn name(&self) -> (name: &'static str)
        ensures
            name@ == self.name_text(),
    {
        match self {
            Sound::Silent => "Silent",
            Sound::Bell => "Bell",
            Sound::Beep => "Beep",
        }
    }
}

impl Default for Sound {
    fn default() -> (sound: Self)
        ensures
            sound == Sound::Silent,
    {
        Sound::Silent
    }
}

} // verus!
