//! The mute switch between the engine and the audio device.

use crate::errors::ErrorKind;
use crate::player::{is_answer_to, Player};
use crate::sound::Sound;
use vstd::prelude::*;

verus! {

#[derive(Clone, Copy, Debug, PartialEq, Eq, Hash, Structural)]
pub enum SoundState {
    Enabled,
    Disabled,
}

impl SoundState {
    /// The other state.
    pub open spec fn flipped(self) -> Self {
        match self {
            SoundState::Disabled => SoundState::Enabled,
            SoundState::Enabled => SoundState::Disabled,
        }
    }

    /// The state that a mute flag asks for.
    pub open spec fn of_muted(muted: bool) -> Self {
        if muted {
            SoundState::Disabled
        } else {
            SoundState::Enabled
        }
    }

    pub open spec fn icon_text(self) -> Seq<char> {
        match self {
            SoundState::Enabled => "🔊"@,
            SoundState::Disabled => "🔇"@,
        }
    }

    /// What a switch that leads away from this state is called.
    pub open spec fn next_title_text(self) -> Seq<char> {
        match self {
            SoundState::Enabled => "Disable sound"@,
            SoundState::Disabled => "Enable sound"@,
        }
    }

    pub fn toggle(&mut self)
        ensures
            *final(self) == old(self).flipped(),
    {
        *self = self.next();
    }

    #[must_use]
    pub fn next(&self) -> (next: Self)
        ensures
            next == self.flipped(),
    {
        match self {
            SoundState::Disabled => SoundState::Enabled,
            SoundState::Enabled => SoundState::Disabled,
        }
    }

    #[must_use]
    pub fn next_title(&self) -> (title: String)
        ensures
            title@ == self.next_title_text(),
    {
        match self.next() {
            SoundState::Disabled => "Disable sound".to_owned(),
            SoundState::Enabled => "Enable sound".to_owned(),
        }
    }

    #[must_use]
    pub fn enabled(&self) -> (enabled: bool)
        ensures
            enabled == (*self == SoundState::Enabled),
    {
        matches!(self, SoundState::Enabled)
    }

    #[must_use]
    pub fn disabled(&self) -> (disabled: bool)
        ensures
            disabled == (*self == SoundState::Disabled),
    {
        matches!(self, SoundState::Disabled)
    }

    pub fn to_string(&self) -> (text: String)
        ensures
            text@ == self.icon_text(),
    {
        match self {
            SoundState::Enabled => "🔊".to_owned(),
            SoundState::Disabled => "🔇".to_owned(),
        }
    }
}

impl Default for SoundState {
    fn default() -> (state: Self)
        ensures
            state == SoundState::Enabled,
    {
        SoundState::Enabled
    }
}

/// The one mute switch of a timer. Cues pass through it on their way to the device.
#[derive(Clone, Copy, Debug, PartialEq, Eq, Hash, Structural)]
pub struct SoundSignal {
    state: SoundState,
}

impl View for SoundSignal {
    type V = SoundState;

    closed spec fn view(&self) -> SoundState {
        self.state
    }
}

impl SoundSignal {
    #[must_use]
    pub fn from_muted(muted: bool) -> (signal: Self)
        ensures
            signal@ == SoundState::of_muted(muted),
    {
        let state = if muted {
            SoundState::Disabled
        } else {
            SoundState::Enabled
        };
        Self::new(state)
    }

    pub fn new(state: SoundState) -> (signal: Self)
        ensures
            signal@ == state,
    {
        SoundSignal { state }
    }

    pub fn toggle(&mut self)
        ensures
            final(self)@ == old(self)@.flipped(),
    {
        self.state.toggle();
    }

    /// Hands the cue to the device unless the switch is off. Returns what the
    /// device answered to that cue, or nothing when it was not asked. A
    /// failure to play is for the caller to log, never to act upon.
    pub fn ring<P: Player>(&self, sound: &Sound, player: &P) -> (answer: Option<
        Result<(), ErrorKind>,
    >)
        ensures
            answer is Some <==> self@ == SoundState::Enabled,
            match answer {
                Some(given) => is_answer_to(player, *sound, given),
                None => true,
            },
    {
        if self.enabled() {
            Some(player.play(sound))
        } else {
            None
        }
    }

    /// Hands the cue to the device whatever the switch says, and returns the
    /// device's answer.
    pub fn always_ring<P: Player>(&self, sound: &Sound, player: &P) -> (answer: Result<
        (),
        ErrorKind,
    >)
        ensures
            is_answer_to(player, *sound, answer),
    {
        player.play(sound)
    }

    #[must_use]
    pub fn state(&self) -> (state: SoundState)
        ensures
            state == self@,
    {
        self.state
    }

    /// The state a toggle would switch to.
    #[must_use]
    pub fn next(&self) -> (next: SoundState)
        ensures
            next == self@.flipped(),
    {
        self.state.next()
    }

    #[must_use]
    pub fn enabled(&self) -> (enabled: bool)
        ensures
            enabled == (self@ == SoundState::Enabled),
    {
        self.state.enabled()
    }

    #[must_use]
    pub fn disabled(&self) -> (disabled: bool)
        ensures
            disabled == (self@ == SoundState::Disabled),
    {
        !self.enabled()
    }
}

impl Default for SoundSignal {
    fn default() -> (signal: Self)
        ensures
            signal@ == SoundState::Enabled,
    {
        SoundSignal { state: SoundState::Enabled }
    }
}

} // verus!
