//! The audio device, as the engine sees it.

use crate::errors::ErrorKind;
use crate::sound::Sound;
use vstd::prelude::*;

verus! {

/// Whatever can emit the cues. The host implements it; the engine promises
/// nothing about what a device answers and never depends on the answer.
pub trait Player {
    /// Emits the cue.
    fn play(&self, sound: &Sound) -> Result<(), ErrorKind>;

    /// Whether the cue is muted on the device; nothing for a cue the device does not hold.
    fn muted(&self, sound: &Sound) -> Option<Result<bool, ErrorKind>>;

    /// Takes the mute off the cue.
    fn unmute(&self, sound: &Sound) -> Result<(), ErrorKind>;
}

/// `answer` is what `player` answers when it is handed `sound` to play.
pub open spec fn is_answer_to<P: Player>(
    player: &P,
    sound: Sound,
    answer: Result<(), ErrorKind>,
) -> bool {
    call_ensures(P::play, (player, &sound), answer)
}

} // verus!
