//! A single bell with a mute switch that only moves when the audio device follows.

use vstd::prelude::*;

verus! {

/// Whether the bell rings. The switch mirrors the device: it changes only
/// when the device has taken the new setting.
#[derive(Clone, Copy, Debug, PartialEq, Eq, Hash, Structural)]
pub enum Bell {
    Enabled,
    Disabled,
}

impl Bell {
    /// The other state.
    pub open spec fn flipped(self) -> Self {
        match self {
            Bell::Enabled => Bell::Disabled,
            Bell::Disabled => Bell::Enabled,
        }
    }

    /// The state that a mute flag asks for.
    pub open spec fn wanted(muted: bool) -> Self {
        if muted {
            Bell::Disabled
        } else {
            Bell::Enabled
        }
    }

    /// What the switch that leads away from this state is called.
    pub open spec fn next_label_text(self) -> Seq<char> {
        match self {
            Bell::Disabled => "Unmute"@,
            Bell::Enabled => "Mute"@,
        }
    }

    /// The bell after the device was asked to be muted as `muted` says:
    /// as asked where the device `applied` the setting, the opposite where
    /// it did not.
    pub fn new(muted: bool, applied: bool) -> (bell: Self)
        ensures
            bell == if applied {
                Bell::wanted(muted)
            } else {
                Bell::wanted(muted).flipped()
            },
    {
        if muted {
            Self::mute(applied)
        } else {
            Self::unmute(applied)
        }
    }

    /// The bell after the device was asked for the other setting: flipped
    /// where the device `applied` it, unchanged where it did not.
    pub fn toggle(&mut self, applied: bool)
        ensures
            *final(self) == if applied {
                old(self).flipped()
            } else {
                *old(self)
            },
    {
        *self = match self {
            Bell::Disabled => Self::unmute(applied),
            Bell::Enabled => Self::mute(applied),
        };
    }

    /// The bell after an attempt to mute the device.
    fn mute(applied: bool) -> (bell: Self)
        ensures
            bell == if applied {
                Bell::Disabled
            } else {
                Bell::Enabled
            },
    {
        if applied {
            Bell::Disabled
        } else {
            Bell::Enabled
        }
    }

    /// The bell after an attempt to take the mute off the device.
    fn unmute(applied: bool) -> (bell: Self)
        ensures
            bell == if applied {
                Bell::Enabled
            } else {
                Bell::Disabled
            },
    {
        if applied {
            Bell::Enabled
        } else {
            Bell::Disabled
        }
    }

    /// Whether a ring is to be played: only while the bell is enabled.
    pub fn ring(&self) -> (play: bool)
        ensures
            play == (*self == Bell::Enabled),
    {
        matches!(self, Bell::Enabled)
    }

    /// A ring that is played whatever the switch says. Returns whether the
    /// device's mute has to be lifted for it: only while the bell is disabled.
    pub fn always_ring(&self) -> (lift_mute: bool)
        ensures
            lift_mute == (*self == Bell::Disabled),
    {
        matches!(self, Bell::Disabled)
    }

    pub fn next_label(&self) -> (label: String)
        ensures
            label@ == self.next_label_text(),
    {
        match self {
            Bell::Disabled => "Unmute".to_owned(),
            Bell::Enabled => "Mute".to_owned(),
        }
    }
}

impl Default for Bell {
    fn default() -> (bell: Self)
        ensures
            bell == Bell::Enabled,
    {
        Bell::Enabled
    }
}

} // verus!
