//! Whether the timer is counting.

use vstd::prelude::*;

verus! {

#[derive(Clone, Copy, Debug, PartialEq, Eq, Hash, Structural)]
pub enum Status {
    Paused,
    Running,
}

impl Status {
    /// The other status.
    pub open spec fn flipped(self) -> Self {
        match self {
            Status::Paused => Status::Running,
            Status::Running => Status::Paused,
        }
    }

    pub open spec fn icon_text(self) -> Seq<char> {
        match self {
            Status::Paused => "🛑"@,
            Status::Running => "🟢"@,
        }
    }

    /// Switches to the other status.
    pub fn toggle(&mut self) -> (same: &mut Self)
        ensures
            *same == old(self).flipped(),
            *final(self) == *final(same),
    {
        *self = self.next();
        self
    }

    /// The status a toggle would switch to.
    #[must_use]
    pub fn next(&self) -> (next: Self)
        ensures
            next == self.flipped(),
    {
        match self {
            Status::Paused => Status::Running,
            Status::Running => Status::Paused,
        }
    }

    #[must_use]
    pub fn paused(&self) -> (paused: bool)
        ensures
            paused == (*self == Status::Paused),
    {
        matches!(self, Status::Paused)
    }

    #[must_use]
    pub fn running(&self) -> (running: bool)
        ensures
            running == (*self == Status::Running),
    {
        matches!(self, Status::Running)
    }

    pub fn to_string(&self) -> (text: String)
        ensures
            text@ == self.icon_text(),
    {
        match self {
            Status::Paused => "🛑".to_owned(),
            Status::Running => "🟢".to_owned(),
        }
    }
}

impl Default for Status {
    fn default() -> (status: Self)
        ensures
            status == Status::Paused,
    {
        Status::Paused
    }
}

} // verus!
