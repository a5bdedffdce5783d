//! What can go wrong around the engine. None of it stops a session.

use vstd::prelude::*;
use vstd::string::StringExecFns;

verus! {

#[derive(Debug)]
pub enum ErrorKind {
    /// The host platform failed before the audio device was reached.
    RuntimeError(String),
    /// The audio device was there and refused to play.
    PlayerError(String),
    /// No sequence goes by the identifier that was asked for.
    InvalidSequence,
}

impl ErrorKind {
    pub open spec fn message_text(self) -> Seq<char> {
        match self {
            ErrorKind::RuntimeError(detail) => "Runtime error: "@ + detail@,
            ErrorKind::PlayerError(detail) => "Player error: "@ + detail@,
            ErrorKind::InvalidSequence => "Invalid sequence"@,
        }
    }

    /// The error in words.
    pub fn to_string(&self) -> (text: String)
        ensures
            text@ == self.message_text(),
    {
        match self {
            ErrorKind::RuntimeError(detail) => {
                let mut text = "Runtime error: ".to_owned();
                text.append(detail.as_str());
                text
            },
            ErrorKind::PlayerError(detail) => {
                let mut text = "Player error: ".to_owned();
                text.append(detail.as_str());
                text
            },
            ErrorKind::InvalidSequence => "Invalid sequence".to_owned(),
        }
    }
}

} // verus!
