//! Errors of the library model and the playback state machine.

use vstd::prelude::*;
use crate::library::TrackId;
use crate::text::{decimal, push_decimal};

verus! {

#[derive(Debug, Clone, PartialEq)]
pub enum CoreError {
    /// No track of the library has this id.
    UnknownTrack(TrackId),
    /// The playback state machine refused a transition.
    InvalidTransition { from: &'static str, to: &'static str },
}

impl CoreError {
    /// The text of the error.
    pub open spec fn message_spec(&self) -> Seq<char> {
        match self {
            CoreError::UnknownTrack(id) => "track id TrackId("@ + decimal(id.0 as nat) + ") not in library"@,
            CoreError::InvalidTransition { from, to } => "invalid state transition: "@ + from@ + " → "@
                + to@,
        }
    }

    /// The text of the error: the unknown id, or the two states of the
    /// refused transition.
    pub fn message(&self) -> (m: String)
        ensures
            m@ == self.message_spec(),
    {
        match self {
            CoreError::UnknownTrack(id) => {
                let mut m = String::from_str("track id TrackId(");
                push_decimal(&mut m, id.0);
                m.append(") not in library");
                m
            },
            CoreError::InvalidTransition { from, to } => {
                let mut m = String::from_str("invalid state transition: ");
                m.append(from);
                m.append(" → ");
                m.append(to);
                m
            },
        }
    }
}

} // verus!
