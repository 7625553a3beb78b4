//! Errors of the audio side: the output device and decoding, and the
//! handle that sends commands to the engine.

use vstd::prelude::*;
use crate::audio::negotiate::NoMatchingConfig;

verus! {

#[derive(Debug)]
pub enum AudioError {
    Decode(String),
    Output(String),
    UnsupportedFormat(String),
    NoMatchingConfig(NoMatchingConfig),
}

impl AudioError {
    /// The text of the error.
    pub open spec fn message_spec(&self) -> Seq<char> {
        match self {
            AudioError::Decode(s) => "decode failed: "@ + s@,
            AudioError::Output(s) => "output device error: "@ + s@,
            AudioError::UnsupportedFormat(s) => "unsupported format: "@ + s@,
            AudioError::NoMatchingConfig(n) => n.message_spec(),
        }
    }

    /// The text of the error: what failed, then the detail.
    pub fn message(&self) -> (m: String)
        ensures
            m@ == self.message_spec(),
    {
        match self {
            AudioError::Decode(s) => String::from_str("decode failed: ").concat(s.as_str()),
            AudioError::Output(s) => String::from_str("output device error: ").concat(s.as_str()),
            AudioError::UnsupportedFormat(s) => String::from_str("unsupported format: ").concat(s.as_str()),
            AudioError::NoMatchingConfig(n) => n.message(),
        }
    }
}

#[derive(Debug, Clone, Copy, PartialEq, Eq, Structural)]
pub enum HandleError {
    /// The engine's command queue is gone.
    ThreadClosed,
    /// The engine's command queue is full.
    QueueFull,
}

impl HandleError {
    /// The text of the error.
    pub open spec fn message_spec(&self) -> Seq<char> {
        match self {
            HandleError::ThreadClosed => "audio thread closed"@,
            HandleError::QueueFull => "command queue full"@,
        }
    }

    /// The text of the error.
    pub fn message(&self) -> (m: String)
        ensures
            m@ == self.message_spec(),
    {
        match self {
            HandleError::ThreadClosed => String::from_str("audio thread closed"),
            HandleError::QueueFull => String::from_str("command queue full"),
        }
    }
}

} // verus!
