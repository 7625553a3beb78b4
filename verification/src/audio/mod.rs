//! Audio: playback commands, errors, configuration negotiation and the
//! decisions of the audio engine.

pub mod negotiate;
pub mod command;
pub mod error;
pub mod engine;
pub mod decode;
pub mod device;
pub mod protocol;
pub mod run;
