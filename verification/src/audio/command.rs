//! Commands the user interface sends to the audio engine.

use vstd::prelude::*;
use crate::library::TrackId;
use crate::time::Duration;

verus! {

#[derive(Debug, Clone, Copy, PartialEq, Eq, Structural)]
pub enum Command {
    Play(TrackId),
    Pause,
    Resume,
    Stop,
    Seek(Duration),
    Shutdown,
}

/// The command that asks the engine to play track `id`.
pub fn play_command(id: TrackId) -> (c: Command)
    ensures
        c == Command::Play(id),
{
    Command::Play(id)
}

/// The command that asks the engine to pause.
pub fn pause_command() -> (c: Command)
    ensures
        c == Command::Pause,
{
    Command::Pause
}

/// The command that asks the engine to resume.
pub fn resume_command() -> (c: Command)
    ensures
        c == Command::Resume,
{
    Command::Resume
}

/// The command that asks the engine to stop.
pub fn stop_command() -> (c: Command)
    ensures
        c == Command::Stop,
{
    Command::Stop
}

/// The command that asks the engine to seek to `position`.
pub fn seek_command(position: Duration) -> (c: Command)
    ensures
        c == Command::Seek(position),
{
    Command::Seek(position)
}

/// The command that asks the engine to leave its loop.
pub fn shutdown_command() -> (c: Command)
    ensures
        c == Command::Shutdown,
{
    Command::Shutdown
}

/// What a command sink hands on for `cmd`: every command as it is, but a
/// shutdown, which only the handle's owner may ask for, is refused.
pub open spec fn forwarded_spec(cmd: Command) -> Option<Command> {
    if cmd == Command::Shutdown {
        None
    } else {
        Some(cmd)
    }
}

/// What a command sink hands on for `cmd`, as [`forwarded_spec`] says.
pub fn forwarded(cmd: Command) -> (c: Option<Command>)
    ensures
        c == forwarded_spec(cmd),
{
    match cmd {
        Command::Shutdown => None,
        other => Some(other),
    }
}

} // verus!
