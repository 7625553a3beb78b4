//! The user interface's handle on the audio engine: it queues commands
//! without blocking and reads the position the engine publishes.

use vstd::prelude::*;
use std::sync::Arc;
use std::sync::atomic::{AtomicU64, Ordering};
use std::sync::mpsc::SyncSender;
use crate::audio::command::{
    Command, pause_command, play_command, resume_command, seek_command, shutdown_command, stop_command,
};
use crate::audio::error::HandleError;
use crate::time::{Duration, NANOS_PER_MILLI};

verus! {

#[verifier::external_type_specification]
#[verifier::external_body]
#[verifier::reject_recursive_types(T)]
pub struct ExSyncSender<T>(SyncSender<T>);

/// `Clone` of `std::sync::mpsc::SyncSender`: a further sender on the same
/// queue. The queue is not part of the model, so nothing is claimed of the
/// result.
pub assume_specification<T>[ <SyncSender<T> as Clone>::clone ](s: &SyncSender<T>) -> SyncSender<T>;

/// What became of a command offered to the engine's queue.
#[derive(Debug, Clone, Copy, PartialEq, Eq, Structural)]
pub enum SendOutcome {
    Queued,
    Full,
    Disconnected,
}

/// Offers `cmd` to the queue behind `tx` without blocking, through
/// `std::sync::mpsc::SyncSender::try_send`, and tells its three outcomes
/// apart. Which one comes depends on the queue's state and on whether the
/// receiver still exists, so nothing is claimed of it.
#[verifier::external_body]
fn try_send(tx: &SyncSender<Command>, cmd: Command) -> SendOutcome {
    match tx.try_send(cmd) {
        Ok(()) => SendOutcome::Queued,
        Err(std::sync::mpsc::TrySendError::Full(_)) => SendOutcome::Full,
        Err(std::sync::mpsc::TrySendError::Disconnected(_)) => SendOutcome::Disconnected,
    }
}

/// What a send reports for each outcome: success when queued, a full queue,
/// or a closed engine thread.
pub open spec fn outcome_result(o: SendOutcome) -> Result<(), HandleError> {
    match o {
        SendOutcome::Queued => Ok(()),
        SendOutcome::Full => Err(HandleError::QueueFull),
        SendOutcome::Disconnected => Err(HandleError::ThreadClosed),
    }
}

/// What a send reports for outcome `o`, as [`outcome_result`] says.
pub fn send_result(o: SendOutcome) -> (r: Result<(), HandleError>)
    ensures
        r == outcome_result(o),
{
    match o {
        SendOutcome::Queued => Ok(()),
        SendOutcome::Full => Err(HandleError::QueueFull),
        SendOutcome::Disconnected => Err(HandleError::ThreadClosed),
    }
}

/// Offers `cmd`, unchanged, to the engine's queue and reports the outcome
/// as [`send_result`] maps it. The queue is shared with the engine's thread
/// and is not modelled, so which outcome comes is left open.
fn send(tx: &SyncSender<Command>, cmd: Command) -> (r: Result<(), HandleError>)
    ensures
        exists|o: SendOutcome| r == outcome_result(o),
{
    let o = try_send(tx, cmd);
    send_result(o)
}

/// The position the engine last published, in milliseconds.
fn published_millis(cell: &AtomicU64) -> u64 {
    cell.load(Ordering::Relaxed)
}

#[derive(Clone)]
pub struct PlayerHandle {
    tx: SyncSender<Command>,
    position: Arc<AtomicU64>,
}

impl PlayerHandle {
    /// The queue the handle sends on.
    pub closed spec fn sender(&self) -> SyncSender<Command> {
        self.tx
    }

    /// Where the engine publishes the position.
    pub closed spec fn position_cell(&self) -> Arc<AtomicU64> {
        self.position
    }

    /// A handle that queues commands on `tx` and reads the position the
    /// engine publishes in `position`, in milliseconds.
    pub fn new(tx: SyncSender<Command>, position: Arc<AtomicU64>) -> (h: PlayerHandle)
        ensures
            h.sender() == tx,
            h.position_cell() == position,
    {
        PlayerHandle { tx, position }
    }

    /// Asks the engine to play track `track_id`: offers the command
    /// [`play_command`] builds. The result is the queue's answer, as
    /// [`send_result`] maps it; the queue is not modelled, so the contract
    /// says neither which answer comes nor that the command was queued.
    pub fn play(&self, track_id: crate::library::TrackId) -> (r: Result<(), HandleError>)
        ensures
            exists|o: SendOutcome| r == outcome_result(o),
    {
        send(&self.tx, play_command(track_id))
    }

    /// Asks the engine to pause: offers the command [`pause_command`]
    /// builds. The result is the queue's answer, as for [`Self::play`].
    pub fn pause(&self) -> (r: Result<(), HandleError>)
        ensures
            exists|o: SendOutcome| r == outcome_result(o),
    {
        send(&self.tx, pause_command())
    }

    /// Asks the engine to resume: offers the command [`resume_command`]
    /// builds. The result is the queue's answer, as for [`Self::play`].
    pub fn resume(&self) -> (r: Result<(), HandleError>)
        ensures
            exists|o: SendOutcome| r == outcome_result(o),
    {
        send(&self.tx, resume_command())
    }

    /// Asks the engine to stop: offers the command [`stop_command`] builds.
    /// The result is the queue's answer, as for [`Self::play`].
    pub fn stop(&self) -> (r: Result<(), HandleError>)
        ensures
            exists|o: SendOutcome| r == outcome_result(o),
    {
        send(&self.tx, stop_command())
    }

    /// Asks the engine to seek to `position`: offers the command
    /// [`seek_command`] builds. The result is the queue's answer, as for
    /// [`Self::play`].
    pub fn seek(&self, position: Duration) -> (r: Result<(), HandleError>)
        ensures
            exists|o: SendOutcome| r == outcome_result(o),
    {
        send(&self.tx, seek_command(position))
    }

    /// Offers `cmd`, unchanged, to the engine's queue. The result is the
    /// queue's answer, as for [`Self::play`]: the contract says only that it
    /// is one of the answers [`outcome_result`] maps.
    pub fn offer(&self, cmd: Command) -> (r: Result<(), HandleError>)
        ensures
            exists|o: SendOutcome| r == outcome_result(o),
    {
        send(&self.tx, cmd)
    }

    /// The position the engine last published: a whole number of
    /// milliseconds.
    pub fn position(&self) -> (d: Duration)
        ensures
            d@ % (NANOS_PER_MILLI as nat) == 0,
            d@ / (NANOS_PER_MILLI as nat) <= u64::MAX,
    {
        let ms = published_millis(&self.position);
        let d = Duration::from_millis(ms);
        assert(d@ % (NANOS_PER_MILLI as nat) == 0 && d@ / (NANOS_PER_MILLI as nat) == ms) by (nonlinear_arith)
            requires
                d@ == ms * NANOS_PER_MILLI,
        ;
        d
    }

    /// Asks the engine to shut down, giving up the handle: offers the command
    /// [`shutdown_command`] builds. The result is the queue's answer, as for
    /// [`Self::play`].
    pub fn shutdown(self) -> (r: Result<(), HandleError>)
        ensures
            exists|o: SendOutcome| r == outcome_result(o),
    {
        send(&self.tx, shutdown_command())
    }
}

} // verus!
