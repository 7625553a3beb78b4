use std::sync::atomic::AtomicU64;
use std::sync::{mpsc, Arc};

use bangrs::audio::command::{
    forwarded, pause_command, play_command, resume_command, seek_command, shutdown_command, stop_command, Command,
};
use bangrs::audio::error::HandleError;
use bangrs::library::TrackId;
use bangrs::time::Duration;
use bangrs::ui::handle::{send_result, PlayerHandle, SendOutcome};
use bangrs::ui::handlers::CommandSink;

fn fresh_handle() -> (PlayerHandle, mpsc::Receiver<Command>) {
    let (tx, rx) = mpsc::sync_channel(32);
    let pos = Arc::new(AtomicU64::new(0));
    (PlayerHandle::new(tx, pos), rx)
}

#[test]
fn play_sends_play_command() {
    let (h, rx) = fresh_handle();
    h.play(TrackId(5)).unwrap();
    assert_eq!(rx.try_recv().unwrap(), Command::Play(TrackId(5)));
}

#[test]
fn pause_sends_pause_command() {
    let (h, rx) = fresh_handle();
    h.pause().unwrap();
    assert_eq!(rx.try_recv().unwrap(), Command::Pause);
}

#[test]
fn position_reads_atomic() {
    let (tx, _rx) = mpsc::sync_channel(32);
    let pos = Arc::new(AtomicU64::new(12_345));
    let h = PlayerHandle::new(tx, pos);
    assert_eq!(h.position(), Duration::from_millis(12_345));
}

#[test]
fn queue_full_returns_error() {
    let (tx, _rx) = mpsc::sync_channel(1);
    let pos = Arc::new(AtomicU64::new(0));
    let h = PlayerHandle::new(tx, pos);
    h.pause().unwrap();
    // Second send fills the queue; third must fail with QueueFull
    assert_eq!(h.pause().err(), Some(HandleError::QueueFull));
}

#[test]
fn every_command_reaches_the_queue_in_order() {
    let (h, rx) = fresh_handle();
    h.resume().unwrap();
    h.stop().unwrap();
    h.seek(Duration::from_secs(4)).unwrap();
    h.shutdown().unwrap();
    assert_eq!(rx.try_recv().unwrap(), Command::Resume);
    assert_eq!(rx.try_recv().unwrap(), Command::Stop);
    assert_eq!(rx.try_recv().unwrap(), Command::Seek(Duration::from_secs(4)));
    assert_eq!(rx.try_recv().unwrap(), Command::Shutdown);
}

#[test]
fn closed_engine_reports_thread_closed() {
    let (h, rx) = fresh_handle();
    drop(rx);
    assert_eq!(h.play(TrackId(1)), Err(HandleError::ThreadClosed));
}

#[test]
fn outcomes_map_to_results() {
    assert_eq!(send_result(SendOutcome::Queued), Ok(()));
    assert_eq!(send_result(SendOutcome::Full), Err(HandleError::QueueFull));
    assert_eq!(send_result(SendOutcome::Disconnected), Err(HandleError::ThreadClosed));
    assert_eq!(HandleError::QueueFull.message(), "command queue full");
    assert_eq!(HandleError::ThreadClosed.message(), "audio thread closed");
}

#[test]
fn handle_as_sink_forwards_but_refuses_shutdown() {
    let (h, rx) = fresh_handle();
    CommandSink::send(&h, Command::Play(TrackId(8))).unwrap();
    assert_eq!(CommandSink::send(&h, Command::Shutdown), Err(HandleError::ThreadClosed));
    assert_eq!(rx.try_recv().unwrap(), Command::Play(TrackId(8)));
    assert!(rx.try_recv().is_err());
}

#[test]
fn sink_forwards_every_command_but_shutdown_unchanged() {
    let (h, rx) = fresh_handle();
    let cmds = [
        Command::Play(TrackId(7)),
        Command::Pause,
        Command::Resume,
        Command::Stop,
        Command::Seek(Duration::from_millis(1_500)),
    ];
    for cmd in cmds {
        assert_eq!(CommandSink::send(&h, cmd), Ok(()));
        assert_eq!(rx.try_recv().unwrap(), cmd);
    }
    assert_eq!(CommandSink::send(&h, Command::Shutdown), Err(HandleError::ThreadClosed));
    assert!(rx.try_recv().is_err());
}

#[test]
fn handle_methods_offer_their_commands() {
    let (h, rx) = fresh_handle();
    h.resume().unwrap();
    h.stop().unwrap();
    h.seek(Duration::from_secs(3)).unwrap();
    h.offer(Command::Pause).unwrap();
    assert_eq!(rx.try_recv().unwrap(), Command::Resume);
    assert_eq!(rx.try_recv().unwrap(), Command::Stop);
    assert_eq!(rx.try_recv().unwrap(), Command::Seek(Duration::from_secs(3)));
    assert_eq!(rx.try_recv().unwrap(), Command::Pause);
    h.shutdown().unwrap();
    assert_eq!(rx.try_recv().unwrap(), Command::Shutdown);
}

#[test]
fn command_builders_and_forwarding() {
    assert_eq!(play_command(TrackId(4)), Command::Play(TrackId(4)));
    assert_eq!(pause_command(), Command::Pause);
    assert_eq!(resume_command(), Command::Resume);
    assert_eq!(stop_command(), Command::Stop);
    assert_eq!(seek_command(Duration::from_millis(9)), Command::Seek(Duration::from_millis(9)));
    assert_eq!(shutdown_command(), Command::Shutdown);
    assert_eq!(forwarded(Command::Pause), Some(Command::Pause));
    assert_eq!(forwarded(Command::Shutdown), None);
}
