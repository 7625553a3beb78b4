use std::sync::Mutex;

use bangrs::audio::command::Command;
use bangrs::audio::error::HandleError;
use bangrs::library::TrackId;
use bangrs::ui::handlers::{activation_command, selection_command, CommandSink};

#[derive(Default)]
struct FakeSink {
    commands: Mutex<Vec<Command>>,
}

impl CommandSink for FakeSink {
    fn send(&self, cmd: Command) -> Result<(), HandleError> {
        self.commands.lock().unwrap().push(cmd);
        Ok(())
    }
}

impl FakeSink {
    fn commands(&self) -> Vec<Command> {
        self.commands.lock().unwrap().clone()
    }
    fn play_count(&self) -> usize {
        self.commands()
            .iter()
            .filter(|c| matches!(c, Command::Play(_)))
            .count()
    }
}

fn activate(sink: &FakeSink, track_ids: &[TrackId], idx: i32) {
    if let Some(cmd) = activation_command(track_ids, idx) {
        let _ = sink.send(cmd);
    }
}

#[test]
fn activation_plays_selected() {
    let fake = FakeSink::default();
    activate(&fake, &[TrackId(100), TrackId(200), TrackId(300)], 1);
    assert_eq!(
        fake.commands(),
        vec![Command::Play(TrackId(200))],
        "activation must emit exactly Command::Play with the selected track"
    );
}

#[test]
fn activation_with_negative_idx_is_noop() {
    let fake = FakeSink::default();
    activate(&fake, &[TrackId(0)], -1);
    assert_eq!(
        fake.play_count(),
        0,
        "negative index (no selection) must not emit Command::Play"
    );
}

#[test]
fn activation_with_oob_idx_is_noop() {
    let fake = FakeSink::default();
    activate(&fake, &[TrackId(0)], 5);
    assert_eq!(
        fake.play_count(),
        0,
        "out-of-bounds index (rebind race) must not emit Command::Play"
    );
}

#[test]
fn activation_of_last_and_first_rows() {
    let ids = [TrackId(10), TrackId(11)];
    assert_eq!(activation_command(&ids, 0), Some(Command::Play(TrackId(10))));
    assert_eq!(activation_command(&ids, 1), Some(Command::Play(TrackId(11))));
    assert_eq!(activation_command(&ids, 2), None);
    assert_eq!(activation_command(&[], 0), None);
}

fn select(sink: &FakeSink, track_ids: &[TrackId], idx: i32) {
    if let Some(cmd) = selection_command(track_ids, idx) {
        let _ = sink.send(cmd);
    }
}

#[test]
fn selection_does_not_play() {
    let fake = FakeSink::default();
    let ids = vec![TrackId(0), TrackId(1), TrackId(2)];
    select(&fake, &ids, 0);
    select(&fake, &ids, 1);
    select(&fake, &ids, 2);
    assert_eq!(fake.play_count(), 0, "selection events must not emit Command::Play");
}

#[test]
fn bind_does_not_play() {
    // Rebinding the list fires selection changes for the new rows.
    let fake = FakeSink::default();
    let ids = vec![TrackId(10), TrackId(11)];
    select(&fake, &ids, 0);
    assert_eq!(fake.play_count(), 0, "current-item-changed firing on rebind must not emit Command::Play");
}

#[test]
fn mixed_list_events_play_only_activated_rows() {
    let fake = FakeSink::default();
    let ids = vec![TrackId(100), TrackId(200)];
    select(&fake, &ids, 1);
    activate(&fake, &ids, 1);
    activate(&fake, &ids, 5);
    select(&fake, &ids, 0);
    activate(&fake, &ids, 0);
    assert_eq!(fake.commands(), vec![Command::Play(TrackId(200)), Command::Play(TrackId(100))]);
}
