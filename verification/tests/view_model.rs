use std::sync::Arc;

use bangrs::event::Event;
use bangrs::library::{Library, Track, TrackId};
use bangrs::time::Duration;
use bangrs::view_model::ViewModel;

fn sample_track(id: u64) -> Track {
    Track {
        id: TrackId(id),
        path: format!("/tmp/{id}.wav"),
        title: format!("t{id}"),
        artist: None,
        album: None,
        duration: Duration::from_secs(1),
        sample_rate: 44100,
        channels: 2,
        replay_gain_mdb: None,
    }
}

#[test]
fn default_is_empty() {
    let vm = ViewModel::default();
    assert!(!vm.is_playing && !vm.is_paused);
    assert!(vm.current_track.is_none());
    assert_eq!(vm.position_ms, 0);
    assert!(vm.tracks.is_empty());
}

#[test]
fn playback_started_sets_is_playing() {
    let vm = ViewModel::default().apply(&Event::PlaybackStarted { track_id: TrackId(7) });
    assert!(vm.is_playing);
    assert!(!vm.is_paused);
    assert_eq!(vm.current_track, Some(TrackId(7)));
}

#[test]
fn playback_paused_clears_is_playing() {
    let vm = ViewModel { is_playing: true, is_paused: false, ..Default::default() }
        .apply(&Event::PlaybackPaused);
    assert!(!vm.is_playing);
    assert!(vm.is_paused);
}

#[test]
fn playback_stopped_clears_current_track() {
    let vm = ViewModel {
        is_playing: true,
        current_track: Some(TrackId(3)),
        ..Default::default()
    }
    .apply(&Event::PlaybackStopped);
    assert!(!vm.is_playing);
    assert!(vm.current_track.is_none());
}

#[test]
fn track_failed_sets_error_banner() {
    let vm = ViewModel::default().apply(&Event::TrackFailed {
        track_id: TrackId(1),
        reason: "decode error".into(),
    });
    assert_eq!(vm.error_banner.as_deref(), Some("decode error"));
}

#[test]
fn position_update_sets_position_ms() {
    let vm = ViewModel::default().apply(&Event::PositionUpdate { ms: 12_345 });
    assert_eq!(vm.position_ms, 12_345);
}

#[test]
fn set_library_populates_tracks() {
    let lib = Arc::new(Library::new(vec![sample_track(1), sample_track(2), sample_track(3)]));
    let vm = ViewModel::default().set_library(lib);
    assert_eq!(vm.tracks.len(), 3);
}

#[test]
fn resume_after_pause_shows_playing() {
    let vm = ViewModel::default()
        .apply(&Event::PlaybackStarted { track_id: TrackId(9) })
        .apply(&Event::PlaybackPaused)
        .apply(&Event::PlaybackResumed);
    assert!(vm.is_playing && !vm.is_paused);
    assert_eq!(vm.current_track, Some(TrackId(9)));
}

#[test]
fn track_end_and_fatal_error_stop_playback() {
    let playing = ViewModel::default()
        .apply(&Event::PlaybackStarted { track_id: TrackId(2) })
        .apply(&Event::PositionUpdate { ms: 900 });
    let ended = playing.clone().apply(&Event::TrackEnded { track_id: TrackId(2) });
    assert!(!ended.is_playing && !ended.is_paused);
    assert_eq!(ended.current_track, None);
    assert_eq!(ended.position_ms, 0);
    let fatal = playing.apply(&Event::FatalError("no device".into()));
    assert!(!fatal.is_playing && !fatal.is_paused);
    assert_eq!(fatal.error_banner.as_deref(), Some("no device"));
    assert_eq!(fatal.current_track, Some(TrackId(2)));
}

#[test]
fn events_never_touch_the_track_list() {
    let lib = Arc::new(Library::new(vec![sample_track(1), sample_track(2)]));
    let vm = ViewModel::default().set_library(lib);
    let rows = vm.tracks.clone();
    let vm = vm
        .apply(&Event::PlaybackStarted { track_id: TrackId(1) })
        .apply(&Event::TrackFailed { track_id: TrackId(1), reason: "x".into() });
    assert_eq!(vm.tracks, rows);
}

#[test]
fn set_library_rows_follow_tracks_and_keep_state() {
    let mut t = sample_track(5);
    t.artist = Some("A".into());
    t.duration = Duration::from_millis(61_250);
    let lib = Arc::new(Library::new(vec![t]));
    let before = ViewModel::default().apply(&Event::PositionUpdate { ms: 77 });
    let vm = before.with_banner("old banner".into()).set_library(lib);
    assert_eq!(vm.position_ms, 77);
    assert_eq!(vm.error_banner.as_deref(), Some("old banner"));
    assert_eq!(vm.tracks[0].title, "t5");
    assert_eq!(vm.tracks[0].artist, "A");
    assert_eq!(vm.tracks[0].album, "");
    assert_eq!(vm.tracks[0].duration_ms, 61_250);
}
