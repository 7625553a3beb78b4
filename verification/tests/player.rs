use bangrs::error::CoreError;
use bangrs::library::{Track, TrackId};
use bangrs::player::Player;
use bangrs::time::Duration;

fn sample_track() -> Track {
    Track {
        id: TrackId(1),
        path: "/tmp/1.wav".to_string(),
        title: "t".into(),
        artist: None,
        album: None,
        duration: Duration::from_secs(5),
        sample_rate: 44100,
        channels: 2,
        replay_gain_mdb: None,
    }
}

#[test]
fn new_player_is_stopped() {
    assert_eq!(Player::new(), Player::Stopped);
}

#[test]
fn stopped_loads_to_loaded() {
    let t = sample_track();
    let p = Player::Stopped.load(t.clone()).unwrap();
    assert_eq!(p, Player::Loaded { track: t });
}

#[test]
fn stopped_cannot_play() {
    assert_eq!(
        Player::Stopped.play(),
        Err(CoreError::InvalidTransition { from: "Stopped", to: "Playing" })
    );
}

#[test]
fn loaded_plays_from_position_zero() {
    let t = sample_track();
    let p = Player::Loaded { track: t.clone() }.play().unwrap();
    assert_eq!(p, Player::Playing { track: t, position: Duration::zero() });
}

#[test]
fn paused_resumes_at_saved_position() {
    let t = sample_track();
    let pos = Duration::from_secs(3);
    let p = Player::Paused { track: t.clone(), position: pos }.play().unwrap();
    assert_eq!(p, Player::Playing { track: t, position: pos });
}

#[test]
fn playing_pauses_preserving_position() {
    let t = sample_track();
    let pos = Duration::from_secs(2);
    let p = Player::Playing { track: t.clone(), position: pos }.pause().unwrap();
    assert_eq!(p, Player::Paused { track: t, position: pos });
}

#[test]
fn stop_always_returns_stopped() {
    let t = sample_track();
    assert_eq!(Player::Stopped.stop(), Player::Stopped);
    assert_eq!(Player::Loaded { track: t.clone() }.stop(), Player::Stopped);
    assert_eq!(
        Player::Playing { track: t.clone(), position: Duration::zero() }.stop(),
        Player::Stopped
    );
    assert_eq!(
        Player::Paused { track: t, position: Duration::zero() }.stop(),
        Player::Stopped
    );
}

#[test]
fn advance_on_playing_moves_position() {
    let t = sample_track();
    let p = Player::Playing { track: t.clone(), position: Duration::from_secs(1) }
        .advance(Duration::from_secs(2))
        .unwrap();
    assert_eq!(p, Player::Playing { track: t, position: Duration::from_secs(3) });
}

#[test]
fn advance_on_stopped_is_invalid() {
    assert_eq!(
        Player::Stopped.advance(Duration::from_secs(1)),
        Err(CoreError::InvalidTransition { from: "Stopped", to: "Playing" })
    );
}

#[test]
fn loading_twice_is_refused_naming_both_states() {
    let t = sample_track();
    let loaded = Player::Stopped.load(t.clone()).unwrap();
    assert_eq!(loaded.name(), "Loaded");
    let err = loaded.load(t).unwrap_err();
    assert_eq!(err, CoreError::InvalidTransition { from: "Loaded", to: "Loaded" });
    assert_eq!(err.message(), "invalid state transition: Loaded → Loaded");
}

#[test]
fn pausing_when_not_playing_is_refused() {
    let t = sample_track();
    assert_eq!(
        Player::Paused { track: t, position: Duration::zero() }.pause(),
        Err(CoreError::InvalidTransition { from: "Paused", to: "Paused" })
    );
}

#[test]
fn pause_then_play_restores_playing_state() {
    let t = sample_track();
    let playing = Player::Playing { track: t, position: Duration::from_millis(1500) };
    let again = playing.clone().pause().unwrap().play().unwrap();
    assert_eq!(again, playing);
}

#[test]
fn advancing_in_two_steps_equals_one_step() {
    let t = sample_track();
    let start = Player::Playing { track: t, position: Duration::from_millis(250) };
    let two = start.clone().advance(Duration::from_millis(100)).unwrap().advance(Duration::from_millis(50)).unwrap();
    let one = start.advance(Duration::from_millis(150)).unwrap();
    assert_eq!(two, one);
}

#[test]
fn default_player_is_stopped_and_named() {
    let p = Player::default();
    assert_eq!(p, Player::Stopped);
    assert_eq!(p.name(), "Stopped");
}

#[test]
fn unknown_track_error_text() {
    assert_eq!(CoreError::UnknownTrack(TrackId(42)).message(), "track id TrackId(42) not in library");
}
