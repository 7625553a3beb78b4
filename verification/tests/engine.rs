use bangrs::audio::command::Command;
use bangrs::audio::run::{EngineRun, StepInput};
use bangrs::audio::engine::{position_ms, DecodeStep, EngineAction, EngineState, FakeEngine, Playback, Received};
use bangrs::audio::error::AudioError;
use bangrs::audio::negotiate::{ConfigRange, SampleFormat};
use bangrs::event::Event;
use bangrs::library::TrackId;
use bangrs::time::Duration;

fn stereo(min: u32, max: u32) -> ConfigRange {
    ConfigRange { channels: 2, sample_format: SampleFormat::F32, min_rate_hz: min, max_rate_hz: max }
}

fn running(id: u64, rate: u32, frames: u64) -> EngineState {
    EngineState {
        device_rate: rate,
        active: Some(Playback { id: TrackId(id), sample_rate: rate, frames_played: frames }),
        paused: false,
    }
}

#[test]
fn fake_engine_responds_with_scripted_events_on_play() {
    let engine = FakeEngine {
        scripted_events: vec![Event::PlaybackStarted { track_id: TrackId(1) }],
    };
    let received = engine.respond(Some(Command::Play(TrackId(1)))).unwrap();
    assert!(received.contains(&Event::PlaybackStarted { track_id: TrackId(1) }));
    assert_eq!(engine.respond(Some(Command::Shutdown)), None);
}

#[test]
fn fake_engine_answers_every_command_but_shutdown() {
    let engine = FakeEngine {
        scripted_events: vec![Event::PlaybackPaused, Event::FatalError("x".into())],
    };
    assert_eq!(engine.respond(Some(Command::Pause)), Some(engine.scripted_events.clone()));
    assert_eq!(engine.respond(Some(Command::Seek(Duration::zero()))), Some(engine.scripted_events.clone()));
    assert_eq!(engine.respond(None), None);
}

#[test]
fn play_clears_output_and_loads() {
    let s = EngineState::new(48000);
    let (next, acts) = s.on_command(Command::Play(TrackId(3)));
    assert_eq!(next, s);
    assert_eq!(
        acts,
        vec![EngineAction::ClearOutput, EngineAction::StorePosition(0), EngineAction::Load(TrackId(3))]
    );
}

#[test]
fn matching_device_rate_starts_directly() {
    let s = EngineState::new(44100);
    let (next, acts) = s.on_configs(TrackId(3), 44100, &[stereo(44100, 48000)]);
    assert_eq!(next, running(3, 44100, 0));
    assert_eq!(acts, vec![EngineAction::Emit(Event::PlaybackStarted { track_id: TrackId(3) })]);
}

#[test]
fn other_rate_reopens_device_then_starts() {
    let s = EngineState::new(48000);
    let (next, acts) = s.on_configs(TrackId(4), 44100, &[stereo(8000, 96000)]);
    assert_eq!(next, s);
    assert_eq!(acts, vec![EngineAction::Reopen { id: TrackId(4), track_rate_hz: 44100, rate_hz: 44100 }]);
    let (next, acts) = next.on_reopened(TrackId(4), 44100, 44100);
    assert_eq!(next, running(4, 44100, 0));
    assert_eq!(acts, vec![EngineAction::Emit(Event::PlaybackStarted { track_id: TrackId(4) })]);
}

#[test]
fn no_matching_config_fails_the_track() {
    let s = running(1, 48000, 100);
    let (next, acts) = s.on_configs(TrackId(2), 44100, &[stereo(96000, 96000)]);
    assert_eq!(next.active, None);
    assert_eq!(
        acts,
        vec![EngineAction::Emit(Event::TrackFailed {
            track_id: TrackId(2),
            reason: "no cpal config supports rate 44100 Hz; available rates: 96000; track skipped".into(),
        })]
    );
}

#[test]
fn pause_resume_and_stop() {
    let s = running(1, 44100, 10);
    let (paused, acts) = s.on_command(Command::Pause);
    assert!(paused.paused);
    assert_eq!(acts, vec![EngineAction::Emit(Event::PlaybackPaused)]);
    assert_eq!(paused.poll_timeout_ms(), 50);
    let (again, acts) = paused.on_command(Command::Pause);
    assert_eq!(again, paused);
    assert!(acts.is_empty());
    let (resumed, acts) = paused.on_command(Command::Resume);
    assert_eq!(resumed, s);
    assert_eq!(acts, vec![EngineAction::Emit(Event::PlaybackResumed)]);
    assert_eq!(resumed.poll_timeout_ms(), 5);
    let (stopped, acts) = resumed.on_command(Command::Stop);
    assert_eq!(stopped, EngineState::new(44100));
    assert_eq!(
        acts,
        vec![EngineAction::ClearOutput, EngineAction::StorePosition(0), EngineAction::Emit(Event::PlaybackStopped)]
    );
    let (idle, acts) = stopped.on_command(Command::Stop);
    assert_eq!(idle, stopped);
    assert!(acts.is_empty());
}

#[test]
fn shutdown_timeout_and_disconnect() {
    let s = EngineState::new(48000);
    assert_eq!(s.on_receive(Received::Command(Command::Shutdown)).1, vec![EngineAction::Exit]);
    assert_eq!(s.on_receive(Received::TimedOut), (s, vec![]));
    assert_eq!(s.on_receive(Received::Disconnected).1, vec![EngineAction::Exit]);
    assert!(s.on_receive(Received::Command(Command::Seek(Duration::from_secs(1)))).1.is_empty());
}

#[test]
fn failures_while_loading_are_reported() {
    let s = running(1, 48000, 5);
    let (next, acts) = s.on_track_missing(TrackId(9));
    assert_eq!(next, s);
    assert_eq!(
        acts,
        vec![EngineAction::Emit(Event::TrackFailed { track_id: TrackId(9), reason: "track not in library".into() })]
    );
    let (next, acts) = s.on_open_failed(TrackId(9), "no such file".into());
    assert_eq!(next.active, None);
    assert_eq!(
        acts,
        vec![EngineAction::Emit(Event::TrackFailed { track_id: TrackId(9), reason: "no such file".into() })]
    );
    let (next, acts) = s.on_device_query_failed(TrackId(9), &AudioError::Output("gone".into()));
    assert_eq!(next.active, None);
    assert_eq!(
        acts,
        vec![EngineAction::Emit(Event::TrackFailed {
            track_id: TrackId(9),
            reason: "device error: output device error: gone".into(),
        })]
    );
    let (_, acts) = s.on_reopen_failed(&AudioError::Output("busy".into()));
    assert_eq!(
        acts,
        vec![EngineAction::Emit(Event::FatalError("output device error: busy".into())), EngineAction::Exit]
    );
}

#[test]
fn decoding_counts_frames_and_ends_tracks() {
    let s = running(2, 48000, 0);
    assert_eq!(s.decode_target(2), Some(24000));
    let (s, acts) = s.on_decoded(DecodeStep::Wrote(4800));
    assert!(acts.is_empty());
    assert_eq!(s.active.unwrap().frames_played, 4800);
    assert_eq!(
        s.position_report(10),
        vec![EngineAction::StorePosition(100)]
    );
    assert_eq!(
        s.position_report(200),
        vec![EngineAction::StorePosition(100), EngineAction::Emit(Event::PositionUpdate { ms: 100 })]
    );
    let (ended, acts) = s.on_decoded(DecodeStep::EndOfStream);
    assert_eq!(ended.active, None);
    assert_eq!(acts, vec![EngineAction::Emit(Event::TrackEnded { track_id: TrackId(2) })]);
    assert_eq!(ended.decode_target(2), None);
    assert!(ended.position_report(500).is_empty());
    let (failed, acts) = s.on_decoded(DecodeStep::Failed("bad".into()));
    assert_eq!(failed.active, None);
    assert_eq!(acts, vec![EngineAction::Emit(Event::TrackFailed { track_id: TrackId(2), reason: "bad".into() })]);
}

#[test]
fn paused_engine_neither_decodes_nor_reports() {
    let (paused, _) = running(2, 48000, 96000).on_command(Command::Pause);
    assert_eq!(paused.decode_target(2), None);
    assert!(paused.position_report(1000).is_empty());
}

#[test]
fn position_formula_saturates_and_guards_zero_rate() {
    assert_eq!(position_ms(44100, 44100), 1000);
    assert_eq!(position_ms(22050, 44100), 500);
    assert_eq!(position_ms(7, 0), 7000);
    assert_eq!(position_ms(u64::MAX, 1), u64::MAX);
    assert_eq!(position_ms(u64::MAX / 10, 1000), u64::MAX / 1000);
}

#[test]
fn output_failure_is_fatal_and_ends_the_loop() {
    let err = AudioError::Output("no default output device".into());
    let acts = EngineState::on_output_failed(&err);
    assert_eq!(acts, vec![EngineAction::Emit(Event::FatalError(err.message())), EngineAction::Exit]);
}

#[test]
fn events_of_a_run_come_in_order() {
    let mut events: Vec<EngineAction> = Vec::new();
    let s = EngineState::new(48_000);
    // Pausing, resuming or stopping before any start reports nothing.
    for cmd in [Command::Pause, Command::Resume, Command::Stop] {
        let (next, acts) = s.on_receive(Received::Command(cmd));
        assert_eq!(next, s);
        assert!(acts.is_empty());
    }
    let (s, acts) = s.on_receive(Received::Command(Command::Play(TrackId(2))));
    events.extend(acts);
    let (s, acts) = s.on_configs(TrackId(2), 48_000, &[stereo(44_100, 96_000)]);
    events.extend(acts);
    let (s, acts) = s.on_receive(Received::Command(Command::Pause));
    events.extend(acts);
    let (s, acts) = s.on_receive(Received::Command(Command::Pause));
    assert!(acts.is_empty());
    let (s, acts) = s.on_receive(Received::Command(Command::Resume));
    events.extend(acts);
    let (s, acts) = s.on_receive(Received::Command(Command::Stop));
    events.extend(acts);
    let (_, acts) = s.on_receive(Received::Command(Command::Shutdown));
    events.extend(acts);
    assert_eq!(
        events,
        vec![
            EngineAction::ClearOutput,
            EngineAction::StorePosition(0),
            EngineAction::Load(TrackId(2)),
            EngineAction::Emit(Event::PlaybackStarted { track_id: TrackId(2) }),
            EngineAction::Emit(Event::PlaybackPaused),
            EngineAction::Emit(Event::PlaybackResumed),
            EngineAction::ClearOutput,
            EngineAction::StorePosition(0),
            EngineAction::Emit(Event::PlaybackStopped),
            EngineAction::Exit,
        ]
    );
}

#[test]
fn decoding_without_an_active_track_does_nothing() {
    let s = EngineState::new(44_100);
    assert_eq!(s.on_decoded(DecodeStep::EndOfStream), (s, vec![]));
}

#[test]
fn engine_run_steps_and_stops_at_exit() {
    let mut run = EngineRun::new(48_000);
    let acts = run.step(StepInput::Received(Received::Command(Command::Play(TrackId(4)))));
    assert_eq!(acts.last(), Some(&EngineAction::Load(TrackId(4))));
    let acts = run.step(StepInput::Configs(TrackId(4), 48_000, vec![stereo(44_100, 96_000)]));
    assert_eq!(acts, vec![EngineAction::Emit(Event::PlaybackStarted { track_id: TrackId(4) })]);
    assert!(run.state().active.is_some());
    let acts = run.step(StepInput::Decoded(DecodeStep::Wrote(4_800)));
    assert!(acts.is_empty());
    let acts = run.step(StepInput::PositionReport(250));
    assert_eq!(
        acts,
        vec![EngineAction::StorePosition(100), EngineAction::Emit(Event::PositionUpdate { ms: 100 })]
    );
    let acts = run.step(StepInput::Decoded(DecodeStep::EndOfStream));
    assert_eq!(acts, vec![EngineAction::Emit(Event::TrackEnded { track_id: TrackId(4) })]);
    assert_eq!(run.state().active, None);
    let acts = run.step(StepInput::Received(Received::Disconnected));
    assert_eq!(acts, vec![EngineAction::Exit]);
}
