//! The decisions of the audio engine.
//!
//! The engine runs a loop on its own thread: it waits for a command (with a
//! timeout), reacts to it, and while a track plays it decodes enough audio to
//! keep the output buffered and reports the position. Waiting, decoding and
//! talking to the device are done by the caller; this module decides what
//! each outcome leads to. Every step takes the engine's state and what just
//! happened, and gives the next state and the actions to carry out, in
//! order.

use vstd::prelude::*;
use crate::audio::command::Command;
use crate::audio::error::AudioError;
use crate::audio::negotiate::{ConfigRange, SampleFormat, negotiate_config, negotiation_result};
use crate::event::Event;
use crate::library::TrackId;
use crate::audio::protocol::{
    step_ok, cause_of, phase_of, lemma_command_step_ok, lemma_step_ok_none, lemma_step_ok_one, lemma_step_ok_two,
};

verus! {

/// The engine that plays through the default output device.
pub struct CpalEngine;

/// What the engine knows of the track it plays.
#[derive(Debug, Clone, Copy, PartialEq, Eq, Structural)]
pub struct Playback {
    pub id: TrackId,
    /// Sample rate of the track's audio, in Hz.
    pub sample_rate: u32,
    /// Frames decoded and written to the output since the track started.
    pub frames_played: u64,
}

/// The engine's state between two steps.
#[derive(Debug, Clone, Copy, PartialEq, Eq, Structural)]
pub struct EngineState {
    /// Sample rate the output device is open at, in Hz.
    pub device_rate: u32,
    /// The track being played, if any.
    pub active: Option<Playback>,
    pub paused: bool,
}

/// What waiting for a command gave.
#[derive(Debug, Clone, Copy, PartialEq, Eq, Structural)]
pub enum Received {
    Command(Command),
    TimedOut,
    Disconnected,
}

/// What one attempt to decode a packet gave.
#[derive(Debug, Clone, PartialEq, Eq)]
pub enum DecodeStep {
    /// This many frames were written to the output (none for a skipped
    /// packet).
    Wrote(u64),
    EndOfStream,
    Failed(String),
}

/// What the caller carries out after a step.
#[derive(Debug, Clone, PartialEq)]
pub enum EngineAction {
    /// Drop the audio buffered for the device.
    ClearOutput,
    /// Publish this position, in milliseconds.
    StorePosition(u64),
    /// Send this event to the user interface.
    Emit(Event),
    /// Look this track up in the library, open it and query the device's
    /// supported configurations.
    Load(TrackId),
    /// Reopen the output device at `rate_hz`, then start the track.
    Reopen { id: TrackId, track_rate_hz: u32, rate_hz: u32 },
    /// Leave the loop.
    Exit,
}

/// `a` reports track `id` as failed with reason `text`.
pub open spec fn reports_failure(a: EngineAction, id: TrackId, text: Seq<char>) -> bool {
    match a {
        EngineAction::Emit(Event::TrackFailed { track_id, reason }) => track_id == id && reason@ == text,
        _ => false,
    }
}

/// `a` reports a fatal error with text `text`.
pub open spec fn reports_fatal(a: EngineAction, text: Seq<char>) -> bool {
    match a {
        EngineAction::Emit(Event::FatalError(msg)) => msg@ == text,
        _ => false,
    }
}

/// The engine is playing and not paused.
pub open spec fn is_running(s: EngineState) -> bool {
    s.active is Some && !s.paused
}

/// The state and actions once track `id` of `track_rate` Hz starts on a
/// device open at `device_rate` Hz.
pub open spec fn started(s: EngineState, id: TrackId, track_rate: u32, device_rate: u32) -> (
    EngineState,
    Seq<EngineAction>,
) {
    (
        EngineState {
            device_rate,
            active: Some(Playback { id, sample_rate: track_rate, frames_played: 0 }),
            paused: false,
        },
        seq![EngineAction::Emit(Event::PlaybackStarted { track_id: id })],
    )
}

/// The state and actions after command `cmd`:
/// - shutdown: leave the loop;
/// - play: clear the output, publish position zero and load the track;
/// - pause, while running: pause and report it; resume, while paused: run
///   and report it; otherwise nothing happens;
/// - stop, while a track is active: drop it, clear the output, publish
///   position zero and report it; otherwise nothing happens;
/// - seek: nothing happens.
pub open spec fn after_command(s: EngineState, cmd: Command) -> (EngineState, Seq<EngineAction>) {
    match cmd {
        Command::Shutdown => (s, seq![EngineAction::Exit]),
        Command::Play(id) => (
            s,
            seq![EngineAction::ClearOutput, EngineAction::StorePosition(0), EngineAction::Load(id)],
        ),
        Command::Pause => if s.active is Some && !s.paused {
            (EngineState { paused: true, ..s }, seq![EngineAction::Emit(Event::PlaybackPaused)])
        } else {
            (s, Seq::empty())
        },
        Command::Resume => if s.active is Some && s.paused {
            (EngineState { paused: false, ..s }, seq![EngineAction::Emit(Event::PlaybackResumed)])
        } else {
            (s, Seq::empty())
        },
        Command::Stop => if s.active is Some {
            (
                EngineState { active: None, paused: false, ..s },
                seq![
                    EngineAction::ClearOutput,
                    EngineAction::StorePosition(0),
                    EngineAction::Emit(Event::PlaybackStopped),
                ],
            )
        } else {
            (s, Seq::empty())
        },
        Command::Seek(_) => (s, Seq::empty()),
    }
}

/// Position in milliseconds after `frames` frames at `rate` Hz: the frames
/// times 1000, saturated at `u64::MAX`, divided by the rate (taken as 1
/// where it is 0).
pub open spec fn position_of(frames: u64, rate: u32) -> u64 {
    let scaled: int = if frames * 1000 > u64::MAX { u64::MAX as int } else { frames * 1000 };
    let divisor: int = if rate == 0 { 1 } else { rate as int };
    (scaled / divisor) as u64
}

impl EngineState {
    /// An idle engine with the device open at `device_rate` Hz.
    pub fn new(device_rate: u32) -> (s: EngineState)
        ensures
            s == (EngineState { device_rate, active: None, paused: false }),
    {
        EngineState { device_rate, active: None, paused: false }
    }

    /// The output device could not be opened when the engine started: the
    /// error is reported as fatal and the loop ends before it began.
    pub fn on_output_failed(error: &AudioError) -> (acts: Vec<EngineAction>)
        ensures
            acts@.len() == 2,
            reports_fatal(acts@[0], error.message_spec()),
            acts@[1] == EngineAction::Exit,
    {
        vec![EngineAction::Emit(Event::FatalError(error.message())), EngineAction::Exit]
    }

    /// How long to wait for a command, in milliseconds: briefly while
    /// running, so that decoding keeps up, and longer otherwise.
    pub fn poll_timeout_ms(&self) -> (ms: u64)
        ensures
            ms == (if is_running(*self) { 5u64 } else { 50u64 }),
    {
        if self.active.is_some() && !self.paused {
            5
        } else {
            50
        }
    }

    /// Reacts to what waiting for a command gave: a command is handled as
    /// [`after_command`] says, a timeout changes nothing, and a closed
    /// command queue ends the loop.
    pub fn on_receive(self, received: Received) -> (r: (EngineState, Vec<EngineAction>))
        ensures
            match received {
                Received::Command(cmd) => r.0 == after_command(self, cmd).0 && r.1@ == after_command(self, cmd).1,
                Received::TimedOut => r.0 == self && r.1@ == Seq::<EngineAction>::empty(),
                Received::Disconnected => r.0 == self && r.1@ == seq![EngineAction::Exit],
            },
            step_ok(self, r.0, r.1@, cause_of(received)),
    {
        proof {
            match received {
                Received::Command(cmd) => lemma_command_step_ok(self, cmd),
                Received::TimedOut => lemma_step_ok_none(self, self, None),
                Received::Disconnected => lemma_step_ok_one(self, self, EngineAction::Exit, None),
            }
        }
        match received {
            Received::Command(cmd) => self.on_command(cmd),
            Received::TimedOut => (self, Vec::new()),
            Received::Disconnected => (self, vec![EngineAction::Exit]),
        }
    }

    /// Reacts to command `cmd`, as [`after_command`] says.
    pub fn on_command(self, cmd: Command) -> (r: (EngineState, Vec<EngineAction>))
        ensures
            r.0 == after_command(self, cmd).0,
            r.1@ == after_command(self, cmd).1,
            step_ok(self, r.0, r.1@, Some(cmd)),
    {
        proof {
            lemma_command_step_ok(self, cmd);
        }
        match cmd {
            Command::Shutdown => (self, vec![EngineAction::Exit]),
            Command::Play(id) => (
                self,
                vec![EngineAction::ClearOutput, EngineAction::StorePosition(0), EngineAction::Load(id)],
            ),
            Command::Pause => {
                if self.active.is_some() && !self.paused {
                    (EngineState { paused: true, ..self }, vec![EngineAction::Emit(Event::PlaybackPaused)])
                } else {
                    (self, Vec::new())
                }
            },
            Command::Resume => {
                if self.active.is_some() && self.paused {
                    (EngineState { paused: false, ..self }, vec![EngineAction::Emit(Event::PlaybackResumed)])
                } else {
                    (self, Vec::new())
                }
            },
            Command::Stop => {
                if self.active.is_some() {
                    (
                        EngineState { active: None, paused: false, ..self },
                        vec![
                            EngineAction::ClearOutput,
                            EngineAction::StorePosition(0),
                            EngineAction::Emit(Event::PlaybackStopped),
                        ],
                    )
                } else {
                    (self, Vec::new())
                }
            },
            Command::Seek(_) => (self, Vec::new()),
        }
    }

    /// The requested track is not in the library: it is reported as failed
    /// and the state is kept.
    pub fn on_track_missing(self, id: TrackId) -> (r: (EngineState, Vec<EngineAction>))
        ensures
            r.0 == self,
            r.1@.len() == 1,
            reports_failure(r.1@[0], id, "track not in library"@),
            step_ok(self, r.0, r.1@, None),
    {
        let reason = String::from_str("track not in library");
        let a = EngineAction::Emit(Event::TrackFailed { track_id: id, reason });
        proof {
            lemma_step_ok_one(self, self, a, None);
        }
        let v = vec![a];
        assert(v@ =~= seq![v@[0]]);
        (self, v)
    }

    /// The requested track could not be opened: it is reported as failed
    /// with `reason`, and no track is active any more.
    pub fn on_open_failed(self, id: TrackId, reason: String) -> (r: (EngineState, Vec<EngineAction>))
        ensures
            r.0 == (EngineState { active: None, ..self }),
            r.1@ == seq![EngineAction::Emit(Event::TrackFailed { track_id: id, reason })],
            step_ok(self, r.0, r.1@, None),
    {
        let a = EngineAction::Emit(Event::TrackFailed { track_id: id, reason });
        proof {
            lemma_step_ok_one(self, EngineState { active: None, ..self }, a, None);
        }
        let v = vec![a];
        assert(v@ =~= seq![v@[0]]);
        (EngineState { active: None, ..self }, v)
    }

    /// The device's configurations could not be queried: the track is
    /// reported as failed with the device error, and no track is active.
    pub fn on_device_query_failed(self, id: TrackId, error: &AudioError) -> (r: (
        EngineState,
        Vec<EngineAction>,
    ))
        ensures
            r.0 == (EngineState { active: None, ..self }),
            r.1@.len() == 1,
            reports_failure(r.1@[0], id, "device error: "@ + error.message_spec()),
            step_ok(self, r.0, r.1@, None),
    {
        let reason = String::from_str("device error: ").concat(error.message().as_str());
        let a = EngineAction::Emit(Event::TrackFailed { track_id: id, reason });
        proof {
            lemma_step_ok_one(self, EngineState { active: None, ..self }, a, None);
        }
        let v = vec![a];
        assert(v@ =~= seq![v@[0]]);
        (EngineState { active: None, ..self }, v)
    }

    /// The track opened at `track_rate` Hz and the device supports
    /// `supported`. The configuration is negotiated for 32-bit float stereo:
    /// where none fits, the track is reported as failed with the reason and
    /// no track is active; where the chosen rate differs from the device's,
    /// the device is reopened at it first; otherwise the track starts.
    pub fn on_configs(self, id: TrackId, track_rate: u32, supported: &[ConfigRange]) -> (r: (
        EngineState,
        Vec<EngineAction>,
    ))
        ensures
            exists|n: Result<crate::audio::negotiate::ChosenConfig, crate::audio::negotiate::NoMatchingConfig>|
                {
                    &&& #[trigger] negotiation_result(supported@, track_rate, SampleFormat::F32, 2, n)
                    &&& match n {
                        Err(e) => {
                            &&& r.0 == (EngineState { active: None, ..self })
                            &&& r.1@.len() == 1
                            &&& reports_failure(r.1@[0], id, e.message_spec())
                        },
                        Ok(c) => if c.rate_hz != self.device_rate {
                            r.0 == self && r.1@ == seq![
                                EngineAction::Reopen { id, track_rate_hz: track_rate, rate_hz: c.rate_hz },
                            ]
                        } else {
                            r.0 == started(self, id, track_rate, self.device_rate).0 && r.1@ == started(
                                self,
                                id,
                                track_rate,
                                self.device_rate,
                            ).1
                        },
                    }
                },
            step_ok(self, r.0, r.1@, None),
    {
        let n = negotiate_config(supported, track_rate, SampleFormat::F32, 2);
        match n {
            Err(e) => {
                let reason = e.message();
                let a = EngineAction::Emit(Event::TrackFailed { track_id: id, reason });
                proof {
                    lemma_step_ok_one(self, EngineState { active: None, ..self }, a, None);
                }
                let v = vec![a];
                assert(v@ =~= seq![v@[0]]);
                (EngineState { active: None, ..self }, v)
            },
            Ok(c) => {
                if c.rate_hz != self.device_rate {
                    let a = EngineAction::Reopen { id, track_rate_hz: track_rate, rate_hz: c.rate_hz };
                    proof {
                        lemma_step_ok_one(self, self, a, None);
                    }
                    (self, vec![a])
                } else {
                    self.start(id, track_rate, self.device_rate)
                }
            },
        }
    }

    /// The device was reopened at `device_rate` Hz: the track starts.
    pub fn on_reopened(self, id: TrackId, track_rate: u32, device_rate: u32) -> (r: (
        EngineState,
        Vec<EngineAction>,
    ))
        ensures
            r.0 == started(self, id, track_rate, device_rate).0,
            r.1@ == started(self, id, track_rate, device_rate).1,
            step_ok(self, r.0, r.1@, None),
    {
        self.start(id, track_rate, device_rate)
    }

    /// Reopening the device failed: the error is reported as fatal and the
    /// loop ends.
    pub fn on_reopen_failed(self, error: &AudioError) -> (r: (EngineState, Vec<EngineAction>))
        ensures
            r.0 == self,
            r.1@.len() == 2,
            reports_fatal(r.1@[0], error.message_spec()),
            r.1@[1] == EngineAction::Exit,
            step_ok(self, r.0, r.1@, None),
    {
        let a = EngineAction::Emit(Event::FatalError(error.message()));
        proof {
            lemma_step_ok_two(self, self, a, EngineAction::Exit, None);
        }
        (self, vec![a, EngineAction::Exit])
    }

    fn start(self, id: TrackId, track_rate: u32, device_rate: u32) -> (r: (EngineState, Vec<EngineAction>))
        ensures
            r.0 == started(self, id, track_rate, device_rate).0,
            r.1@ == started(self, id, track_rate, device_rate).1,
            step_ok(self, r.0, r.1@, None),
    {
        proof {
            let s2 = started(self, id, track_rate, device_rate).0;
            lemma_step_ok_one(self, s2, EngineAction::Emit(Event::PlaybackStarted { track_id: id }), None);
        }
        (
            EngineState {
                device_rate,
                active: Some(Playback { id, sample_rate: track_rate, frames_played: 0 }),
                paused: false,
            },
            vec![EngineAction::Emit(Event::PlaybackStarted { track_id: id })],
        )
    }

    /// How many samples to keep buffered for a device with `out_channels`
    /// channels while running (about a quarter second of audio), or `None`
    /// where nothing is to be decoded.
    pub fn decode_target(&self, out_channels: u16) -> (t: Option<u64>)
        ensures
            match self.active {
                Some(p) if !self.paused => t == Some((p.sample_rate * out_channels / 4) as u64),
                _ => t is None,
            },
    {
        match self.active {
            Some(p) => {
                if self.paused {
                    None
                } else {
                    let rate = p.sample_rate as u64;
                    let channels = out_channels as u64;
                    assert(rate * channels <= 0xffff_ffffu64 * 0xffffu64) by (nonlinear_arith)
                        requires
                            rate <= 0xffff_ffffu64,
                            channels <= 0xffffu64,
                    ;
                    Some(rate * channels / 4)
                }
            },
            None => None,
        }
    }

    /// Reacts to one decoding attempt on the active track: written frames
    /// count towards its position; at the end of the stream it is reported
    /// as ended, and on failure as failed with the reason, and in both cases
    /// no track is active any more. Without an active track nothing happens.
    pub fn on_decoded(self, step: DecodeStep) -> (r: (EngineState, Vec<EngineAction>))
        requires
            match (self.active, step) {
                (Some(p), DecodeStep::Wrote(f)) => p.frames_played + f <= u64::MAX,
                _ => true,
            },
        ensures
            match self.active {
                None => r.0 == self && r.1@ == Seq::<EngineAction>::empty(),
                Some(p) => match step {
                    DecodeStep::Wrote(f) => r.0 == (EngineState {
                        active: Some(Playback { frames_played: (p.frames_played + f) as u64, ..p }),
                        ..self
                    }) && r.1@ == Seq::<EngineAction>::empty(),
                    DecodeStep::EndOfStream => r.0 == (EngineState { active: None, ..self }) && r.1@
                        == seq![EngineAction::Emit(Event::TrackEnded { track_id: p.id })],
                    DecodeStep::Failed(reason) => r.0 == (EngineState { active: None, ..self }) && r.1@
                        == seq![EngineAction::Emit(Event::TrackFailed { track_id: p.id, reason })],
                },
            },
            step_ok(self, r.0, r.1@, None),
    {
        proof {
            match self.active {
                None => lemma_step_ok_none(self, self, None),
                Some(p) => match step {
                    DecodeStep::Wrote(f) => lemma_step_ok_none(
                        self,
                        EngineState {
                            active: Some(Playback { frames_played: (p.frames_played + f) as u64, ..p }),
                            ..self
                        },
                        None,
                    ),
                    DecodeStep::EndOfStream => lemma_step_ok_one(
                        self,
                        EngineState { active: None, ..self },
                        EngineAction::Emit(Event::TrackEnded { track_id: p.id }),
                        None,
                    ),
                    DecodeStep::Failed(_) => lemma_step_ok_one(
                        self,
                        EngineState { active: None, ..self },
                        EngineAction::Emit(Event::TrackFailed { track_id: p.id, reason: step->Failed_0 }),
                        None,
                    ),
                },
            }
        }
        match self.active {
            None => (self, Vec::new()),
            Some(p) => match step {
                DecodeStep::Wrote(f) => (
                    EngineState {
                        active: Some(Playback { frames_played: p.frames_played + f, ..p }),
                        ..self
                    },
                    Vec::new(),
                ),
                DecodeStep::EndOfStream => {
                    let v = vec![EngineAction::Emit(Event::TrackEnded { track_id: p.id })];
                    assert(v@ =~= seq![v@[0]]);
                    (EngineState { active: None, ..self }, v)
                },
                DecodeStep::Failed(reason) => {
                    let v = vec![EngineAction::Emit(Event::TrackFailed { track_id: p.id, reason })];
                    assert(v@ =~= seq![v@[0]]);
                    (EngineState { active: None, ..self }, v)
                },
            },
        }
    }

    /// After decoding, while running: publish the position, and report it
    /// too when at least 200 ms passed since the last report. Otherwise
    /// nothing happens.
    pub fn position_report(&self, since_last_report_ms: u64) -> (acts: Vec<EngineAction>)
        ensures
            match self.active {
                Some(p) if !self.paused => {
                    let ms = position_of(p.frames_played, p.sample_rate);
                    if since_last_report_ms >= 200 {
                        acts@ == seq![
                            EngineAction::StorePosition(ms),
                            EngineAction::Emit(Event::PositionUpdate { ms }),
                        ]
                    } else {
                        acts@ == seq![EngineAction::StorePosition(ms)]
                    }
                },
                _ => acts@ == Seq::<EngineAction>::empty(),
            },
            step_ok(*self, *self, acts@, None),
    {
        proof {
            match self.active {
                Some(p) if !self.paused => {
                    let ms = position_of(p.frames_played, p.sample_rate);
                    lemma_step_ok_one(*self, *self, EngineAction::StorePosition(ms), None);
                    lemma_step_ok_two(
                        *self,
                        *self,
                        EngineAction::StorePosition(ms),
                        EngineAction::Emit(Event::PositionUpdate { ms }),
                        None,
                    );
                },
                _ => lemma_step_ok_none(*self, *self, None),
            }
        }
        match self.active {
            Some(p) => {
                if self.paused {
                    Vec::new()
                } else {
                    let ms = position_ms(p.frames_played, p.sample_rate);
                    if since_last_report_ms >= 200 {
                        vec![EngineAction::StorePosition(ms), EngineAction::Emit(Event::PositionUpdate { ms })]
                    } else {
                        vec![EngineAction::StorePosition(ms)]
                    }
                }
            },
            None => Vec::new(),
        }
    }
}

/// Position in milliseconds after `frames` frames at `rate` Hz, as
/// [`position_of`] says.
pub fn position_ms(frames: u64, rate: u32) -> (ms: u64)
    ensures
        ms == position_of(frames, rate),
{
    let scaled: u64 = if frames > u64::MAX / 1000 { u64::MAX } else { frames * 1000 };
    let divisor: u64 = if rate == 0 { 1 } else { rate as u64 };
    scaled / divisor
}

/// Pausing a running engine and resuming it returns to exactly the state it
/// was in, reporting the pause and then the resumption.
pub proof fn lemma_pause_then_resume_restores(s: EngineState)
    requires
        is_running(s),
    ensures
        after_command(s, Command::Pause).1 == seq![EngineAction::Emit(Event::PlaybackPaused)],
        after_command(after_command(s, Command::Pause).0, Command::Resume).0 == s,
        after_command(after_command(s, Command::Pause).0, Command::Resume).1 == seq![
            EngineAction::Emit(Event::PlaybackResumed),
        ],
{
}

/// A play request always loads the requested track, whatever the engine is
/// doing: the state is kept until the track is loaded, the buffered audio
/// is dropped, position zero is published and exactly the requested track
/// is loaded. In particular a play while another track runs or is paused
/// is not ignored, and two engines in different states react alike.
pub proof fn lemma_play_always_loads(s: EngineState, other: EngineState, id: TrackId)
    ensures
        after_command(s, Command::Play(id)).0 == s,
        after_command(s, Command::Play(id)).1 == seq![
            EngineAction::ClearOutput,
            EngineAction::StorePosition(0),
            EngineAction::Load(id),
        ],
        after_command(s, Command::Play(id)).1 == after_command(other, Command::Play(id)).1,
        after_command(s, Command::Play(id)).1.contains(EngineAction::Load(id)),
{
    assert(after_command(s, Command::Play(id)).1[2] == EngineAction::Load(id));
}

/// After a stop the engine is idle; it reports the stop exactly when a track
/// was active.
pub proof fn lemma_stop_idles(s: EngineState)
    ensures
        after_command(s, Command::Stop).0.active is None,
        !after_command(s, Command::Stop).0.paused || s.active is None,
        after_command(s, Command::Stop).1.contains(EngineAction::Emit(Event::PlaybackStopped)) <==> s.active is Some,
{
    if s.active is Some {
        assert(after_command(s, Command::Stop).1[2] == EngineAction::Emit(Event::PlaybackStopped));
    }
}

/// No command changes the device's rate or starts a track: a track becomes
/// active only once it was loaded and the configuration negotiated.
pub proof fn lemma_commands_keep_device_and_track(s: EngineState, cmd: Command)
    ensures
        after_command(s, cmd).0.device_rate == s.device_rate,
        after_command(s, cmd).0.active is Some ==> after_command(s, cmd).0.active == s.active,
{
}

/// A track starts from its first frame, at position zero, not paused.
pub proof fn lemma_start_is_fresh(s: EngineState, id: TrackId, track_rate: u32, device_rate: u32)
    ensures
        is_running(started(s, id, track_rate, device_rate).0),
        started(s, id, track_rate, device_rate).0.active matches Some(p) && p.frames_played == 0
            && position_of(p.frames_played, p.sample_rate) == 0,
{
}

/// The reported position never moves backwards as frames are played.
pub proof fn lemma_position_monotone(f1: u64, f2: u64, rate: u32)
    requires
        f1 <= f2,
    ensures
        position_of(f1, rate) <= position_of(f2, rate),
{
    let s1: int = if f1 * 1000 > u64::MAX { u64::MAX as int } else { f1 * 1000 };
    let s2: int = if f2 * 1000 > u64::MAX { u64::MAX as int } else { f2 * 1000 };
    let d: int = if rate == 0 { 1 } else { rate as int };
    assert(s1 <= s2) by (nonlinear_arith)
        requires
            f1 <= f2,
            s1 == (if f1 * 1000 > u64::MAX { u64::MAX as int } else { f1 * 1000 }),
            s2 == (if f2 * 1000 > u64::MAX { u64::MAX as int } else { f2 * 1000 }),
    ;
    vstd::arithmetic::div_mod::lemma_div_is_ordered(s1, s2, d);
    assert(0 <= s1 / d <= u64::MAX) by (nonlinear_arith)
        requires
            0 <= s1 <= u64::MAX,
            d >= 1,
    ;
    assert(0 <= s2 / d <= u64::MAX) by (nonlinear_arith)
        requires
            0 <= s2 <= u64::MAX,
            d >= 1,
    ;
}

/// An engine for tests: it answers every command but a shutdown by sending
/// its scripted events, in order.
pub struct FakeEngine {
    pub scripted_events: Vec<Event>,
}

impl FakeEngine {
    /// What the fake engine does with what it received (`None` where the
    /// command queue is closed): a shutdown or a closed queue ends its loop
    /// (`None`); any other command is answered with a copy of the scripted
    /// events.
    pub fn respond(&self, received: Option<Command>) -> (r: Option<Vec<Event>>)
        ensures
            match received {
                None | Some(Command::Shutdown) => r is None,
                Some(_) => r matches Some(v) && v@ == self.scripted_events@,
            },
    {
        match received {
            None | Some(Command::Shutdown) => None,
            Some(_) => {
                let mut out: Vec<Event> = Vec::new();
                let mut i: usize = 0;
                while i < self.scripted_events.len()
                    invariant
                        i <= self.scripted_events.len(),
                        out@ == self.scripted_events@.take(i as int),
                    decreases self.scripted_events.len() - i,
                {
                    out.push(self.scripted_events[i].duplicate());
                    proof {
                        assert(self.scripted_events@.take(i as int + 1) =~= self.scripted_events@.take(i as int).push(
                            self.scripted_events@[i as int],
                        ));
                    }
                    i = i + 1;
                }
                proof {
                    assert(self.scripted_events@.take(self.scripted_events.len() as int) =~= self.scripted_events@);
                }
                Some(out)
            },
        }
    }
}

} // verus!
