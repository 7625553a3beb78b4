//! A run of the engine: its state, stepped by what the loop observed, with
//! the record of every step taken so far.
//!
//! The loop drives the engine only through [`EngineRun::step`]. Whatever the
//! loop observes, and in whatever order, the record of the whole run stays
//! one that [`run_steps`] accepts: pauses, resumptions and stops answer only
//! the commands that ask for them and never come before a track started;
//! after each start, pauses and resumptions alternate, beginning with a
//! pause; a stop is reported only once position zero is published; and once
//! the loop is left, no further step is taken.

use vstd::prelude::*;
use crate::audio::command::Command;
use crate::audio::engine::{
    DecodeStep, EngineAction, EngineState, Received, after_command, position_of, reports_failure, reports_fatal,
    started,
};
use crate::audio::error::AudioError;
use crate::audio::negotiate::{ChosenConfig, ConfigRange, NoMatchingConfig, SampleFormat, negotiation_result};
use crate::audio::protocol::{Observed, Phase, cause_of, phase_of, run_actions, run_steps, step_ok};
use crate::event::Event;
use crate::library::TrackId;

verus! {

/// What the loop observed and hands to the engine.
pub enum StepInput {
    /// What waiting for a command gave.
    Received(Received),
    /// The track to load is not in the library.
    TrackMissing(TrackId),
    /// The track could not be opened, for this reason.
    OpenFailed(TrackId, String),
    /// The device's configurations could not be queried.
    DeviceQueryFailed(TrackId, AudioError),
    /// The track opened at this rate, and the device supports these ranges.
    Configs(TrackId, u32, Vec<ConfigRange>),
    /// The device was reopened for the track (its rate, then the device's).
    Reopened(TrackId, u32, u32),
    /// Reopening the device failed.
    ReopenFailed(AudioError),
    /// One decoding attempt on the active track.
    Decoded(DecodeStep),
    /// Decoding is done for now; this long passed since the last report.
    PositionReport(u64),
}

/// The command a step on `input` answers.
pub open spec fn input_cause(input: StepInput) -> Option<Command> {
    match input {
        StepInput::Received(r) => cause_of(r),
        _ => None,
    }
}

/// What the user interface has seen before the first step: nothing playing,
/// position zero.
pub open spec fn initially_observed() -> Observed {
    Observed { phase: Phase::Idle, position_zero: true }
}

/// The state `s2` and actions `acts` are what the engine's step on `input`
/// gives from state `s`, as that step's contract says.
pub open spec fn stepped(s: EngineState, input: StepInput, s2: EngineState, acts: Seq<EngineAction>) -> bool {
    match input {
        StepInput::Received(received) => match received {
            Received::Command(cmd) => s2 == after_command(s, cmd).0 && acts == after_command(s, cmd).1,
            Received::TimedOut => s2 == s && acts == Seq::<EngineAction>::empty(),
            Received::Disconnected => s2 == s && acts == seq![EngineAction::Exit],
        },
        StepInput::TrackMissing(id) => s2 == s && acts.len() == 1 && reports_failure(
            acts[0],
            id,
            "track not in library"@,
        ),
        StepInput::OpenFailed(id, reason) => s2 == (EngineState { active: None, ..s }) && acts == seq![
            EngineAction::Emit(Event::TrackFailed { track_id: id, reason }),
        ],
        StepInput::DeviceQueryFailed(id, error) => s2 == (EngineState { active: None, ..s }) && acts.len() == 1
            && reports_failure(acts[0], id, "device error: "@ + error.message_spec()),
        StepInput::Configs(id, track_rate, supported) => exists|n: Result<ChosenConfig, NoMatchingConfig>|
            {
                &&& #[trigger] negotiation_result(supported@, track_rate, SampleFormat::F32, 2, n)
                &&& match n {
                    Err(e) => {
                        &&& s2 == (EngineState { active: None, ..s })
                        &&& acts.len() == 1
                        &&& reports_failure(acts[0], id, e.message_spec())
                    },
                    Ok(c) => if c.rate_hz != s.device_rate {
                        s2 == s && acts == seq![
                            EngineAction::Reopen { id, track_rate_hz: track_rate, rate_hz: c.rate_hz },
                        ]
                    } else {
                        s2 == started(s, id, track_rate, s.device_rate).0 && acts == started(
                            s,
                            id,
                            track_rate,
                            s.device_rate,
                        ).1
                    },
                }
            },
        StepInput::Reopened(id, track_rate, device_rate) => s2 == started(s, id, track_rate, device_rate).0 && acts
            == started(s, id, track_rate, device_rate).1,
        StepInput::ReopenFailed(error) => s2 == s && acts.len() == 2 && reports_fatal(acts[0], error.message_spec())
            && acts[1] == EngineAction::Exit,
        StepInput::Decoded(step) => match s.active {
            None => s2 == s && acts == Seq::<EngineAction>::empty(),
            Some(p) => match step {
                DecodeStep::Wrote(f) => s2 == (EngineState {
                    active: Some(crate::audio::engine::Playback { frames_played: (p.frames_played + f) as u64, ..p }),
                    ..s
                }) && acts == Seq::<EngineAction>::empty(),
                DecodeStep::EndOfStream => s2 == (EngineState { active: None, ..s }) && acts == seq![
                    EngineAction::Emit(Event::TrackEnded { track_id: p.id }),
                ],
                DecodeStep::Failed(reason) => s2 == (EngineState { active: None, ..s }) && acts == seq![
                    EngineAction::Emit(Event::TrackFailed { track_id: p.id, reason }),
                ],
            },
        },
        StepInput::PositionReport(since_last_report_ms) => s2 == s && match s.active {
            Some(p) if !s.paused => {
                let ms = position_of(p.frames_played, p.sample_rate);
                if since_last_report_ms >= 200 {
                    acts == seq![EngineAction::StorePosition(ms), EngineAction::Emit(Event::PositionUpdate { ms })]
                } else {
                    acts == seq![EngineAction::StorePosition(ms)]
                }
            },
            _ => acts == Seq::<EngineAction>::empty(),
        },
    }
}

/// The engine's state over a run, with the record of the steps taken.
pub struct EngineRun {
    state: EngineState,
    /// What the user interface has seen after all steps so far.
    seen: Ghost<Observed>,
    /// Each step's actions, the command it answered, and the phase its
    /// failure reports lead to.
    record: Ghost<Seq<(Seq<EngineAction>, Option<Command>, Phase)>>,
}

impl EngineRun {
    #[verifier::type_invariant]
    spec fn follows_protocol(self) -> bool {
        &&& run_steps(initially_observed(), self.record@) == Some(self.seen@)
        &&& (self.seen@.phase == phase_of(self.state) || self.seen@.phase == Phase::Ended)
    }

    /// The engine's current state.
    pub closed spec fn state_spec(self) -> EngineState {
        self.state
    }

    /// The record of the steps taken so far.
    pub closed spec fn record(self) -> Seq<(Seq<EngineAction>, Option<Command>, Phase)> {
        self.record@
    }

    /// The engine left its loop.
    pub closed spec fn ended(self) -> bool {
        self.seen@.phase == Phase::Ended
    }

    /// A run that has taken no step, with the device open at `device_rate`
    /// Hz.
    pub fn new(device_rate: u32) -> (r: EngineRun)
        ensures
            r.state_spec() == (EngineState { device_rate, active: None, paused: false }),
            r.record() == Seq::<(Seq<EngineAction>, Option<Command>, Phase)>::empty(),
            !r.ended(),
    {
        EngineRun {
            state: EngineState::new(device_rate),
            seen: Ghost(initially_observed()),
            record: Ghost(Seq::empty()),
        }
    }

    /// The engine's current state.
    pub fn state(&self) -> (s: EngineState)
        ensures
            s == self.state_spec(),
    {
        self.state
    }

    /// Takes the engine's step on `input`: the state moves on and the
    /// actions to carry out are returned, both as the matching
    /// [`EngineState`] step gives them. The step is added to the record, and
    /// the record of the whole run is accepted, landing in the phase of the
    /// new state, or the loop was left. No step is taken once it was left.
    pub fn step(&mut self, input: StepInput) -> (acts: Vec<EngineAction>)
        requires
            !old(self).ended(),
            match input {
                StepInput::Decoded(step) => match (old(self).state_spec().active, step) {
                    (Some(p), DecodeStep::Wrote(f)) => p.frames_played + f <= u64::MAX,
                    _ => true,
                },
                _ => true,
            },
        ensures
            stepped(old(self).state_spec(), input, final(self).state_spec(), acts@),
            step_ok(old(self).state_spec(), final(self).state_spec(), acts@, input_cause(input)),
            final(self).record() == old(self).record().push(
                (acts@, input_cause(input), phase_of(final(self).state_spec())),
            ),
            run_steps(initially_observed(), final(self).record()) matches Some(q) && (q.phase == phase_of(
                final(self).state_spec(),
            ) || q.phase == Phase::Ended),
            final(self).ended() <==> (run_steps(initially_observed(), final(self).record()) matches Some(q)
                && q.phase == Phase::Ended),
    {
        proof {
            use_type_invariant(&*self);
        }
        let ghost g_input = input;
        let ghost seen = self.seen@;
        let ghost record = self.record@;
        let s = self.state;
        let (s2, acts) = match input {
            StepInput::Received(r) => s.on_receive(r),
            StepInput::TrackMissing(id) => s.on_track_missing(id),
            StepInput::OpenFailed(id, reason) => s.on_open_failed(id, reason),
            StepInput::DeviceQueryFailed(id, e) => s.on_device_query_failed(id, &e),
            StepInput::Configs(id, rate, supported) => s.on_configs(id, rate, supported.as_slice()),
            StepInput::Reopened(id, track_rate, device_rate) => s.on_reopened(id, track_rate, device_rate),
            StepInput::ReopenFailed(e) => s.on_reopen_failed(&e),
            StepInput::Decoded(step) => s.on_decoded(step),
            StepInput::PositionReport(ms) => (s, s.position_report(ms)),
        };
        let ghost cause = input_cause(g_input);
        let ghost entry = (acts@, cause, phase_of(s2));
        proof {
            assert(step_ok(s, s2, acts@, cause));
            assert(seen == Observed { phase: phase_of(s), position_zero: seen.position_zero });
            assert(record.push(entry).drop_last() =~= record);
        }
        let ghost q = run_actions(seen, acts@, phase_of(s2), cause).unwrap();
        *self = EngineRun { state: s2, seen: Ghost(q), record: Ghost(record.push(entry)) };
        acts
    }
}

} // verus!
