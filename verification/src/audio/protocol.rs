//! The order in which the engine reports what it does, over whole runs.
//!
//! The user interface sees the engine only through the events it emits and
//! the position it publishes. [`observe`] reads one action the way the user
//! interface does, and rejects what must never be seen: a pause, resumption
//! or stop that no such command asked for, a pause of nothing playing, a
//! resumption of nothing paused, a stop while the published position is not
//! zero, or anything at all once the engine has left its loop. Every step of
//! the engine is accepted from the phase its state shows and lands in the
//! phase of its next state ([`step_ok`]), so a whole run is accepted
//! ([`lemma_runs_keep_event_order`]).

use vstd::prelude::*;
use crate::audio::command::Command;
use crate::audio::engine::{EngineAction, EngineState, Received, after_command};
use crate::event::Event;

verus! {

/// What the user interface can tell of the engine.
pub enum Phase {
    /// No track plays: none started yet, or the last one stopped, ended or
    /// failed.
    Idle,
    Running,
    Paused,
    /// The engine left its loop.
    Ended,
}

/// The phase, and whether the position last published is zero.
pub struct Observed {
    pub phase: Phase,
    pub position_zero: bool,
}

/// The phase an engine state shows.
pub open spec fn phase_of(s: EngineState) -> Phase {
    match s.active {
        None => Phase::Idle,
        Some(_) => if s.paused {
            Phase::Paused
        } else {
            Phase::Running
        },
    }
}

/// Reads action `a`, taken in answer to `cause` (the command the step
/// handles, if any), from what was observed so far: `None` where it must not
/// be seen. A reported failure either leaves the phase as it was (the track
/// that failed to load was not the one playing) or ends the playing track;
/// `after_failure` says which.
pub open spec fn observe(o: Observed, a: EngineAction, after_failure: Phase, cause: Option<Command>) -> Option<
    Observed,
> {
    if o.phase == Phase::Ended {
        None
    } else {
        match a {
            EngineAction::StorePosition(ms) => Some(Observed { position_zero: ms == 0, ..o }),
            EngineAction::Exit => Some(Observed { phase: Phase::Ended, ..o }),
            EngineAction::Emit(ev) => match ev {
                Event::PlaybackStarted { .. } => Some(Observed { phase: Phase::Running, ..o }),
                Event::PlaybackPaused => if o.phase == Phase::Running && cause == Some(Command::Pause) {
                    Some(Observed { phase: Phase::Paused, ..o })
                } else {
                    None
                },
                Event::PlaybackResumed => if o.phase == Phase::Paused && cause == Some(Command::Resume) {
                    Some(Observed { phase: Phase::Running, ..o })
                } else {
                    None
                },
                Event::PlaybackStopped => if (o.phase == Phase::Running || o.phase == Phase::Paused)
                    && o.position_zero && cause == Some(Command::Stop) {
                    Some(Observed { phase: Phase::Idle, ..o })
                } else {
                    None
                },
                Event::TrackEnded { .. } => if o.phase == Phase::Running || o.phase == Phase::Paused {
                    Some(Observed { phase: Phase::Idle, ..o })
                } else {
                    None
                },
                Event::TrackFailed { .. } => if after_failure == o.phase || after_failure == Phase::Idle {
                    Some(Observed { phase: after_failure, ..o })
                } else {
                    None
                },
                Event::FatalError(_) => Some(o),
                Event::PositionUpdate { .. } => Some(o),
            },
            _ => Some(o),
        }
    }
}

/// Reads the actions `acts` in order, as [`observe`] does.
pub open spec fn run_actions(o: Observed, acts: Seq<EngineAction>, after_failure: Phase, cause: Option<Command>) -> Option<
    Observed,
>
    decreases acts.len(),
{
    if acts.len() == 0 {
        Some(o)
    } else {
        match run_actions(o, acts.drop_last(), after_failure, cause) {
            Some(p) => observe(p, acts.last(), after_failure, cause),
            None => None,
        }
    }
}

/// Read from the phase of `s`, whatever position was last published, the
/// actions `acts` of a step answering `cause` are accepted and land in the
/// phase of `s2`, or end the loop.
pub open spec fn step_ok_from(
    s: EngineState,
    s2: EngineState,
    acts: Seq<EngineAction>,
    cause: Option<Command>,
    position_zero: bool,
) -> bool {
    run_actions(Observed { phase: phase_of(s), position_zero }, acts, phase_of(s2), cause) matches Some(q) && (
    q.phase == phase_of(s2) || q.phase == Phase::Ended)
}

/// A step from `s` to `s2` with actions `acts`, answering `cause`, keeps the
/// order of reports, whatever position was last published.
pub open spec fn step_ok(s: EngineState, s2: EngineState, acts: Seq<EngineAction>, cause: Option<Command>) -> bool {
    step_ok_from(s, s2, acts, cause, true) && step_ok_from(s, s2, acts, cause, false)
}

/// The actions include leaving the loop.
pub open spec fn has_exit(acts: Seq<EngineAction>) -> bool {
    acts.contains(EngineAction::Exit)
}

/// Reads the steps of a run in order: each step's actions, the command it
/// answers, and the phase a failure it reports leads to.
pub open spec fn run_steps(o: Observed, steps: Seq<(Seq<EngineAction>, Option<Command>, Phase)>) -> Option<Observed>
    decreases steps.len(),
{
    if steps.len() == 0 {
        Some(o)
    } else {
        match run_steps(o, steps.drop_last()) {
            Some(p) => run_actions(p, steps.last().0, steps.last().2, steps.last().1),
            None => None,
        }
    }
}

/// Reading one more action.
pub proof fn lemma_run_push(o: Observed, acts: Seq<EngineAction>, a: EngineAction, f: Phase, c: Option<Command>)
    ensures
        run_actions(o, acts.push(a), f, c) == (match run_actions(o, acts, f, c) {
            Some(p) => observe(p, a, f, c),
            None => None,
        }),
{
    assert(acts.push(a).drop_last() =~= acts);
}

/// Reading one action.
pub proof fn lemma_run_one(o: Observed, a: EngineAction, f: Phase, c: Option<Command>)
    ensures
        run_actions(o, seq![a], f, c) == observe(o, a, f, c),
{
    lemma_run_push(o, Seq::empty(), a, f, c);
    assert(Seq::<EngineAction>::empty().push(a) =~= seq![a]);
}

/// Reading two actions.
pub proof fn lemma_run_two(o: Observed, a: EngineAction, b: EngineAction, f: Phase, c: Option<Command>)
    ensures
        run_actions(o, seq![a, b], f, c) == (match observe(o, a, f, c) {
            Some(p) => observe(p, b, f, c),
            None => None,
        }),
{
    lemma_run_one(o, a, f, c);
    lemma_run_push(o, seq![a], b, f, c);
    assert(seq![a].push(b) =~= seq![a, b]);
}

/// Reading three actions.
pub proof fn lemma_run_three(
    o: Observed,
    a: EngineAction,
    b: EngineAction,
    d: EngineAction,
    f: Phase,
    c: Option<Command>,
)
    ensures
        run_actions(o, seq![a, b, d], f, c) == (match observe(o, a, f, c) {
            Some(p) => match observe(p, b, f, c) {
                Some(q) => observe(q, d, f, c),
                None => None,
            },
            None => None,
        }),
{
    lemma_run_two(o, a, b, f, c);
    lemma_run_push(o, seq![a, b], d, f, c);
    assert(seq![a, b].push(d) =~= seq![a, b, d]);
}

/// What was observed lands in the phase of `s2`, or the loop was left.
pub open spec fn lands(r: Option<Observed>, s2: EngineState) -> bool {
    r matches Some(q) && (q.phase == phase_of(s2) || q.phase == Phase::Ended)
}

/// A step without actions keeps the order of reports when it keeps the
/// phase.
pub proof fn lemma_step_ok_none(s: EngineState, s2: EngineState, c: Option<Command>)
    requires
        phase_of(s) == phase_of(s2),
    ensures
        step_ok(s, s2, Seq::empty(), c),
{
}

/// A step with the one action `a` keeps the order of reports when reading
/// `a` lands in the phase of `s2`.
pub proof fn lemma_step_ok_one(s: EngineState, s2: EngineState, a: EngineAction, c: Option<Command>)
    requires
        lands(observe(Observed { phase: phase_of(s), position_zero: true }, a, phase_of(s2), c), s2),
        lands(observe(Observed { phase: phase_of(s), position_zero: false }, a, phase_of(s2), c), s2),
    ensures
        step_ok(s, s2, seq![a], c),
{
    lemma_run_one(Observed { phase: phase_of(s), position_zero: true }, a, phase_of(s2), c);
    lemma_run_one(Observed { phase: phase_of(s), position_zero: false }, a, phase_of(s2), c);
}

/// A step with the two actions `a` and `b`, as [`lemma_step_ok_one`] says.
pub proof fn lemma_step_ok_two(s: EngineState, s2: EngineState, a: EngineAction, b: EngineAction, c: Option<Command>)
    requires
        observe(Observed { phase: phase_of(s), position_zero: true }, a, phase_of(s2), c) matches Some(p) && lands(
            observe(p, b, phase_of(s2), c),
            s2,
        ),
        observe(Observed { phase: phase_of(s), position_zero: false }, a, phase_of(s2), c) matches Some(p)
            && lands(observe(p, b, phase_of(s2), c), s2),
    ensures
        step_ok(s, s2, seq![a, b], c),
{
    lemma_run_two(Observed { phase: phase_of(s), position_zero: true }, a, b, phase_of(s2), c);
    lemma_run_two(Observed { phase: phase_of(s), position_zero: false }, a, b, phase_of(s2), c);
}

/// Only leaving the loop ends it.
pub proof fn lemma_ended_needs_exit(o: Observed, acts: Seq<EngineAction>, f: Phase, c: Option<Command>)
    requires
        o.phase != Phase::Ended,
        run_actions(o, acts, f, c) matches Some(q) && q.phase == Phase::Ended,
    ensures
        has_exit(acts),
{
    if acts.len() > 0 {
        assert(acts.last() == acts[acts.len() - 1]);
    }
}

/// The command a step on `received` answers.
pub open spec fn cause_of(received: Received) -> Option<Command> {
    match received {
        Received::Command(cmd) => Some(cmd),
        _ => None,
    }
}

/// Every command is handled in an order the user interface can follow.
pub proof fn lemma_command_step_ok(s: EngineState, cmd: Command)
    ensures
        step_ok(s, after_command(s, cmd).0, after_command(s, cmd).1, Some(cmd)),
{
    let (s2, acts) = after_command(s, cmd);
    let f = phase_of(s2);
    let c = Some(cmd);
    let o1 = Observed { phase: phase_of(s), position_zero: true };
    let o2 = Observed { phase: phase_of(s), position_zero: false };
    if acts.len() == 1 {
        lemma_run_one(o1, acts[0], f, c);
        lemma_run_one(o2, acts[0], f, c);
        assert(acts =~= seq![acts[0]]);
    } else if acts.len() == 3 {
        lemma_run_three(o1, acts[0], acts[1], acts[2], f, c);
        lemma_run_three(o2, acts[0], acts[1], acts[2], f, c);
        assert(acts =~= seq![acts[0], acts[1], acts[2]]);
    }
}

/// Over any run of the engine's steps from an idle engine, the reports come
/// in an order the user interface can follow: pauses, resumptions and stops
/// answer only the commands that ask for them and never come before a track
/// started; after each start, pauses and resumptions alternate, beginning
/// with a pause; a stop is reported only once position zero is published;
/// and nothing follows leaving the loop. `states` are the engine's states
/// and `steps` the actions of each step, the command it answers and the
/// phase of the state it leads to; the loop is left only at the last step.
pub proof fn lemma_runs_keep_event_order(
    states: Seq<EngineState>,
    steps: Seq<(Seq<EngineAction>, Option<Command>, Phase)>,
    position_zero: bool,
)
    requires
        states.len() == steps.len() + 1,
        states[0].active is None,
        forall|i: int|
            0 <= i < steps.len() ==> #[trigger] steps[i].2 == phase_of(states[i + 1]) && step_ok(
                states[i],
                states[i + 1],
                steps[i].0,
                steps[i].1,
            ),
        forall|i: int| 0 <= i < steps.len() - 1 ==> !has_exit(#[trigger] steps[i].0),
    ensures
        run_steps(Observed { phase: Phase::Idle, position_zero }, steps) matches Some(q) && (q.phase == phase_of(
            states.last(),
        ) || (q.phase == Phase::Ended && has_exit(steps.last().0))),
    decreases steps.len(),
{
    let o = Observed { phase: Phase::Idle, position_zero };
    if steps.len() > 0 {
        let n = steps.len() - 1;
        let pre_states = states.drop_last();
        let pre_steps = steps.drop_last();
        assert forall|i: int| 0 <= i < pre_steps.len() implies #[trigger] pre_steps[i].2 == phase_of(
            pre_states[i + 1],
        ) && step_ok(pre_states[i], pre_states[i + 1], pre_steps[i].0, pre_steps[i].1) by {
            assert(steps[i].2 == phase_of(states[i + 1]));
        }
        assert forall|i: int| 0 <= i < pre_steps.len() - 1 implies !has_exit(#[trigger] pre_steps[i].0) by {
            assert(!has_exit(steps[i].0));
        }
        lemma_runs_keep_event_order(pre_states, pre_steps, position_zero);
        let p = run_steps(o, pre_steps).unwrap();
        if n > 0 {
            assert(!has_exit(steps[n - 1].0));
        }
        assert(p.phase == phase_of(states[n]));
        assert(steps[n].2 == phase_of(states[n + 1]));
        assert(step_ok(states[n], states[n + 1], steps[n].0, steps[n].1));
        let q = run_actions(p, steps[n].0, steps[n].2, steps[n].1);
        if p.position_zero {
            assert(step_ok_from(states[n], states[n + 1], steps[n].0, steps[n].1, true));
        } else {
            assert(step_ok_from(states[n], states[n + 1], steps[n].0, steps[n].1, false));
        }
        assert(q is Some);
        if q.unwrap().phase == Phase::Ended {
            lemma_ended_needs_exit(p, steps[n].0, steps[n].2, steps[n].1);
        }
    }
}

} // verus!
