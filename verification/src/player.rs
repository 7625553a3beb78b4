//! The playback state machine.
//!
//! A player is stopped, has a track loaded, is playing it from a position or
//! is paused at a position. Each transition either moves to the next state or
//! is refused with [`CoreError::InvalidTransition`], which names the state
//! the player was in and the state that was asked for.

use vstd::prelude::*;
use crate::error::CoreError;
use crate::library::Track;
use crate::time::{Duration, MAX_NANOS};

verus! {

#[derive(Debug, Clone, PartialEq)]
pub enum Player {
    Stopped,
    Loaded { track: Track },
    Playing { track: Track, position: Duration },
    Paused { track: Track, position: Duration },
}

impl Default for Player {
    fn default() -> (p: Self)
        ensures
            p == Player::Stopped,
    {
        Player::Stopped
    }
}

/// The name of the state the player is in.
pub open spec fn state_name(p: Player) -> Seq<char> {
    match p {
        Player::Stopped => "Stopped"@,
        Player::Loaded { .. } => "Loaded"@,
        Player::Playing { .. } => "Playing"@,
        Player::Paused { .. } => "Paused"@,
    }
}

/// The state after loading `track`, where the transition is allowed.
pub open spec fn after_load(p: Player, track: Track) -> Option<Player> {
    match p {
        Player::Stopped => Some(Player::Loaded { track }),
        _ => None,
    }
}

/// The state after asking to play, where the transition is allowed: a
/// loaded track starts from the beginning, a paused one resumes where it was.
pub open spec fn after_play(p: Player) -> Option<Player> {
    match p {
        Player::Loaded { track } => Some(Player::Playing { track, position: Duration::zero_spec() }),
        Player::Paused { track, position } => Some(Player::Playing { track, position }),
        _ => None,
    }
}

/// The state after asking to pause, where the transition is allowed.
pub open spec fn after_pause(p: Player) -> Option<Player> {
    match p {
        Player::Playing { track, position } => Some(Player::Paused { track, position }),
        _ => None,
    }
}

/// The state after playing on for `delta`, where the transition is allowed.
pub open spec fn after_advance(p: Player, delta: Duration) -> Option<Player> {
    match p {
        Player::Playing { track, position } => Some(
            Player::Playing { track, position: Duration::sum_spec(position, delta) },
        ),
        _ => None,
    }
}

/// The outcome of a transition towards the state named `target`: the next
/// state where it is allowed, else the refusal naming both states.
pub open spec fn transition_result(
    p: Player,
    next: Option<Player>,
    target: Seq<char>,
    r: Result<Player, CoreError>,
) -> bool {
    match next {
        Some(q) => r == Ok::<Player, CoreError>(q),
        None => r matches Err(CoreError::InvalidTransition { from, to }) && from@ == state_name(p) && to@
            == target,
    }
}

impl Player {
    /// A stopped player.
    pub fn new() -> (p: Player)
        ensures
            p == Player::Stopped,
    {
        Player::Stopped
    }

    /// The name of the state the player is in.
    pub fn name(&self) -> (s: &'static str)
        ensures
            s@ == state_name(*self),
    {
        match self {
            Player::Stopped => "Stopped",
            Player::Loaded { .. } => "Loaded",
            Player::Playing { .. } => "Playing",
            Player::Paused { .. } => "Paused",
        }
    }

    /// Loads `track` into a stopped player.
    pub fn load(self, track: Track) -> (r: Result<Player, CoreError>)
        ensures
            transition_result(self, after_load(self, track), "Loaded"@, r),
    {
        match self {
            Player::Stopped => Ok(Player::Loaded { track }),
            other => Err(CoreError::InvalidTransition { from: other.name(), to: "Loaded" }),
        }
    }

    /// Starts a loaded track from the beginning or resumes a paused one.
    pub fn play(self) -> (r: Result<Player, CoreError>)
        ensures
            transition_result(self, after_play(self), "Playing"@, r),
    {
        match self {
            Player::Loaded { track } => Ok(Player::Playing { track, position: Duration::zero() }),
            Player::Paused { track, position } => Ok(Player::Playing { track, position }),
            other => Err(CoreError::InvalidTransition { from: other.name(), to: "Playing" }),
        }
    }

    /// Pauses a playing track where it is.
    pub fn pause(self) -> (r: Result<Player, CoreError>)
        ensures
            transition_result(self, after_pause(self), "Paused"@, r),
    {
        match self {
            Player::Playing { track, position } => Ok(Player::Paused { track, position }),
            other => Err(CoreError::InvalidTransition { from: other.name(), to: "Paused" }),
        }
    }

    /// Stops the player, whatever state it is in.
    pub fn stop(self) -> (p: Player)
        ensures
            p == Player::Stopped,
    {
        Player::Stopped
    }

    /// Moves the position of a playing track on by `delta`.
    pub fn advance(self, delta: Duration) -> (r: Result<Player, CoreError>)
        requires
            self matches Player::Playing { position, .. } ==> position@ + delta@ <= MAX_NANOS,
        ensures
            transition_result(self, after_advance(self, delta), "Playing"@, r),
    {
        match self {
            Player::Playing { track, position } => Ok(Player::Playing { track, position: position.add(delta) }),
            other => Err(CoreError::InvalidTransition { from: other.name(), to: "Playing" }),
        }
    }
}

/// The track a player holds, if any.
pub open spec fn held_track(p: Player) -> Option<Track> {
    match p {
        Player::Stopped => None,
        Player::Loaded { track } => Some(track),
        Player::Playing { track, .. } => Some(track),
        Player::Paused { track, .. } => Some(track),
    }
}

/// Pausing a playing track and then playing again returns to exactly the
/// state it was in: same track, same position.
pub proof fn lemma_pause_then_play_restores(p: Player)
    requires
        p is Playing,
    ensures
        after_pause(p) is Some,
        after_play(after_pause(p).unwrap()) == Some(p),
{
}

/// Playing a freshly loaded track starts it at position zero.
pub proof fn lemma_load_then_play_starts_at_zero(track: Track)
    ensures
        after_load(Player::Stopped, track) == Some(Player::Loaded { track }),
        after_play(Player::Loaded { track }) matches Some(Player::Playing { track: t, position }) && t == track
            && position@ == 0,
{
    Duration::lemma_zero_spec();
}

/// Advancing by `a` and then by `b` lands where advancing by `a + b` does.
pub proof fn lemma_advance_composes(p: Player, a: Duration, b: Duration)
    requires
        p matches Player::Playing { position, .. } ==> position@ + a@ + b@ <= MAX_NANOS,
    ensures
        (match after_advance(p, a) {
            Some(q) => after_advance(q, b),
            None => None,
        }) == after_advance(p, Duration::sum_spec(a, b)),
{
    if let Player::Playing { track, position } = p {
        Duration::lemma_sum_spec(position, a);
        Duration::lemma_sum_spec(a, b);
        Duration::lemma_sum_spec(Duration::sum_spec(position, a), b);
        Duration::lemma_sum_spec(position, Duration::sum_spec(a, b));
        Duration::lemma_eq_iff_view_eq(
            Duration::sum_spec(Duration::sum_spec(position, a), b),
            Duration::sum_spec(position, Duration::sum_spec(a, b)),
        );
    }
}

/// No transition but stopping changes the track a player holds; only a
/// stopped player accepts a track, and a stopped player can do nothing else.
pub proof fn lemma_transitions_keep_track(p: Player, track: Track, delta: Duration)
    ensures
        after_play(p) matches Some(q) ==> held_track(q) == held_track(p),
        after_pause(p) matches Some(q) ==> held_track(q) == held_track(p),
        after_advance(p, delta) matches Some(q) ==> held_track(q) == held_track(p),
        after_load(p, track) is Some <==> p is Stopped,
        p is Stopped ==> after_play(p) is None && after_pause(p) is None && after_advance(p, delta) is None,
{
}

/// A paused or playing track never moves backwards on a successful
/// transition other than stopping: its position is kept or advanced.
pub proof fn lemma_position_never_rewinds(p: Player, delta: Duration)
    requires
        p matches Player::Playing { position, .. } ==> position@ + delta@ <= MAX_NANOS,
    ensures
        p matches Player::Paused { position: before, .. } ==> after_play(p) matches Some(
            Player::Playing { position: after, .. },
        ) && after@ == before@,
        p matches Player::Playing { position: before, .. } ==> after_advance(p, delta) matches Some(
            Player::Playing { position: after, .. },
        ) && after@ == before@ + delta@,
{
    if let Player::Playing { position, .. } = p {
        Duration::lemma_sum_spec(position, delta);
    }
}

/// Only a loaded or paused player can be asked to play: a playing or
/// stopped one is refused. A successful play keeps the held track, starts a
/// loaded one at zero and resumes a paused one where it was, so it never
/// moves a playing track's position.
pub proof fn lemma_play_only_starts_or_resumes(p: Player)
    ensures
        after_play(p) is Some <==> (p is Loaded || p is Paused),
        p is Playing ==> after_play(p) is None,
        after_play(p) matches Some(q) ==> q is Playing && held_track(q) == held_track(p),
        p is Loaded ==> (after_play(p) matches Some(Player::Playing { position, .. }) && position@ == 0),
        p matches Player::Paused { position: before, .. } ==> (after_play(p) matches Some(
            Player::Playing { position: after, .. },
        ) && after == before),
{
    Duration::lemma_zero_spec();
}

} // verus!
