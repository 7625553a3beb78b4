//! What the user interface shows, and how engine events change it.

use vstd::prelude::*;
use std::sync::Arc;
use crate::event::Event;
use crate::library::{Library, TrackId, TrackRow, text_or_empty};

verus! {

#[derive(Debug, Clone, PartialEq)]
pub struct ViewModel {
    pub is_playing: bool,
    pub is_paused: bool,
    pub current_track: Option<TrackId>,
    pub position_ms: u64,
    pub tracks: Vec<TrackRow>,
    pub error_banner: Option<String>,
}

impl Default for ViewModel {
    /// Nothing playing, no track list, no banner.
    fn default() -> (vm: Self)
        ensures
            !vm.is_playing,
            !vm.is_paused,
            vm.current_track is None,
            vm.position_ms == 0,
            vm.tracks@.len() == 0,
            vm.error_banner is None,
    {
        ViewModel {
            is_playing: false,
            is_paused: false,
            current_track: None,
            position_ms: 0,
            tracks: Vec::new(),
            error_banner: None,
        }
    }
}

/// The view model after event `ev`:
/// - playback started: playing the event's track from position zero;
/// - paused: paused, no longer playing; resumed: playing, no longer paused;
/// - stopped, or the track ended: nothing playing or paused, no current
///   track, position zero;
/// - the track failed: as stopped, and the banner shows the reason;
/// - a fatal error: nothing playing or paused, and the banner shows it;
/// - a position update: the position is the event's.
/// The track list never changes.
pub open spec fn applied(vm: ViewModel, ev: Event) -> ViewModel {
    match ev {
        Event::PlaybackStarted { track_id } => ViewModel {
            is_playing: true,
            is_paused: false,
            current_track: Some(track_id),
            position_ms: 0,
            ..vm
        },
        Event::PlaybackPaused => ViewModel { is_playing: false, is_paused: true, ..vm },
        Event::PlaybackResumed => ViewModel { is_playing: true, is_paused: false, ..vm },
        Event::PlaybackStopped => ViewModel {
            is_playing: false,
            is_paused: false,
            current_track: None,
            position_ms: 0,
            ..vm
        },
        Event::TrackEnded { .. } => ViewModel {
            is_playing: false,
            is_paused: false,
            current_track: None,
            position_ms: 0,
            ..vm
        },
        Event::TrackFailed { reason, .. } => ViewModel {
            is_playing: false,
            is_paused: false,
            current_track: None,
            position_ms: 0,
            error_banner: Some(reason),
            ..vm
        },
        Event::FatalError(msg) => ViewModel {
            is_playing: false,
            is_paused: false,
            error_banner: Some(msg),
            ..vm
        },
        Event::PositionUpdate { ms } => ViewModel { position_ms: ms, ..vm },
    }
}

/// Playing and paused are never both shown.
pub open spec fn consistent(vm: ViewModel) -> bool {
    !(vm.is_playing && vm.is_paused)
}

impl ViewModel {
    /// The view model after the engine reported `ev`.
    pub fn apply(self, ev: &Event) -> (vm: ViewModel)
        ensures
            vm == applied(self, *ev),
    {
        let mut vm = self;
        match ev {
            Event::PlaybackStarted { track_id } => {
                vm.is_playing = true;
                vm.is_paused = false;
                vm.current_track = Some(*track_id);
                vm.position_ms = 0;
            },
            Event::PlaybackPaused => {
                vm.is_playing = false;
                vm.is_paused = true;
            },
            Event::PlaybackResumed => {
                vm.is_playing = true;
                vm.is_paused = false;
            },
            Event::PlaybackStopped | Event::TrackEnded { .. } => {
                vm.is_playing = false;
                vm.is_paused = false;
                vm.current_track = None;
                vm.position_ms = 0;
            },
            Event::TrackFailed { reason, .. } => {
                vm.is_playing = false;
                vm.is_paused = false;
                vm.current_track = None;
                vm.position_ms = 0;
                vm.error_banner = Some(reason.clone());
            },
            Event::FatalError(msg) => {
                vm.is_playing = false;
                vm.is_paused = false;
                vm.error_banner = Some(msg.clone());
            },
            Event::PositionUpdate { ms } => {
                vm.position_ms = *ms;
            },
        }
        vm
    }

    /// The view model showing the tracks of `lib`, one row per track in
    /// library order; everything else is kept.
    pub fn set_library(self, lib: Arc<Library>) -> (vm: ViewModel)
        ensures
            vm.tracks@.len() == lib@.len(),
            forall|i: int|
                0 <= i < lib@.len() ==> {
                    let row = #[trigger] vm.tracks@[i];
                    let t = lib@[i];
                    &&& row.id == t.id
                    &&& row.title@ == t.title@
                    &&& row.artist@ == text_or_empty(t.artist)
                    &&& row.album@ == text_or_empty(t.album)
                    &&& row.duration_ms == (t.duration@ / 1_000_000) as u64
                },
            vm.is_playing == self.is_playing,
            vm.is_paused == self.is_paused,
            vm.current_track == self.current_track,
            vm.position_ms == self.position_ms,
            vm.error_banner == self.error_banner,
    {
        let tracks = lib.as_slice();
        let mut rows: Vec<TrackRow> = Vec::new();
        let mut i: usize = 0;
        while i < tracks.len()
            invariant
                i <= tracks.len(),
                tracks@ == lib@,
                rows@.len() == i,
                forall|j: int|
                    0 <= j < i ==> {
                        let row = #[trigger] rows@[j];
                        let t = lib@[j];
                        &&& row.id == t.id
                        &&& row.title@ == t.title@
                        &&& row.artist@ == text_or_empty(t.artist)
                        &&& row.album@ == text_or_empty(t.album)
                        &&& row.duration_ms == (t.duration@ / 1_000_000) as u64
                    },
            decreases tracks.len() - i,
        {
            rows.push(TrackRow::from_track(&tracks[i]));
            i = i + 1;
        }
        ViewModel { tracks: rows, ..self }
    }

    /// The view model with the banner showing `message`; everything else is
    /// kept.
    pub fn with_banner(self, message: String) -> (vm: ViewModel)
        ensures
            vm == (ViewModel { error_banner: Some(message), ..self }),
    {
        ViewModel { error_banner: Some(message), ..self }
    }
}

/// Applying any event to a consistent view model leaves it consistent, and
/// never changes the track list.
pub proof fn lemma_apply_keeps_consistent(vm: ViewModel, ev: Event)
    requires
        consistent(vm),
    ensures
        consistent(applied(vm, ev)),
        applied(vm, ev).tracks == vm.tracks,
{
}

/// A position update changes the position and nothing else.
pub proof fn lemma_position_update_only_moves_position(vm: ViewModel, ms: u64)
    ensures
        applied(vm, Event::PositionUpdate { ms }) == (ViewModel { position_ms: ms, ..vm }),
{
}

/// Starting a track, pausing and resuming shows that track playing.
pub proof fn lemma_start_pause_resume_plays(vm: ViewModel, id: TrackId)
    ensures
        ({
            let after = applied(
                applied(applied(vm, Event::PlaybackStarted { track_id: id }), Event::PlaybackPaused),
                Event::PlaybackResumed,
            );
            after.is_playing && !after.is_paused && after.current_track == Some(id)
        }),
{
}

/// After the engine stops, whatever it was doing, nothing is shown playing.
pub proof fn lemma_stop_clears_playback(vm: ViewModel, id: TrackId)
    ensures
        ({
            let after = applied(vm, Event::PlaybackStopped);
            !after.is_playing && !after.is_paused && after.current_track is None && after.position_ms == 0
        }),
        ({
            let after = applied(vm, Event::TrackEnded { track_id: id });
            !after.is_playing && !after.is_paused && after.current_track is None && after.position_ms == 0
        }),
{
}

/// A failed track is shown as a stop is, with the reason in the banner:
/// whatever was shown before, nothing is playing or paused, there is no
/// current track and the position is zero; the track list is kept.
pub proof fn lemma_failure_ends_playback(vm: ViewModel, id: TrackId, reason: String)
    ensures
        ({
            let after = applied(vm, Event::TrackFailed { track_id: id, reason });
            &&& !after.is_playing
            &&& !after.is_paused
            &&& after.current_track is None
            &&& after.position_ms == 0
            &&& after.error_banner == Some(reason)
            &&& after.tracks == vm.tracks
        }),
        applied(vm, Event::TrackFailed { track_id: id, reason }) == (ViewModel {
            error_banner: Some(reason),
            ..applied(vm, Event::PlaybackStopped)
        }),
{
}

} // verus!
