//! Events the audio engine reports to the user interface.

use vstd::prelude::*;
use crate::library::TrackId;

verus! {

#[derive(Debug, Clone, PartialEq)]
pub enum Event {
    PlaybackStarted { track_id: TrackId },
    PlaybackPaused,
    PlaybackResumed,
    PlaybackStopped,
    TrackEnded { track_id: TrackId },
    TrackFailed { track_id: TrackId, reason: String },
    FatalError(String),
    PositionUpdate { ms: u64 },
}

impl Event {
    /// A variant-by-variant copy of the event.
    pub fn duplicate(&self) -> (e: Event)
        ensures
            e == *self,
    {
        match self {
            Event::PlaybackStarted { track_id } => Event::PlaybackStarted { track_id: *track_id },
            Event::PlaybackPaused => Event::PlaybackPaused,
            Event::PlaybackResumed => Event::PlaybackResumed,
            Event::PlaybackStopped => Event::PlaybackStopped,
            Event::TrackEnded { track_id } => Event::TrackEnded { track_id: *track_id },
            Event::TrackFailed { track_id, reason } => Event::TrackFailed {
                track_id: *track_id,
                reason: reason.clone(),
            },
            Event::FatalError(msg) => Event::FatalError(msg.clone()),
            Event::PositionUpdate { ms } => Event::PositionUpdate { ms: *ms },
        }
    }
}

} // verus!
