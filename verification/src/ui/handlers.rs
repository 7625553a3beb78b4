//! What list events in the user interface turn into: selecting a row never
//! plays anything; activating row `idx` plays the track shown there. Over
//! any sequence of list events, the commands sent are exactly the plays of
//! the rows activated within the list, in order
//! ([`lemma_list_sends_only_activated_plays`]).

use vstd::prelude::*;
use crate::audio::command::{Command, forwarded};
use crate::audio::error::HandleError;
use crate::library::TrackId;
use crate::ui::handle::{PlayerHandle, SendOutcome, outcome_result};

verus! {

/// Anything that accepts playback commands.
pub trait CommandSink: Send + Sync {
    fn send(&self, cmd: Command) -> Result<(), HandleError>;
}

impl CommandSink for PlayerHandle {
    /// Offers every command but a shutdown to the engine unchanged, as
    /// [`forwarded`] decides, and returns the queue's answer; a shutdown is
    /// refused as if the engine were gone, since only the handle's owner may
    /// end the engine.
    fn send(&self, cmd: Command) -> (r: Result<(), HandleError>)
        ensures
            cmd == Command::Shutdown ==> r == Err::<(), HandleError>(HandleError::ThreadClosed),
            cmd != Command::Shutdown ==> exists|o: SendOutcome| r == outcome_result(o),
    {
        match forwarded(cmd) {
            Some(c) => self.offer(c),
            None => Err(HandleError::ThreadClosed),
        }
    }
}

/// The command that activating row `idx` of a list showing `track_ids`
/// sends: playing the track of that row, or nothing where `idx` is negative
/// or past the end (the list may be rebinding).
pub open spec fn activation_spec(track_ids: Seq<TrackId>, idx: i32) -> Option<Command> {
    if 0 <= idx < track_ids.len() {
        Some(Command::Play(track_ids[idx as int]))
    } else {
        None
    }
}

/// The command that activating row `idx` sends, as [`activation_spec`]
/// says.
pub fn activation_command(track_ids: &[TrackId], idx: i32) -> (c: Option<Command>)
    ensures
        c == activation_spec(track_ids@, idx),
{
    if idx >= 0 && (idx as usize) < track_ids.len() {
        Some(Command::Play(track_ids[idx as usize]))
    } else {
        None
    }
}

/// Activation plays only tracks of the list, and only the one in the
/// activated row.
pub proof fn lemma_activation_plays_shown_track(track_ids: Seq<TrackId>, idx: i32)
    ensures
        activation_spec(track_ids, idx) matches Some(cmd) ==> cmd matches Command::Play(id) && track_ids.contains(id)
            && track_ids[idx as int] == id,
        activation_spec(track_ids, idx) is None <==> (idx < 0 || idx >= track_ids.len()),
{
}

/// The command that selecting row `idx` sends: none, whatever the row, since
/// selecting alone never plays.
pub open spec fn selection_spec(track_ids: Seq<TrackId>, idx: i32) -> Option<Command> {
    None
}

/// The command that selecting row `idx` sends, as [`selection_spec`] says.
pub fn selection_command(track_ids: &[TrackId], idx: i32) -> (c: Option<Command>)
    ensures
        c == selection_spec(track_ids@, idx),
{
    None
}

/// An event of the track list.
pub enum ListEvent {
    /// The row with this index became the selected one.
    Selected(i32),
    /// The row with this index was activated (double-clicked).
    Activated(i32),
}

/// The command that list event `ev` sends, as the handlers decide.
pub open spec fn list_command(track_ids: Seq<TrackId>, ev: ListEvent) -> Option<Command> {
    match ev {
        ListEvent::Selected(idx) => selection_spec(track_ids, idx),
        ListEvent::Activated(idx) => activation_spec(track_ids, idx),
    }
}

/// The commands that the list events `evs` send, in order.
pub open spec fn sent_commands(track_ids: Seq<TrackId>, evs: Seq<ListEvent>) -> Seq<Command>
    decreases evs.len(),
{
    if evs.len() == 0 {
        Seq::empty()
    } else {
        let before = sent_commands(track_ids, evs.drop_last());
        match list_command(track_ids, evs.last()) {
            Some(c) => before.push(c),
            None => before,
        }
    }
}

/// Over any sequence of list events, selecting sends nothing; activating a
/// row of the list sends exactly one command, playing that row's track, and
/// activating an index outside the list sends nothing; so every command sent
/// plays a track shown in the list.
pub proof fn lemma_list_sends_only_activated_plays(track_ids: Seq<TrackId>, evs: Seq<ListEvent>, idx: i32)
    ensures
        sent_commands(track_ids, evs.push(ListEvent::Selected(idx))) == sent_commands(track_ids, evs),
        0 <= idx < track_ids.len() ==> sent_commands(track_ids, evs.push(ListEvent::Activated(idx)))
            == sent_commands(track_ids, evs).push(Command::Play(track_ids[idx as int])),
        !(0 <= idx < track_ids.len()) ==> sent_commands(track_ids, evs.push(ListEvent::Activated(idx)))
            == sent_commands(track_ids, evs),
        forall|k: int|
            0 <= k < sent_commands(track_ids, evs).len() ==> exists|j: int|
                0 <= j < track_ids.len() && #[trigger] sent_commands(track_ids, evs)[k] == Command::Play(
                    track_ids[j],
                ),
    decreases evs.len(),
{
    assert(evs.push(ListEvent::Selected(idx)).drop_last() =~= evs);
    assert(evs.push(ListEvent::Activated(idx)).drop_last() =~= evs);
    if evs.len() > 0 {
        let pre = evs.drop_last();
        lemma_list_sends_only_activated_plays(track_ids, pre, idx);
        let before = sent_commands(track_ids, pre);
        assert forall|k: int| 0 <= k < sent_commands(track_ids, evs).len() implies exists|j: int|
            0 <= j < track_ids.len() && #[trigger] sent_commands(track_ids, evs)[k] == Command::Play(
                track_ids[j],
            ) by {
            if k < before.len() {
                assert(sent_commands(track_ids, evs)[k] == before[k]);
            } else {
                match evs.last() {
                    ListEvent::Activated(j) => {
                        assert(sent_commands(track_ids, evs)[k] == Command::Play(track_ids[j as int]));
                    },
                    ListEvent::Selected(_) => {},
                }
            }
        }
    }
}

} // verus!
