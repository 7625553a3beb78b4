//! Tracks and the library that indexes them by id.

use vstd::prelude::*;
use std::collections::HashMap;
use crate::time::Duration;
use vstd::std_specs::iter::IteratorSpec;

verus! {

broadcast use vstd::std_specs::hash::group_hash_axioms;

/// Identifies a track within a library.
#[derive(Debug, Clone, Copy, PartialEq, Eq, Hash, Structural)]
pub struct TrackId(pub u64);

/// Identifies an album within a library.
#[derive(Debug, Clone, Copy, PartialEq, Eq, Hash, Structural)]
pub struct AlbumId(pub u64);

/// A playable track and what the scanner learned about it.
#[derive(Debug, Clone, PartialEq)]
pub struct Track {
    pub id: TrackId,
    /// Location of the audio file, as UTF-8 text.
    pub path: String,
    pub title: String,
    pub artist: Option<String>,
    pub album: Option<String>,
    pub duration: Duration,
    pub sample_rate: u32,
    pub channels: u16,
    /// ReplayGain adjustment in thousandths of a decibel, where known.
    pub replay_gain_mdb: Option<i32>,
}

/// A copy of an optional text.
fn copy_text(t: &Option<String>) -> (r: Option<String>)
    ensures
        r == *t,
{
    match t {
        Some(s) => Some(s.clone()),
        None => None,
    }
}

/// An optional text, or the empty text where there is none.
pub open spec fn text_or_empty(t: Option<String>) -> Seq<char> {
    match t {
        Some(s) => s@,
        None => Seq::empty(),
    }
}

fn unwrap_text_or_empty(t: &Option<String>) -> (r: String)
    ensures
        r@ == text_or_empty(*t),
{
    match t {
        Some(s) => s.clone(),
        None => String::new(),
    }
}

impl Track {
    /// A field-by-field copy of the track.
    pub fn duplicate(&self) -> (t: Track)
        ensures
            t == *self,
    {
        Track {
            id: self.id,
            path: self.path.clone(),
            title: self.title.clone(),
            artist: copy_text(&self.artist),
            album: copy_text(&self.album),
            duration: self.duration,
            sample_rate: self.sample_rate,
            channels: self.channels,
            replay_gain_mdb: self.replay_gain_mdb,
        }
    }
}

/// One row of the track list shown to the user.
#[derive(Debug, Clone, PartialEq)]
pub struct TrackRow {
    pub id: TrackId,
    pub title: String,
    pub artist: String,
    pub album: String,
    pub duration_ms: u64,
}

impl TrackRow {
    /// The row for track `t`: a missing artist or album becomes empty text
    /// and the duration is given in whole milliseconds, cast to `u64`.
    pub fn from_track(t: &Track) -> (r: TrackRow)
        ensures
            r.id == t.id,
            r.title@ == t.title@,
            r.artist@ == text_or_empty(t.artist),
            r.album@ == text_or_empty(t.album),
            r.duration_ms == (t.duration@ / 1_000_000) as u64,
    {
        let ms = t.duration.as_millis();
        TrackRow {
            id: t.id,
            title: t.title.clone(),
            artist: unwrap_text_or_empty(&t.artist),
            album: unwrap_text_or_empty(&t.album),
            duration_ms: ms as u64,
        }
    }
}

/// Index of the last track in `s` with id `id`, or -1 if there is none.
pub open spec fn last_index_of(s: Seq<Track>, id: TrackId) -> int
    decreases s.len(),
{
    if s.len() == 0 {
        -1
    } else if s.last().id == id {
        s.len() - 1
    } else {
        last_index_of(s.drop_last(), id)
    }
}

/// `last_index_of` finds the last track with the id, or reports that no
/// track has it.
pub proof fn lemma_last_index_of(s: Seq<Track>, id: TrackId)
    ensures
        -1 <= last_index_of(s, id) < s.len(),
        last_index_of(s, id) >= 0 ==> s[last_index_of(s, id)].id == id,
        last_index_of(s, id) >= 0 ==> forall|j: int| last_index_of(s, id) < j < s.len() ==> s[j].id != id,
        last_index_of(s, id) == -1 <==> forall|j: int| 0 <= j < s.len() ==> s[j].id != id,
    decreases s.len(),
{
    if s.len() > 0 {
        lemma_last_index_of(s.drop_last(), id);
        if s.last().id != id {
            assert forall|j: int| 0 <= j < s.len() - 1 implies s[j] == s.drop_last()[j] by {}
        }
    }
}

/// The tracks of a scan, indexed by id. Where several tracks share an id,
/// lookups find the last of them.
pub struct Library {
    tracks: Vec<Track>,
    by_id: HashMap<u64, usize>,
}

impl View for Library {
    type V = Seq<Track>;

    closed spec fn view(&self) -> Seq<Track> {
        self.tracks@
    }
}

impl Library {
    #[verifier::type_invariant]
    closed spec fn indexed(self) -> bool {
        forall|k: u64|
            #![trigger self.by_id@.contains_key(k)]
            (self.by_id@.contains_key(k) <==> last_index_of(self.tracks@, TrackId(k)) >= 0) && (
            self.by_id@.contains_key(k) ==> self.by_id@[k] == last_index_of(self.tracks@, TrackId(k)))
    }

    /// A library of `tracks`, in their order.
    pub fn new(tracks: Vec<Track>) -> (lib: Library)
        ensures
            lib@ == tracks@,
    {
        let mut by_id: HashMap<u64, usize> = HashMap::new();
        let mut i: usize = 0;
        while i < tracks.len()
            invariant
                i <= tracks.len(),
                forall|k: u64|
                    #![trigger by_id@.contains_key(k)]
                    (by_id@.contains_key(k) <==> last_index_of(tracks@.take(i as int), TrackId(k)) >= 0) && (
                    by_id@.contains_key(k) ==> by_id@[k] == last_index_of(tracks@.take(i as int), TrackId(k))),
            decreases tracks.len() - i,
        {
            let k = tracks[i].id.0;
            by_id.insert(k, i);
            proof {
                let t = tracks@.take(i as int + 1);
                assert(t.drop_last() =~= tracks@.take(i as int));
                assert(t.last() == tracks@[i as int]);
                assert forall|k2: u64| #![trigger by_id@.contains_key(k2)]
                    (by_id@.contains_key(k2) <==> last_index_of(t, TrackId(k2)) >= 0) && (
                    by_id@.contains_key(k2) ==> by_id@[k2] == last_index_of(t, TrackId(k2))) by {
                    lemma_last_index_of(tracks@.take(i as int), TrackId(k2));
                }
            }
            i = i + 1;
        }
        proof {
            assert(tracks@.take(tracks.len() as int) =~= tracks@);
        }
        Library { tracks, by_id }
    }

    /// The track with id `id` (the last one, where several share it), or
    /// `None` where no track has it.
    pub fn get(&self, id: TrackId) -> (r: Option<&Track>)
        ensures
            r is Some <==> last_index_of(self@, id) >= 0,
            r matches Some(t) ==> *t == self@[last_index_of(self@, id)],
    {
        proof {
            use_type_invariant(self);
            lemma_last_index_of(self@, id);
        }
        match self.by_id.get(&id.0) {
            Some(i) => {
                assert(self.by_id@.contains_key(id.0));
                Some(&self.tracks[*i])
            },
            None => {
                assert(!self.by_id@.contains_key(id.0));
                None
            },
        }
    }

    /// The tracks, in order.
    pub fn iter(&self) -> (it: std::slice::Iter<'_, Track>)
        ensures
            it.remaining() == self@.as_ref(),
    {
        self.tracks.as_slice().iter()
    }

    /// The tracks, in order, as a slice.
    pub fn as_slice(&self) -> (s: &[Track])
        ensures
            s@ == self@,
    {
        self.tracks.as_slice()
    }

    /// The ids of the tracks, in order.
    pub fn track_ids(&self) -> (ids: Vec<TrackId>)
        ensures
            ids@.len() == self@.len(),
            forall|i: int| 0 <= i < self@.len() ==> #[trigger] ids@[i] == self@[i].id,
    {
        let mut ids: Vec<TrackId> = Vec::new();
        let mut i: usize = 0;
        while i < self.tracks.len()
            invariant
                i <= self.tracks@.len(),
                ids@.len() == i,
                forall|j: int| 0 <= j < i ==> #[trigger] ids@[j] == self.tracks@[j].id,
            decreases self.tracks.len() - i,
        {
            ids.push(self.tracks[i].id);
            i = i + 1;
        }
        ids
    }

    /// Number of tracks.
    pub fn len(&self) -> (n: usize)
        ensures
            n == self@.len(),
    {
        self.tracks.len()
    }

    /// Whether the library holds no track.
    pub fn is_empty(&self) -> (b: bool)
        ensures
            b == (self@.len() == 0),
    {
        self.len() == 0
    }
}

/// Where ids are unique, the library finds each track by its own id.
pub proof fn lemma_unique_ids_find_each_track(tracks: Seq<Track>, i: int)
    requires
        0 <= i < tracks.len(),
        forall|j: int| 0 <= j < tracks.len() && j != i ==> tracks[j].id != tracks[i].id,
    ensures
        last_index_of(tracks, tracks[i].id) == i,
{
    lemma_last_index_of(tracks, tracks[i].id);
}

/// A lookup finds a track exactly when some track has the id, and what it
/// finds has that id.
pub proof fn lemma_lookup_finds_id(tracks: Seq<Track>, id: TrackId)
    ensures
        last_index_of(tracks, id) >= 0 <==> exists|j: int| 0 <= j < tracks.len() && #[trigger] tracks[j].id == id,
        last_index_of(tracks, id) >= 0 ==> tracks[last_index_of(tracks, id)].id == id,
{
    lemma_last_index_of(tracks, id);
}

} // verus!
