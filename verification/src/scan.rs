//! What scanning a folder makes of the files it finds: which files are
//! audio, how a probed file becomes a track, how tracks are numbered, and
//! the errors a scan reports.

use vstd::prelude::*;
use crate::library::{Track, TrackId};
use crate::time::Duration;

verus! {

#[verifier::external_type_specification]
#[verifier::external_body]
pub struct ExLoftyError(lofty::error::LoftyError);

#[verifier::external_type_specification]
#[verifier::external_body]
pub struct ExWalkdirError(walkdir::Error);

/// What `camino::Utf8Path::file_name` gives for a path: its last component,
/// if that is a file or folder name (not `..`, a root or a prefix).
pub uninterp spec fn utf8_file_name(path: Seq<char>) -> Option<Seq<char>>;

/// Index of the last `.` in `s`, or -1 where there is none.
pub open spec fn last_dot(s: Seq<char>) -> int
    decreases s.len(),
{
    if s.len() == 0 {
        -1
    } else if s.last() == '.' {
        s.len() - 1
    } else {
        last_dot(s.drop_last())
    }
}

/// The stem of file name `name`, as camino documents it: the entire name if
/// it has no `.`, or if it begins with `.` and has no other; otherwise the
/// part before the final `.`.
pub open spec fn stem_of_name(name: Seq<char>) -> Seq<char> {
    if last_dot(name) <= 0 {
        name
    } else {
        name.take(last_dot(name))
    }
}

/// The stem of `path`, through `camino::Utf8Path::file_stem`: none where
/// the path has no file name, else the stem of its file name.
#[verifier::external_body]
fn file_stem(path: &str) -> (r: Option<String>)
    ensures
        match r {
            Some(s) => utf8_file_name(path@) matches Some(name) && s@ == stem_of_name(name),
            None => utf8_file_name(path@) is None,
        },
{
    match camino::Utf8Path::new(path).file_stem() {
        Some(s) => Some(s.to_string()),
        None => None,
    }
}

/// The `Display` text of a `lofty::error::LoftyError`. Nothing is claimed
/// of the text: it depends on the error's private contents.
#[verifier::external_body]
fn tag_error_text(e: &lofty::error::LoftyError) -> String {
    e.to_string()
}

/// The `Display` text of a `walkdir::Error`. Nothing is claimed of the
/// text: it depends on the error's private contents.
#[verifier::external_body]
fn walk_error_text(e: &walkdir::Error) -> String {
    e.to_string()
}

/// An error met while scanning.
#[derive(Debug)]
pub enum ScanError {
    /// The file's tags could not be read.
    TagRead { path: String, source: lofty::error::LoftyError },
    /// Walking the folder failed.
    Walk(walkdir::Error),
    UnsupportedFormat(String),
}

/// `m` is a text of error `e`: what failed (and, for tags, the path)
/// followed by the underlying error's own text, or the unsupported format.
pub open spec fn describes(e: ScanError, m: Seq<char>) -> bool {
    match e {
        ScanError::TagRead { path, .. } => exists|t: Seq<char>| m == "tag read failed for "@ + path@ + ": "@ + t,
        ScanError::Walk(_) => exists|t: Seq<char>| m == "walk error: "@ + t,
        ScanError::UnsupportedFormat(s) => m == "unsupported format: "@ + s@,
    }
}

impl ScanError {
    /// The text of the error. For a tag-read or walk error it starts with
    /// what failed (and the path) and ends with the underlying error's own
    /// text.
    pub fn message(&self) -> (m: String)
        ensures
            describes(*self, m@),
    {
        match self {
            ScanError::TagRead { path, source } => {
                let detail = tag_error_text(source);
                let mut m = String::from_str("tag read failed for ");
                m.append(path.as_str());
                m.append(": ");
                m.append(detail.as_str());
                m
            },
            ScanError::Walk(e) => {
                let detail = walk_error_text(e);
                String::from_str("walk error: ").concat(detail.as_str())
            },
            ScanError::UnsupportedFormat(s) => String::from_str("unsupported format: ").concat(s.as_str()),
        }
    }
}

/// `c` is the letter `lower` in either ASCII case (or equals `lower`).
pub open spec fn same_ignoring_ascii_case(c: char, lower: char) -> bool {
    c == lower || ('A' <= c <= 'Z' && c as u32 + 32 == lower as u32)
}

/// `s` spells `lower` without regard to ASCII case.
pub open spec fn spells_ignoring_case(s: Seq<char>, lower: Seq<char>) -> bool {
    s.len() == lower.len() && forall|i: int| 0 <= i < s.len() ==> same_ignoring_ascii_case(#[trigger] s[i], lower[i])
}

/// `ext` names an audio format the scanner reads: mp3, flac, wav or ogg,
/// without regard to ASCII case.
pub open spec fn is_audio_extension(ext: Seq<char>) -> bool {
    ||| spells_ignoring_case(ext, seq!['m', 'p', '3'])
    ||| spells_ignoring_case(ext, seq!['f', 'l', 'a', 'c'])
    ||| spells_ignoring_case(ext, seq!['w', 'a', 'v'])
    ||| spells_ignoring_case(ext, seq!['o', 'g', 'g'])
}

fn spells(s: &str, lower: &str) -> (b: bool)
    ensures
        b == spells_ignoring_case(s@, lower@),
{
    let n = s.unicode_len();
    if n != lower.unicode_len() {
        return false;
    }
    let mut i: usize = 0;
    while i < n
        invariant
            n == s@.len(),
            n == lower@.len(),
            i <= n,
            forall|j: int| 0 <= j < i ==> same_ignoring_ascii_case(#[trigger] s@[j], lower@[j]),
        decreases n - i,
    {
        let c = s.get_char(i);
        let l = lower.get_char(i);
        let same = c == l || ('A' <= c && c <= 'Z' && (c as u32) + 32 == (l as u32));
        if !same {
            return false;
        }
        i = i + 1;
    }
    true
}

/// The values a probe of an audio file yields.
#[derive(Debug, Clone, PartialEq)]
pub struct Probe {
    pub title: Option<String>,
    pub artist: Option<String>,
    pub album: Option<String>,
    pub duration: Duration,
    pub sample_rate: Option<u32>,
    pub channels: Option<u8>,
}

/// The title of the track at `path`: its tag title, else the path's file
/// stem, else empty text.
pub open spec fn title_of(path: Seq<char>, tag_title: Option<String>) -> Seq<char> {
    match tag_title {
        Some(t) => t@,
        None => match utf8_file_name(path) {
            Some(name) => stem_of_name(name),
            None => Seq::empty(),
        },
    }
}

/// `t` is the track that the probe of the file at `path` yields, with id
/// `id`: unknown sample rate and channel count become 0, and no ReplayGain
/// adjustment is known.
pub open spec fn is_probed_track(t: Track, path: String, probe: Probe, id: u64) -> bool {
    &&& t.id == TrackId(id)
    &&& t.path == path
    &&& t.title@ == title_of(path@, probe.title)
    &&& t.artist == probe.artist
    &&& t.album == probe.album
    &&& t.duration == probe.duration
    &&& t.sample_rate == (match probe.sample_rate {
        Some(r) => r,
        None => 0,
    })
    &&& t.channels == (match probe.channels {
        Some(c) => c as u16,
        None => 0,
    })
    &&& t.replay_gain_mdb is None
}

/// Number of successful probes among the first `n` results.
pub open spec fn ok_count(s: Seq<Result<(String, Probe), ScanError>>, n: int) -> nat
    decreases n,
{
    if n <= 0 || s.len() == 0 {
        0
    } else if n > s.len() {
        ok_count(s, s.len() as int)
    } else {
        ok_count(s, n - 1) + (if s[n - 1] is Ok { 1nat } else { 0nat })
    }
}

/// The scanner of a folder on disk.
pub struct FilesystemScanner;

impl FilesystemScanner {
    /// Whether a file with extension `extension` is scanned: mp3, flac, wav
    /// and ogg files are, in any ASCII case; files without an extension are
    /// not.
    pub fn accepts(extension: Option<&str>) -> (b: bool)
        ensures
            b == (match extension {
                Some(e) => is_audio_extension(e@),
                None => false,
            }),
    {
        proof {
            reveal_strlit("mp3");
            reveal_strlit("flac");
            reveal_strlit("wav");
            reveal_strlit("ogg");
        }
        match extension {
            Some(e) => spells(e, "mp3") || spells(e, "flac") || spells(e, "wav") || spells(e, "ogg"),
            None => false,
        }
    }

    /// The track with id `id` that the probe of the file at `path` yields.
    pub fn track_from_probe(path: String, probe: Probe, id: u64) -> (t: Track)
        ensures
            is_probed_track(t, path, probe, id),
    {
        let title = match probe.title {
            Some(t) => t,
            None => match file_stem(path.as_str()) {
                Some(stem) => stem,
                None => String::new(),
            },
        };
        let sample_rate = match probe.sample_rate {
            Some(r) => r,
            None => 0,
        };
        let channels: u16 = match probe.channels {
            Some(c) => c as u16,
            None => 0,
        };
        Track {
            id: TrackId(id),
            path,
            title,
            artist: probe.artist,
            album: probe.album,
            duration: probe.duration,
            sample_rate,
            channels,
            replay_gain_mdb: None,
        }
    }

    /// The scan's results in order: each successful probe becomes a track,
    /// numbered from 0 in the order of the successful probes; errors pass
    /// through unchanged.
    pub fn number(probes: Vec<Result<(String, Probe), ScanError>>) -> (r: Vec<Result<Track, ScanError>>)
        ensures
            r@.len() == probes@.len(),
            forall|i: int|
                #![trigger r@[i]]
                0 <= i < probes@.len() ==> match probes@[i] {
                    Ok((path, probe)) => r@[i] matches Ok(t) && is_probed_track(t, path, probe, ok_count(probes@, i) as u64),
                    Err(e) => r@[i] == Err::<Track, ScanError>(e),
                },
    {
        let ghost input = probes@;
        let n = probes.len();
        let mut rest = probes;
        let mut out: Vec<Result<Track, ScanError>> = Vec::new();
        let mut next_id: u64 = 0;
        let ghost mut i: int = 0;
        while rest.len() > 0
            invariant
                0 <= i <= input.len(),
                n == input.len(),
                rest@ == input.skip(i),
                out@.len() == i,
                next_id == ok_count(input, i),
                next_id <= i,
                forall|j: int|
                    #![trigger out@[j]]
                    0 <= j < i ==> match input[j] {
                        Ok((path, probe)) => out@[j] matches Ok(t) && is_probed_track(t, path, probe, ok_count(input, j) as u64),
                        Err(e) => out@[j] == Err::<Track, ScanError>(e),
                    },
            decreases rest.len(),
        {
            let item = rest.remove(0);
            proof {
                assert(item == input[i]);
                assert(rest@ =~= input.skip(i + 1));
            }
            match item {
                Ok((path, probe)) => {
                    let t = FilesystemScanner::track_from_probe(path, probe, next_id);
                    out.push(Ok(t));
                    next_id = next_id + 1;
                },
                Err(e) => {
                    out.push(Err(e));
                },
            }
            proof {
                i = i + 1;
            }
        }
        out
    }
}

/// Counting successful probes never goes down as more results are counted,
/// and goes up at each success.
pub proof fn lemma_ok_count_grows(s: Seq<Result<(String, Probe), ScanError>>, i: int, j: int)
    requires
        0 <= i < j <= s.len(),
    ensures
        ok_count(s, i) + (if s[i] is Ok { 1nat } else { 0nat }) <= ok_count(s, j),
    decreases j - i,
{
    if j > i + 1 {
        lemma_ok_count_grows(s, i, j - 1);
    }
}

/// Numbering gives successful probes distinct ids in scan order: a later
/// success always gets a larger id, and the ids used are 0 up to the number
/// of successes.
pub proof fn lemma_numbering_is_ordered(s: Seq<Result<(String, Probe), ScanError>>, i: int, j: int)
    requires
        0 <= i < j < s.len(),
        s[i] is Ok,
    ensures
        ok_count(s, i) < ok_count(s, j),
        ok_count(s, j) <= ok_count(s, s.len() as int),
        ok_count(s, s.len() as int) <= s.len(),
{
    lemma_ok_count_grows(s, i, j);
    if j < s.len() {
        lemma_ok_count_grows(s, j, s.len() as int);
    }
    lemma_ok_count_bounded(s, s.len() as int);
}

/// At most `n` of the first `n` results succeed.
pub proof fn lemma_ok_count_bounded(s: Seq<Result<(String, Probe), ScanError>>, n: int)
    requires
        0 <= n <= s.len(),
    ensures
        ok_count(s, n) <= n,
    decreases n,
{
    if n > 0 {
        lemma_ok_count_bounded(s, n - 1);
    }
}

/// A scanner for tests, yielding scripted results whatever the folder.
pub struct FakeScanner {
    pub items: Vec<Result<Track, ScanError>>,
}

impl FakeScanner {
    /// The scripted results, in order: tracks are copied, and each error
    /// becomes an unsupported-format error carrying the error's text.
    pub fn results(&self) -> (r: Vec<Result<Track, ScanError>>)
        ensures
            r@.len() == self.items@.len(),
            forall|i: int|
                #![trigger r@[i]]
                0 <= i < self.items@.len() ==> match self.items@[i] {
                    Ok(t) => r@[i] == Ok::<Track, ScanError>(t),
                    Err(e) => r@[i] matches Err(ScanError::UnsupportedFormat(text)) && describes(e, text@),
                },
    {
        let mut out: Vec<Result<Track, ScanError>> = Vec::new();
        let mut i: usize = 0;
        while i < self.items.len()
            invariant
                i <= self.items@.len(),
                out@.len() == i,
                forall|j: int|
                    #![trigger out@[j]]
                    0 <= j < i ==> match self.items@[j] {
                        Ok(t) => out@[j] == Ok::<Track, ScanError>(t),
                        Err(e) => out@[j] matches Err(ScanError::UnsupportedFormat(text)) && describes(e, text@),
                    },
            decreases self.items.len() - i,
        {
            match &self.items[i] {
                Ok(t) => out.push(Ok(t.duplicate())),
                Err(e) => out.push(Err(ScanError::UnsupportedFormat(e.message()))),
            }
            i = i + 1;
        }
        out
    }
}

} // verus!
