//! What the result of a pick leads to.

use vstd::prelude::*;
use crate::library::Track;
use crate::scan::{ScanError, describes};

verus! {

/// The pick numbered `issued` is still the latest when it is the latest
/// pick issued, numbered `current`.
pub open spec fn is_latest(issued: u64, current: u64) -> bool {
    issued == current
}

/// Whether the pick numbered `issued` is still the latest, the latest pick
/// issued being numbered `current`.
pub fn is_latest_pick(issued: u64, current: u64) -> (b: bool)
    ensures
        b == is_latest(issued, current),
{
    issued == current
}

/// Of two picks issued one after the other (numbers wrap around at 2^64),
/// once the second is issued only it is the latest: the first one's result
/// is dropped.
pub proof fn lemma_later_pick_supersedes(first: u64, second: u64)
    requires
        second as int == (first as int + 1) % 0x1_0000_0000_0000_0000,
    ensures
        !is_latest(first, second),
        is_latest(second, second),
{
}

/// What a finished pick of folder `path` leads to.
#[derive(Debug)]
pub enum PickOutcome<P> {
    /// Install the library of `tracks` found in `path`.
    Apply { path: P, tracks: Vec<Track> },
    /// Show this message in the banner and keep the current library.
    Banner(String),
}

/// Index of the first error among the scan results, or -1 if none failed.
pub open spec fn first_error(s: Seq<Result<Track, ScanError>>, from: int) -> int
    decreases s.len() - from,
{
    if from < 0 || from >= s.len() {
        -1
    } else if s[from] is Err {
        from
    } else {
        first_error(s, from + 1)
    }
}

/// The banner text for scan error `e`.
pub open spec fn scan_failure_text(e: ScanError, m: Seq<char>) -> bool {
    m.len() >= 21 && m.take(21) == "Library scan failed: "@ && describes(e, m.skip(21))
}

/// What the scan `results` of folder `path` lead to: at the first error,
/// the banner `Library scan failed: ` followed by that error's text, and no
/// library; without error, the library of all the tracks, in scan order.
pub fn pick_outcome<P>(path: P, results: Vec<Result<Track, ScanError>>) -> (o: PickOutcome<P>)
    ensures
        first_error(results@, 0) >= 0 ==> (o matches PickOutcome::Banner(m) && (
            results@[first_error(results@, 0)] matches Err(e) && scan_failure_text(e, m@))),
        first_error(results@, 0) == -1 ==> (o matches PickOutcome::Apply { path: p, tracks } && p == path
            && tracks@.len() == results@.len() && forall|i: int|
            0 <= i < results@.len() ==> results@[i] == Ok::<Track, ScanError>(#[trigger] tracks@[i])),
{
    let ghost input = results@;
    let mut rest = results;
    let mut tracks: Vec<Track> = Vec::new();
    let ghost mut i: int = 0;
    while rest.len() > 0
        invariant
            0 <= i <= input.len(),
            input == results@,
            rest@ == input.skip(i),
            tracks@.len() == i,
            first_error(input, 0) == first_error(input, i),
            forall|j: int| 0 <= j < i ==> input[j] == Ok::<Track, ScanError>(#[trigger] tracks@[j]),
        decreases rest.len(),
    {
        let item = rest.remove(0);
        proof {
            assert(item == input[i]);
            assert(rest@ =~= input.skip(i + 1));
        }
        match item {
            Ok(t) => {
                proof {
                    assert(first_error(input, i) == first_error(input, i + 1));
                }
                tracks.push(t);
            },
            Err(e) => {
                let text = e.message();
                let m = String::from_str("Library scan failed: ").concat(text.as_str());
                proof {
                    assert(first_error(input, i) == i);
                    reveal_strlit("Library scan failed: ");
                    assert(m@.take(21) =~= "Library scan failed: "@);
                    assert(m@.skip(21) =~= text@);
                }
                return PickOutcome::Banner(m);
            },
        }
        proof {
            i = i + 1;
        }
    }
    PickOutcome::Apply { path, tracks }
}

} // verus!
