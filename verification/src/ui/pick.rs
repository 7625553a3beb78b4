//! Decisions of picking a library folder: a pick whose result arrives after
//! a newer pick was issued is dropped, and a scan either installs all its
//! tracks or, at its first error, shows that error instead.

use vstd::prelude::*;
use std::sync::atomic::{AtomicU64, Ordering};

verus! {

/// Counts the picks issued, so that a late result can tell whether it is
/// still the latest.
#[derive(Default)]
pub struct PickState {
    seq: AtomicU64,
}

impl PickState {
    /// A counter that has issued no pick.
    pub fn new() -> PickState {
        PickState { seq: AtomicU64::new(0) }
    }

    /// Issues a pick and returns its number: the count of picks issued
    /// before it, so 0 for the first.
    pub fn next(&self) -> u64 {
        self.seq.fetch_add(1, Ordering::SeqCst)
    }

    /// The number of the latest pick issued (wrapping to `u64::MAX` before
    /// the first).
    pub fn current(&self) -> u64 {
        self.seq.load(Ordering::SeqCst).wrapping_sub(1)
    }
}

} // verus!
