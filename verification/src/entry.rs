//! A child of the workspace root as it was seen at scan time, and the rule that
//! picks the children worth inspecting.

use vstd::prelude::*;
use crate::tree::Node;

verus! {

/// A span of time: whole seconds and the part below a second, in nanoseconds.
#[derive(Clone, Copy, Debug, PartialEq, Eq, Structural)]
pub struct Age {
    pub secs: u64,
    pub nanos: u32,
}

impl Age {
    /// The span in nanoseconds, as a mathematical integer.
    pub open spec fn nanoseconds(self) -> nat {
        self.secs as nat * 1_000_000_000 + self.nanos as nat
    }
}

/// A child of the workspace root: its path, the metadata read for it once, and the
/// entries found in it.
#[derive(Debug, PartialEq, Eq)]
pub struct DirectoryEntry {
    /// The path of the entry, as reports show it.
    pub path: String,
    /// Whether the entry is a directory.
    pub is_dir: bool,
    /// The time since the entry was last modified; `None` where the time of the last
    /// modification is unknown or lies in the future.
    pub age: Option<Age>,
    /// The entries directly inside, in listing order; `None` where they were not, or
    /// could not be, listed.
    pub children: Option<Vec<Node>>,
}

/// An entry has to be untouched for longer than this to be a candidate: 30 days.
pub const STALE_AFTER_SECS: u64 = 60 * 60 * 24 * 30;

/// Whether an entry is a candidate for cleaning: a directory whose last modification
/// is known and lies more than `STALE_AFTER_SECS` seconds back, by however little.
pub open spec fn candidate(entry: DirectoryEntry) -> bool {
    entry.is_dir && match entry.age {
        Some(age) => age.nanoseconds() > STALE_AFTER_SECS as nat * 1_000_000_000,
        None => false,
    }
}

/// Decides whether an entry is a candidate for cleaning.
pub fn is_candidate(entry: &DirectoryEntry) -> (r: bool)
    ensures
        r == candidate(*entry),
{
    match entry.age {
        Some(age) => {
            let nanos: u128 = age.secs as u128 * 1_000_000_000 + age.nanos as u128;
            let threshold: u128 = STALE_AFTER_SECS as u128 * 1_000_000_000;
            entry.is_dir && nanos > threshold
        },
        None => false,
    }
}

/// For an age whose part below a second is less than a second, a directory is a
/// candidate exactly when the whole seconds exceed the threshold, or equal it with
/// anything at all below the second.
pub proof fn lemma_candidate_by_parts(entry: DirectoryEntry)
    requires
        entry.age matches Some(age) && age.nanos < 1_000_000_000,
    ensures
        candidate(entry) == (entry.is_dir && (entry.age->0.secs > STALE_AFTER_SECS || (
            entry.age->0.secs == STALE_AFTER_SECS && entry.age->0.nanos > 0))),
{
}

} // verus!
