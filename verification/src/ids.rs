//! Plain-value identities and instants used throughout the library.

use vstd::prelude::*;

verus! {

/// Stable 128-bit identity of a tree entry (file, folder, or the workspace
/// root), independent of the entry's path.
#[derive(Clone, Copy, PartialEq, Eq, Structural, Debug)]
pub struct EntryId(pub u128);

/// An instant, counted in microseconds relative to an epoch chosen by the
/// caller.  Negative values sit before the epoch.
#[derive(Clone, Copy, PartialEq, Eq, Structural, Debug)]
pub struct Timestamp {
    pub micros: i64,
}

} // verus!
