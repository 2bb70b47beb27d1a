//! Errors reported by the scheduler.

use vstd::prelude::*;

verus! {

/// The ways in which a scheduler operation can end without a path.
#[derive(Debug, Clone, PartialEq, Eq)]
pub enum Error {
    /// The configuration names no known scheduling algorithm.
    InvalidConfig(String),
    /// No path can carry a packet right now; the caller retries on its next
    /// wake-up.
    NoPathAvailable,
    /// Every path of the current burst has been handed out; the caller stops
    /// packing.
    Done,
}

} // verus!
