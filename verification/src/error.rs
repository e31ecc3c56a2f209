//! Why a seed step stops.

use vstd::prelude::*;

verus! {

/// Why a seed step stops.
#[derive(Clone, Copy, PartialEq, Eq, Structural, Debug)]
pub enum SeedError {
    /// The store holds a blob for an existing file but it could not be read.
    StoreUnreadable,
    /// An event arrived that the current step does not wait for.
    UnexpectedEvent,
}

} // verus!
