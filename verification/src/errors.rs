//! The sandbox's error taxonomy: environment failures (the host is missing a
//! collaborator) and logic failures (a request the model rejects at its
//! boundary).

use vstd::prelude::*;

verus! {

/// Everything a sandbox operation can fail with.
#[derive(Clone, Copy, Debug, PartialEq, Eq, Structural)]
pub enum Error {
    /// A shape was requested with a non-positive half-extent.
    NonPositiveExtent,
    /// The scene was already built once; a second build is rejected.
    SceneAlreadyBuilt,
    /// A handle does not refer to a live entity.
    StaleHandle,
    /// The host provides no document to subscribe to.
    NoDocument,
}

impl Error {
    /// True of failures caused by the hosting environment; the rest are
    /// logic errors rejected at the model's boundary.
    pub open spec fn spec_is_environment(self) -> bool {
        self is NoDocument
    }

    /// Classifies this error: environment failure or logic failure.
    pub fn is_environment(&self) -> (r: bool)
        ensures
            r == self.spec_is_environment(),
    {
        match self {
            Error::NoDocument => true,
            _ => false,
        }
    }
}

} // verus!
