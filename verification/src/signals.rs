//! Cooperative cancellation.
//!
//! A single token, set at most once during a run, polled by the pipeline
//! orchestrator at stage boundaries.

use vstd::prelude::*;

verus! {

/// A cooperative cancellation token: false until a shutdown is requested.
pub struct CancelToken {
    requested: bool,
}

impl CancelToken {
    /// Spec-level value of the token.
    pub closed spec fn is_requested(&self) -> bool {
        self.requested
    }

    /// A fresh token, with no shutdown requested.
    pub fn new() -> (r: CancelToken)
        ensures
            !r.is_requested(),
    {
        CancelToken { requested: false }
    }

    /// Check whether shutdown has been requested.
    pub fn shutdown_requested(&self) -> (r: bool)
        ensures
            r == self.is_requested(),
    {
        self.requested
    }

    /// Request shutdown; the token stays set from here on.
    pub fn request_shutdown(&mut self)
        ensures
            final(self).is_requested(),
    {
        self.requested = true;
    }

    /// Clear the token (test isolation only; a real run never resets it).
    pub fn reset_shutdown(&mut self)
        ensures
            !final(self).is_requested(),
    {
        self.requested = false;
    }
}

} // verus!
