//! The one-shot initialization state of the tracing subscriber, modeled
//! as an explicit value owned by the process bootstrap.
//!
//! The bootstrap holds one `TracingState` (behind whatever atomic cell it
//! chooses) and claims it exactly once: the first `swap_initialized`
//! returns false and every later one returns true, so only one caller
//! ever installs the global subscriber.

use vstd::prelude::*;

verus! {

/// Whether tracing has been initialized in this process.
#[derive(Debug, Clone, Copy, PartialEq, Eq, Structural)]
pub struct TracingState {
    /// True once a caller has claimed initialization.
    pub initialized: bool,
}

impl TracingState {
    /// A fresh, unclaimed state.
    pub fn new() -> (r: Self)
        ensures
            !r.initialized,
    {
        TracingState { initialized: false }
    }

    /// Claim initialization: afterwards the state is always claimed, and
    /// the previous value tells the caller whether somebody was first.
    pub fn swap_initialized(&mut self) -> (prev: bool)
        ensures
            final(self).initialized,
            prev == old(self).initialized,
    {
        let prev = self.initialized;
        self.initialized = true;
        prev
    }

    /// Whether initialization has been claimed.
    pub fn is_initialized(&self) -> (r: bool)
        ensures
            r == self.initialized,
    {
        self.initialized
    }
}

} // verus!
