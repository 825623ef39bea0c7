//! Shutdown coordination: however many termination signals arrive, the
//! registry cleanup that precedes exit is claimed exactly once. The signal
//! listener holds this coordinator behind the same lock as the registry, so
//! the claim also never overlaps a registration or a poll-driven read.

use vstd::prelude::*;

verus! {

/// The one-shot gate in front of the cleanup that precedes process exit.
pub struct ShutdownCoordinator {
    /// Whether a signal has already claimed the cleanup run.
    pub cleanup_claimed: bool,
}

impl ShutdownCoordinator {
    /// A coordinator that has not yet seen a termination signal.
    pub fn new() -> (r: ShutdownCoordinator)
        ensures
            !r.cleanup_claimed,
    {
        ShutdownCoordinator { cleanup_claimed: false }
    }

    /// Claims the cleanup run for the calling signal: the first claim is
    /// granted, every later one is refused, so cleanup runs at most once.
    pub fn claim_cleanup(&mut self) -> (granted: bool)
        ensures
            final(self).cleanup_claimed,
            granted == !old(self).cleanup_claimed,
    {
        let granted = !self.cleanup_claimed;
        self.cleanup_claimed = true;
        granted
    }
}

} // verus!
