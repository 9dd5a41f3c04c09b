//! The shared shutdown signal: one broadcast flag, set exactly once by
//! the liveness monitor, observed by every worker.
//!
//! The flag can only be created unset and set; no operation resets it,
//! so a reader that has once observed `true` can never observe a
//! spurious `false` again.

use vstd::prelude::*;

verus! {

/// The one-shot broadcast flag.
#[derive(Debug)]
pub struct ShutdownSignal {
    raised: bool,
}

impl ShutdownSignal {
    /// Whether the signal has been set.
    pub closed spec fn spec_is_set(&self) -> bool {
        self.raised
    }

    /// A fresh, unset signal.
    pub fn new() -> (s: ShutdownSignal)
        ensures
            !s.spec_is_set(),
    {
        ShutdownSignal { raised: false }
    }

    /// Sets the signal.  Idempotent: the signal is set afterwards whether
    /// or not it already was.
    pub fn set(&mut self)
        ensures
            final(self).spec_is_set(),
    {
        self.raised = true;
    }

    /// Observes the signal.
    pub fn is_set(&self) -> (r: bool)
        ensures
            r == self.spec_is_set(),
    {
        self.raised
    }
}

/// Write-once broadcast: all set signals are one and the same value, so
/// setting an already-set signal changes nothing, and nothing a holder
/// can do makes an observer read the flag as cleared again.
pub proof fn lemma_set_signal_unique(s1: ShutdownSignal, s2: ShutdownSignal)
    requires
        s1.spec_is_set(),
        s2.spec_is_set(),
    ensures
        s1 == s2,
{
}

} // verus!
