//! Shutdown coordinator: a process-wide two-phase flag. The service starts
//! accepting connections and moves to draining exactly once, on the first
//! termination signal; the phase never reverts. While draining, no new
//! connection is accepted, and in-flight work runs to completion.

use vstd::prelude::*;

verus! {

/// The two lifecycle phases of the service.
#[derive(Debug, Clone, Copy, PartialEq, Eq, Structural)]
pub enum ShutdownPhase {
    Accepting,
    Draining,
}

/// The phase after one pass of the signal listener: a termination signal
/// moves the service to draining, and draining is terminal.
pub open spec fn spec_phase_step(phase: ShutdownPhase, signal: bool) -> ShutdownPhase {
    if signal || phase is Draining {
        ShutdownPhase::Draining
    } else {
        phase
    }
}

/// Once the service drains, no later signal observation brings it back to
/// accepting: the transition from accepting to draining happens at most once
/// and is terminal for the process lifetime.
pub proof fn lemma_draining_is_terminal(phase: ShutdownPhase, signal: bool)
    requires
        phase is Draining,
    ensures
        spec_phase_step(phase, signal) is Draining,
{
}

/// Owns the process's shutdown phase.
pub struct ShutdownCoordinator {
    phase: ShutdownPhase,
}

impl ShutdownCoordinator {
    pub closed spec fn spec_phase(&self) -> ShutdownPhase {
        self.phase
    }

    /// A fresh service accepts connections.
    pub fn new() -> (c: ShutdownCoordinator)
        ensures
            c.spec_phase() is Accepting,
    {
        ShutdownCoordinator { phase: ShutdownPhase::Accepting }
    }

    /// Notes whether a termination signal arrived since the last look. The
    /// first signal moves the phase to draining; nothing moves it back.
    pub fn observe_signal(&mut self, signal: bool)
        ensures
            final(self).spec_phase() == spec_phase_step(old(self).spec_phase(), signal),
    {
        if signal {
            self.phase = ShutdownPhase::Draining;
        }
    }

    /// Whether a new inbound connection may be accepted right now.
    pub fn is_accepting(&self) -> (accepting: bool)
        ensures
            accepting == (self.spec_phase() is Accepting),
    {
        match self.phase {
            ShutdownPhase::Accepting => true,
            ShutdownPhase::Draining => false,
        }
    }
}

} // verus!
