//! Why a run has stopped, if it has.

use vstd::prelude::*;

verus! {

/// The reasons for which a run stops. `NotTerminated` is the only value under
/// which a run goes on; every other value is terminal.
#[derive(Clone, Copy, Debug, PartialEq, Eq, Structural)]
pub enum TerminationReason {
    /// The run goes on.
    NotTerminated,
    /// The configured number of iterations has been performed.
    MaxIterationsReached,
    /// The cost has reached the configured target.
    TargetCostReached,
    /// The solver's own criterion is met.
    Converged,
    /// The operator or the solver failed.
    Aborted,
}

impl TerminationReason {
    /// Whether this reason ends a run.
    pub open spec fn is_terminal(self) -> bool {
        self != TerminationReason::NotTerminated
    }

    /// The reason that stands once `verdict` is reported while `self` is
    /// recorded: a terminal reason is never replaced.
    pub open spec fn settled(self, verdict: TerminationReason) -> TerminationReason {
        if self.is_terminal() {
            self
        } else {
            verdict
        }
    }

    /// Whether this reason ends a run.
    pub fn terminated(&self) -> (r: bool)
        ensures
            r == self.is_terminal(),
    {
        !matches!(self, TerminationReason::NotTerminated)
    }

    /// Combines the recorded reason with a newly reported one.
    pub fn settle(self, verdict: TerminationReason) -> (r: TerminationReason)
        ensures
            r == self.settled(verdict),
    {
        if self.terminated() {
            self
        } else {
            verdict
        }
    }
}

/// A terminal reason survives every later verdict.
pub proof fn lemma_terminal_is_final(reason: TerminationReason, verdict: TerminationReason)
    requires
        reason.is_terminal(),
    ensures
        reason.settled(verdict) == reason,
{
}

} // verus!
