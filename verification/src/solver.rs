//! What every algorithm implements.

use vstd::prelude::*;
use crate::delta::IterationDelta;
use crate::errors::Error;
use crate::operator::{OpWrapper, Operator};
use crate::state::IterState;
use crate::termination::TerminationReason;

pub mod trustregion;

verus! {

/// An algorithm that the executor can drive on operators of type `O`.
pub trait Solver<O: Operator> {
    /// Performs one step from `state` and says what the state is to take in.
    /// It may call the operator through `op` any number of times.
    fn next_iter(&mut self, op: &mut OpWrapper<O>, state: &IterState<O>) -> Result<
        IterationDelta<O>,
        Error<O::Error>,
    >;

    /// Says whether the run is over at `state`, which already holds what the
    /// last step returned. `NotTerminated` lets the run go on.
    fn terminate(&self, state: &IterState<O>) -> TerminationReason;
}

/// The setters through which a trust-region method hands a subproblem to the
/// solver that works on it.
pub trait ArgminTrustRegion<F, P, H> {
    /// Sets the radius of the region.
    fn set_radius(&mut self, radius: F);

    /// Sets the gradient at the centre of the region.
    fn set_grad(&mut self, grad: P);

    /// Sets the Hessian at the centre of the region.
    fn set_hessian(&mut self, hessian: H);
}

} // verus!
