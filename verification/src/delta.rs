//! What one step of a solver hands back.

use vstd::prelude::*;
use crate::operator::Operator;
use crate::termination::TerminationReason;

verus! {

/// The updates that one step of a solver asks for. A field that is `None`
/// leaves the state as it is.
pub struct IterationDelta<O: Operator> {
    /// The new current point.
    pub param: Option<O::Param>,
    /// The cost at the current point.
    pub cost: Option<i64>,
    /// The gradient at the current point.
    pub grad: Option<O::Param>,
    /// The Hessian at the current point.
    pub hessian: Option<O::Hessian>,
    /// A reason to stop that the step itself found.
    pub termination_reason: Option<TerminationReason>,
}

impl<O: Operator> IterationDelta<O> {
    /// The delta that changes nothing.
    pub open spec fn empty() -> Self {
        IterationDelta {
            param: None,
            cost: None,
            grad: None,
            hessian: None,
            termination_reason: None,
        }
    }

    /// The delta that changes nothing.
    pub fn new() -> (r: Self)
        ensures
            r == Self::empty(),
    {
        IterationDelta {
            param: None,
            cost: None,
            grad: None,
            hessian: None,
            termination_reason: None,
        }
    }

    /// Asks for `param` as the new current point.
    pub fn param(self, param: O::Param) -> (r: Self)
        ensures
            r == (IterationDelta { param: Some(param), ..self }),
    {
        let mut delta = self;
        delta.param = Some(param);
        delta
    }

    /// Reports `cost` as the cost at the current point.
    pub fn cost(self, cost: i64) -> (r: Self)
        ensures
            r == (IterationDelta { cost: Some(cost), ..self }),
    {
        let mut delta = self;
        delta.cost = Some(cost);
        delta
    }

    /// Reports `grad` as the gradient at the current point.
    pub fn grad(self, grad: O::Param) -> (r: Self)
        ensures
            r == (IterationDelta { grad: Some(grad), ..self }),
    {
        let mut delta = self;
        delta.grad = Some(grad);
        delta
    }

    /// Reports `hessian` as the Hessian at the current point.
    pub fn hessian(self, hessian: O::Hessian) -> (r: Self)
        ensures
            r == (IterationDelta { hessian: Some(hessian), ..self }),
    {
        let mut delta = self;
        delta.hessian = Some(hessian);
        delta
    }

    /// Asks for the run to stop for `reason`.
    pub fn termination_reason(self, reason: TerminationReason) -> (r: Self)
        ensures
            r == (IterationDelta { termination_reason: Some(reason), ..self }),
    {
        let mut delta = self;
        delta.termination_reason = Some(reason);
        delta
    }
}

} // verus!
