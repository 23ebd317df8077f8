//! The Cauchy point: the minimum of the quadratic model of the cost within
//! the trust region, along the direction of steepest descent.
//!
//! With gradient `g`, Hessian `H` and radius `r`, the step is
//! `-tau * r / |g| * g`, where `tau` is 1 if `g' H g <= 0` and
//! `min(1, |g|^3 / (r * g' H g))` otherwise.
//!
//! The solver is generic in its scalars and vectors, so what it returns is
//! stated over their operations: the predicates below say which operation is
//! applied to which results, in the order of the formula.

use vstd::prelude::*;
use crate::delta::IterationDelta;
use crate::errors::Error;
use crate::math::{Scalar, VectorSpace};
use crate::operator::{OpWrapper, Operator};
use crate::solver::{ArgminTrustRegion, Solver};
use crate::state::IterState;
use crate::termination::TerminationReason;

verus! {

/// Whether `tau` is the fraction of the radius that the step takes, computed
/// from the gradient's length `gn` and the curvature `wdp` along it: one if
/// `wdp` is at most zero, else the lesser of one and `gn^3 / (radius * wdp)`.
pub open spec fn is_fraction<F: Scalar>(gn: F, wdp: F, radius: F, tau: F) -> bool {
    exists|zero: F, one: F, flat: bool|
        #![trigger call_ensures(F::one, (), one), call_ensures(F::at_most, (&wdp, &zero), flat)]
        {
            &&& call_ensures(F::zero, (), zero)
            &&& call_ensures(F::one, (), one)
            &&& call_ensures(F::at_most, (&wdp, &zero), flat)
            &&& if flat {
                tau == one
            } else {
                is_clipped(gn, wdp, radius, one, tau)
            }
        }
}

/// Whether `tau` is the lesser of `one` and `gn^3 / (radius * wdp)`.
pub open spec fn is_clipped<F: Scalar>(gn: F, wdp: F, radius: F, one: F, tau: F) -> bool {
    exists|cube: F, span: F, ratio: F|
        #![trigger call_ensures(F::over, (&cube, &span), ratio)]
        {
            &&& call_ensures(F::powi, (&gn, 3i32), cube)
            &&& call_ensures(F::times, (&radius, &wdp), span)
            &&& call_ensures(F::over, (&cube, &span), ratio)
            &&& call_ensures(F::min, (&one, &ratio), tau)
        }
}

/// Whether `factor` is `-tau * radius / gn`.
pub open spec fn is_factor<F: Scalar>(tau: F, radius: F, gn: F, factor: F) -> bool {
    exists|down: F, reach: F|
        #![trigger call_ensures(F::times, (&down, &radius), reach)]
        {
            &&& call_ensures(F::neg, (&tau,), down)
            &&& call_ensures(F::times, (&down, &radius), reach)
            &&& call_ensures(F::over, (&reach, &gn), factor)
        }
}

/// Whether `step` is the Cauchy point for gradient `grad`, Hessian `hessian`
/// and radius `radius`: `grad` scaled by `-tau * radius / gn`, with `gn` the
/// length of `grad`, `wdp` the Hessian applied to `grad` twice, and `tau` the
/// fraction that `is_fraction` describes.
pub open spec fn is_cauchy_point<F: Scalar, P: VectorSpace<F, H>, H>(
    radius: F,
    grad: P,
    hessian: H,
    step: P,
) -> bool {
    exists|gn: F, wdp: F, tau: F, factor: F|
        #![trigger is_fraction(gn, wdp, radius, tau), is_factor(tau, radius, gn, factor)]
        {
            &&& call_ensures(P::norm, (&grad,), gn)
            &&& call_ensures(P::weighted_dot, (&grad, &hessian, &grad), wdp)
            &&& is_fraction(gn, wdp, radius, tau)
            &&& is_factor(tau, radius, gn, factor)
            &&& call_ensures(P::scale, (&grad, &factor), step)
        }
}

/// The solver of the trust-region subproblem that steps to the Cauchy point.
/// The enclosing method sets radius, gradient and Hessian before each step.
#[derive(Clone, Debug)]
pub struct CauchyPoint<F, P, H> {
    radius: F,
    grad: P,
    hessian: H,
}

/// What a `CauchyPoint` holds.
pub struct CauchyPointView<F, P, H> {
    /// The radius of the trust region.
    pub radius: F,
    /// The gradient at the centre of the region.
    pub grad: P,
    /// The Hessian at the centre of the region.
    pub hessian: H,
}

impl<F, P, H> View for CauchyPoint<F, P, H> {
    type V = CauchyPointView<F, P, H>;

    closed spec fn view(&self) -> CauchyPointView<F, P, H> {
        CauchyPointView { radius: self.radius, grad: self.grad, hessian: self.hessian }
    }
}

impl<F: Scalar, P: Default, H: Default> CauchyPoint<F, P, H> {
    /// A solver on which nothing is set yet: the radius is the scalars'
    /// marker for that, gradient and Hessian are their types' defaults.
    pub fn new() -> (r: Self)
        ensures
            call_ensures(F::nan, (), r@.radius),
            call_ensures(P::default, (), r@.grad),
            call_ensures(H::default, (), r@.hessian),
    {
        CauchyPoint { radius: F::nan(), grad: P::default(), hessian: H::default() }
    }
}

impl<F, P, H> CauchyPoint<F, P, H> {
    /// The radius that is set.
    pub fn radius(&self) -> (r: &F)
        ensures
            *r == self@.radius,
    {
        &self.radius
    }

    /// The gradient that is set.
    pub fn grad(&self) -> (r: &P)
        ensures
            *r == self@.grad,
    {
        &self.grad
    }

    /// The Hessian that is set.
    pub fn hessian(&self) -> (r: &H)
        ensures
            *r == self@.hessian,
    {
        &self.hessian
    }
}

impl<F, P, H> ArgminTrustRegion<F, P, H> for CauchyPoint<F, P, H> {
    fn set_radius(&mut self, radius: F)
        ensures
            final(self)@ == (CauchyPointView { radius, ..old(self)@ }),
    {
        self.radius = radius;
    }

    fn set_grad(&mut self, grad: P)
        ensures
            final(self)@ == (CauchyPointView { grad, ..old(self)@ }),
    {
        self.grad = grad;
    }

    fn set_hessian(&mut self, hessian: H)
        ensures
            final(self)@ == (CauchyPointView { hessian, ..old(self)@ }),
    {
        self.hessian = hessian;
    }
}

impl<O, F, P, H> Solver<O> for CauchyPoint<F, P, H> where
    O: Operator<Param = P, Hessian = H>,
    F: Scalar,
    P: VectorSpace<F, H>,
 {
    /// Computes the Cauchy point from the radius, gradient and Hessian that
    /// were set, and asks for it as the new current point. The operator is
    /// not called, the state is not read, and the step never fails. With a
    /// gradient of length zero the factor is a quotient by zero, and the step
    /// is what the scalars make of that: the enclosing method is to stop
    /// before it hands such a gradient in.
    fn next_iter(&mut self, op: &mut OpWrapper<O>, state: &IterState<O>) -> (r: Result<
        IterationDelta<O>,
        Error<O::Error>,
    >)
        ensures
            *final(self) == *old(self),
            *final(op) == *old(op),
            r matches Ok(delta) && {
                &&& delta.param matches Some(step) && is_cauchy_point(
                    old(self)@.radius,
                    old(self)@.grad,
                    old(self)@.hessian,
                    step,
                )
                &&& delta.cost is None
                &&& delta.grad is None
                &&& delta.hessian is None
                &&& delta.termination_reason is None
            },
    {
        let grad_norm = self.grad.norm();
        let wdp = self.grad.weighted_dot(&self.hessian, &self.grad);
        let zero = F::zero();
        let one = F::one();
        let flat = wdp.at_most(&zero);
        let tau = if flat {
            one
        } else {
            let cube = grad_norm.powi(3);
            let span = self.radius.times(&wdp);
            let ratio = cube.over(&span);
            let tau = one.min(&ratio);
            assert(is_clipped(grad_norm, wdp, self.radius, one, tau));
            tau
        };
        assert(is_fraction(grad_norm, wdp, self.radius, tau));
        let down = tau.neg();
        let reach = down.times(&self.radius);
        let factor = reach.over(&grad_norm);
        assert(is_factor(tau, self.radius, grad_norm, factor));
        let new_param = self.grad.scale(&factor);
        assert(is_cauchy_point(self.radius, self.grad, self.hessian, new_param));
        Ok(IterationDelta::new().param(new_param))
    }

    /// The subproblem is solved by one step: the run is over as soon as one
    /// iteration is counted.
    fn terminate(&self, state: &IterState<O>) -> (r: TerminationReason)
        ensures
            r == if state@.cur_iter >= 1 {
                TerminationReason::MaxIterationsReached
            } else {
                TerminationReason::NotTerminated
            },
    {
        if state.get_iter() >= 1 {
            TerminationReason::MaxIterationsReached
        } else {
            TerminationReason::NotTerminated
        }
    }
}

} // verus!
