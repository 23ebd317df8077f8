//! What a user's operator can evaluate, and the wrapper that counts the
//! evaluations.

use vstd::prelude::*;

verus! {

/// The types that an operator works on.
pub trait Operator {
    /// A point of the search space. Gradients have this type too.
    type Param;

    /// A matrix of second derivatives.
    type Hessian;

    /// What the operator reports when an evaluation fails.
    type Error;
}

/// An operator that evaluates the cost at a point. A cost is an `i64`: the
/// engine orders costs and never computes with them.
pub trait CostFunction: Operator {
    fn cost(&self, param: &Self::Param) -> Result<i64, Self::Error>;
}

/// An operator that evaluates the gradient at a point.
pub trait Gradient: Operator {
    fn gradient(&self, param: &Self::Param) -> Result<Self::Param, Self::Error>;
}

/// An operator that evaluates the Hessian at a point.
pub trait Hessian: Operator {
    fn hessian(&self, param: &Self::Param) -> Result<<Self as Operator>::Hessian, Self::Error>;
}

/// The value of a counter after one more call. A counter that has reached
/// `u64::MAX` stays there.
pub open spec fn counted(count: u64) -> u64 {
    if count < u64::MAX {
        (count + 1) as u64
    } else {
        count
    }
}

/// The value of a counter after `calls` more calls.
pub open spec fn counted_times(count: u64, calls: nat) -> u64
    decreases calls,
{
    if calls == 0 {
        count
    } else {
        counted(counted_times(count, (calls - 1) as nat))
    }
}

/// An operator together with the number of calls made of each capability.
pub struct OpWrapper<O> {
    op: O,
    cost_func_count: u64,
    grad_func_count: u64,
    hessian_func_count: u64,
}

/// What an `OpWrapper` holds.
pub struct OpWrapperView<O> {
    pub op: O,
    pub cost_func_count: u64,
    pub grad_func_count: u64,
    pub hessian_func_count: u64,
}

impl<O> View for OpWrapper<O> {
    type V = OpWrapperView<O>;

    closed spec fn view(&self) -> OpWrapperView<O> {
        OpWrapperView {
            op: self.op,
            cost_func_count: self.cost_func_count,
            grad_func_count: self.grad_func_count,
            hessian_func_count: self.hessian_func_count,
        }
    }
}

fn bump(count: u64) -> (r: u64)
    ensures
        r == counted(count),
{
    if count < u64::MAX {
        count + 1
    } else {
        count
    }
}

impl<O> OpWrapper<O> {
    /// What a wrapper of `op` holds before any call.
    pub open spec fn new_view(op: O) -> OpWrapperView<O> {
        OpWrapperView { op, cost_func_count: 0, grad_func_count: 0, hessian_func_count: 0 }
    }

    /// Wraps `op`; no call has been counted yet.
    pub fn new(op: O) -> (r: Self)
        ensures
            r@ == Self::new_view(op),
    {
        OpWrapper { op, cost_func_count: 0, grad_func_count: 0, hessian_func_count: 0 }
    }

    /// The wrapped operator.
    pub fn get_op(&self) -> (r: &O)
        ensures
            *r == self@.op,
    {
        &self.op
    }

    /// Gives the operator back.
    pub fn into_op(self) -> (r: O)
        ensures
            r == self@.op,
    {
        self.op
    }

    /// How many times the cost has been asked for.
    pub fn cost_func_count(&self) -> (r: u64)
        ensures
            r == self@.cost_func_count,
    {
        self.cost_func_count
    }

    /// How many times the gradient has been asked for.
    pub fn grad_func_count(&self) -> (r: u64)
        ensures
            r == self@.grad_func_count,
    {
        self.grad_func_count
    }

    /// How many times the Hessian has been asked for.
    pub fn hessian_func_count(&self) -> (r: u64)
        ensures
            r == self@.hessian_func_count,
    {
        self.hessian_func_count
    }
}

impl<O: CostFunction> OpWrapper<O> {
    /// Counts the call, then asks the operator for the cost at `param` and
    /// hands its answer on, failure included.
    pub fn cost(&mut self, param: &O::Param) -> (r: Result<i64, O::Error>)
        ensures
            call_ensures(O::cost, (&old(self)@.op, param), r),
            final(self)@ == (OpWrapperView {
                cost_func_count: counted(old(self)@.cost_func_count),
                ..old(self)@
            }),
    {
        self.cost_func_count = bump(self.cost_func_count);
        self.op.cost(param)
    }
}

impl<O: Gradient> OpWrapper<O> {
    /// Counts the call, then asks the operator for the gradient at `param`
    /// and hands its answer on, failure included.
    pub fn gradient(&mut self, param: &O::Param) -> (r: Result<O::Param, O::Error>)
        ensures
            call_ensures(O::gradient, (&old(self)@.op, param), r),
            final(self)@ == (OpWrapperView {
                grad_func_count: counted(old(self)@.grad_func_count),
                ..old(self)@
            }),
    {
        self.grad_func_count = bump(self.grad_func_count);
        self.op.gradient(param)
    }
}

impl<O: Hessian> OpWrapper<O> {
    /// Counts the call, then asks the operator for the Hessian at `param` and
    /// hands its answer on, failure included.
    pub fn hessian(&mut self, param: &O::Param) -> (r: Result<<O as Operator>::Hessian, O::Error>)
        ensures
            call_ensures(O::hessian, (&old(self)@.op, param), r),
            final(self)@ == (OpWrapperView {
                hessian_func_count: counted(old(self)@.hessian_func_count),
                ..old(self)@
            }),
    {
        self.hessian_func_count = bump(self.hessian_func_count);
        self.op.hessian(param)
    }
}

} // verus!
