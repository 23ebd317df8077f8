//! The record of a run's progress.

use vstd::prelude::*;
use crate::delta::IterationDelta;
use crate::operator::Operator;
use crate::termination::TerminationReason;

verus! {

/// Orders two costs of which either may be unknown. An unknown cost lies
/// above every known one.
pub open spec fn cost_at_most(a: Option<i64>, b: Option<i64>) -> bool {
    match (a, b) {
        (_, None) => true,
        (None, Some(_)) => false,
        (Some(x), Some(y)) => x <= y,
    }
}

/// What an `IterState` holds.
pub struct IterStateView<O: Operator> {
    /// The current point.
    pub param: Option<O::Param>,
    /// The point at which the lowest cost was reported.
    pub best_param: Option<O::Param>,
    /// The cost last reported.
    pub cost: Option<i64>,
    /// The lowest cost reported so far.
    pub best_cost: Option<i64>,
    /// The cost at which a solver may stop.
    pub target_cost: Option<i64>,
    /// The gradient last reported.
    pub grad: Option<O::Param>,
    /// The Hessian last reported.
    pub hessian: Option<O::Hessian>,
    /// The number of iterations performed.
    pub cur_iter: nat,
    /// The number of iterations after which a run stops in any case.
    pub max_iters: nat,
    /// Why the run has stopped, if it has.
    pub termination_reason: TerminationReason,
}

impl<O: Operator> IterStateView<O> {
    /// The state before anything is configured.
    pub open spec fn initial() -> Self {
        IterStateView {
            param: None,
            best_param: None,
            cost: None,
            best_cost: None,
            target_cost: None,
            grad: None,
            hessian: None,
            cur_iter: 0,
            max_iters: u64::MAX as nat,
            termination_reason: TerminationReason::NotTerminated,
        }
    }

    /// The lowest cost is at most the current one.
    pub open spec fn consistent(self) -> bool {
        cost_at_most(self.best_cost, self.cost)
    }

    /// Whether `cost` is known and lies below the lowest cost so far.
    pub open spec fn improved_by(self, cost: Option<i64>) -> bool {
        cost matches Some(c) && (self.best_cost matches Some(b) ==> c < b)
    }

    /// The state after `delta` is taken in: each field that `delta` holds
    /// replaces the state's; a cost below the lowest so far becomes the
    /// lowest, and the point that is then current becomes the best; a reason
    /// to stop is recorded unless one already is.
    pub open spec fn merged(self, delta: IterationDelta<O>) -> Self {
        let param = if delta.param is Some { delta.param } else { self.param };
        let improved = self.improved_by(delta.cost);
        IterStateView {
            param,
            best_param: if improved { param } else { self.best_param },
            cost: if delta.cost is Some { delta.cost } else { self.cost },
            best_cost: if improved { delta.cost } else { self.best_cost },
            grad: if delta.grad is Some { delta.grad } else { self.grad },
            hessian: if delta.hessian is Some { delta.hessian } else { self.hessian },
            termination_reason: match delta.termination_reason {
                Some(reason) => self.termination_reason.settled(reason),
                None => self.termination_reason,
            },
            ..self
        }
    }

    /// The state with one more iteration counted.
    pub open spec fn advanced(self) -> Self {
        IterStateView { cur_iter: self.cur_iter + 1, ..self }
    }

    /// The state after `verdict` is reported: it is recorded unless a
    /// terminal reason already is.
    pub open spec fn settled(self, verdict: TerminationReason) -> Self {
        IterStateView { termination_reason: self.termination_reason.settled(verdict), ..self }
    }

    /// The state after one pass of the executor's loop in which the solver
    /// returned `delta` and then gave `verdict`.
    pub open spec fn pass(self, delta: IterationDelta<O>, verdict: TerminationReason) -> Self {
        self.merged(delta).advanced().settled(verdict)
    }

    /// Whether the executor's loop goes on from this state.
    pub open spec fn running(self) -> bool {
        !self.termination_reason.is_terminal() && self.cur_iter < self.max_iters
    }

    /// The state with the ceiling enforced: a run that no reason has stopped
    /// and that has performed `max_iters` iterations stops for that.
    pub open spec fn capped(self) -> Self {
        if !self.termination_reason.is_terminal() && self.cur_iter >= self.max_iters {
            IterStateView { termination_reason: TerminationReason::MaxIterationsReached, ..self }
        } else {
            self
        }
    }
}

/// The cost last reported and the lowest one reported so far. The lowest is
/// never above the last.
struct CostRecord {
    cost: Option<i64>,
    best_cost: Option<i64>,
}

impl CostRecord {
    #[verifier::type_invariant]
    spec fn inv(&self) -> bool {
        cost_at_most(self.best_cost, self.cost)
    }

    fn new() -> (r: Self)
        ensures
            r.cost is None,
            r.best_cost is None,
    {
        CostRecord { cost: None, best_cost: None }
    }

    /// Takes `cost` in and says whether it is the lowest so far.
    fn report(&mut self, cost: i64) -> (improved: bool)
        ensures
            improved == (old(self).best_cost matches Some(b) ==> cost < b),
            final(self).cost == Some(cost),
            final(self).best_cost == if improved { Some(cost) } else { old(self).best_cost },
    {
        proof {
            use_type_invariant(&*self);
        }
        let improved = match self.best_cost {
            Some(b) => cost < b,
            None => true,
        };
        if improved {
            self.best_cost = Some(cost);
        }
        self.cost = Some(cost);
        improved
    }
}

/// The record of a run's progress: the current and the best point, their
/// costs, the derivatives last reported, the iteration counter with its
/// ceiling, and the reason for which the run has stopped.
pub struct IterState<O: Operator> {
    param: Option<O::Param>,
    // The best point, while it is not the current one.
    kept_best: Option<O::Param>,
    // Whether the current point is the best one.
    best_is_current: bool,
    costs: CostRecord,
    target_cost: Option<i64>,
    grad: Option<O::Param>,
    hessian: Option<O::Hessian>,
    cur_iter: u64,
    max_iters: u64,
    termination_reason: TerminationReason,
}

impl<O: Operator> View for IterState<O> {
    type V = IterStateView<O>;

    closed spec fn view(&self) -> IterStateView<O> {
        IterStateView {
            param: self.param,
            best_param: if self.best_is_current { self.param } else { self.kept_best },
            cost: self.costs.cost,
            best_cost: self.costs.best_cost,
            target_cost: self.target_cost,
            grad: self.grad,
            hessian: self.hessian,
            cur_iter: self.cur_iter as nat,
            max_iters: self.max_iters as nat,
            termination_reason: self.termination_reason,
        }
    }
}

impl<O: Operator> IterState<O> {
    /// The state before anything is configured: nothing is known, no
    /// iteration is counted, and the ceiling is as high as it can be.
    pub fn new() -> (r: Self)
        ensures
            r@ == IterStateView::<O>::initial(),
    {
        IterState {
            param: None,
            kept_best: None,
            best_is_current: false,
            costs: CostRecord::new(),
            target_cost: None,
            grad: None,
            hessian: None,
            cur_iter: 0,
            max_iters: u64::MAX,
            termination_reason: TerminationReason::NotTerminated,
        }
    }

    /// Sets the current point.
    pub fn param(self, param: O::Param) -> (r: Self)
        ensures
            r@ == (IterStateView { param: Some(param), ..self@ }),
    {
        let mut state = self;
        if state.best_is_current {
            state.kept_best = state.param.take();
            state.best_is_current = false;
        }
        state.param = Some(param);
        state
    }

    /// Sets the ceiling on the number of iterations.
    pub fn max_iters(self, max_iters: u64) -> (r: Self)
        ensures
            r@ == (IterStateView { max_iters: max_iters as nat, ..self@ }),
    {
        let mut state = self;
        state.max_iters = max_iters;
        state
    }

    /// Sets the cost at which a solver may stop.
    pub fn target_cost(self, target_cost: i64) -> (r: Self)
        ensures
            r@ == (IterStateView { target_cost: Some(target_cost), ..self@ }),
    {
        let mut state = self;
        state.target_cost = Some(target_cost);
        state
    }

    /// Both counters are machine integers.
    pub proof fn lemma_counters_fit(&self)
        ensures
            self@.cur_iter <= u64::MAX,
            self@.max_iters <= u64::MAX,
    {
    }

    /// Takes `delta` in.
    pub fn merge(&mut self, delta: IterationDelta<O>)
        ensures
            final(self)@ == old(self)@.merged(delta),
            final(self)@.consistent(),
    {
        let improved = match delta.cost {
            Some(cost) => self.costs.report(cost),
            None => false,
        };
        proof {
            use_type_invariant(&self.costs);
        }
        if delta.param.is_some() {
            if !improved && self.best_is_current {
                self.kept_best = self.param.take();
                self.best_is_current = false;
            }
            self.param = delta.param;
        }
        if improved {
            self.best_is_current = true;
        }
        if delta.grad.is_some() {
            self.grad = delta.grad;
        }
        if delta.hessian.is_some() {
            self.hessian = delta.hessian;
        }
        match delta.termination_reason {
            Some(reason) => {
                self.termination_reason = self.termination_reason.settle(reason);
            },
            None => {},
        }
    }

    /// Counts one more iteration.
    pub fn increment_iter(&mut self)
        requires
            old(self)@.cur_iter < u64::MAX,
        ensures
            final(self)@ == old(self)@.advanced(),
    {
        self.cur_iter = self.cur_iter + 1;
    }

    /// Records `verdict`, unless a terminal reason is recorded already.
    pub fn terminate(&mut self, verdict: TerminationReason)
        ensures
            final(self)@ == old(self)@.settled(verdict),
    {
        self.termination_reason = self.termination_reason.settle(verdict);
    }

    /// Enforces the ceiling on the number of iterations.
    pub fn enforce_ceiling(&mut self)
        ensures
            final(self)@ == old(self)@.capped(),
    {
        if !self.termination_reason.terminated() && self.cur_iter >= self.max_iters {
            self.termination_reason = TerminationReason::MaxIterationsReached;
        }
    }

    /// The current point.
    pub fn get_param(&self) -> (r: Option<&O::Param>)
        ensures
            r == match self@.param {
                Some(param) => Some(&param),
                None => None,
            },
    {
        self.param.as_ref()
    }

    /// The point at which the lowest cost was reported.
    pub fn get_best_param(&self) -> (r: Option<&O::Param>)
        ensures
            r == match self@.best_param {
                Some(param) => Some(&param),
                None => None,
            },
    {
        if self.best_is_current {
            self.param.as_ref()
        } else {
            self.kept_best.as_ref()
        }
    }

    /// The cost last reported.
    pub fn get_cost(&self) -> (r: Option<i64>)
        ensures
            r == self@.cost,
    {
        self.costs.cost
    }

    /// The lowest cost reported so far. It is at most the cost last reported.
    pub fn get_best_cost(&self) -> (r: Option<i64>)
        ensures
            r == self@.best_cost,
            self@.consistent(),
    {
        proof {
            use_type_invariant(&self.costs);
        }
        self.costs.best_cost
    }

    /// The cost at which a solver may stop.
    pub fn get_target_cost(&self) -> (r: Option<i64>)
        ensures
            r == self@.target_cost,
    {
        self.target_cost
    }

    /// The gradient last reported.
    pub fn get_grad(&self) -> (r: Option<&O::Param>)
        ensures
            r == match self@.grad {
                Some(grad) => Some(&grad),
                None => None,
            },
    {
        self.grad.as_ref()
    }

    /// The Hessian last reported.
    pub fn get_hessian(&self) -> (r: Option<&O::Hessian>)
        ensures
            r == match self@.hessian {
                Some(hessian) => Some(&hessian),
                None => None,
            },
    {
        self.hessian.as_ref()
    }

    /// The ceiling on the number of iterations.
    pub fn get_max_iters(&self) -> (r: u64)
        ensures
            r == self@.max_iters,
    {
        self.max_iters
    }

    /// Why the run has stopped, if it has.
    pub fn get_termination_reason(&self) -> (r: TerminationReason)
        ensures
            r == self@.termination_reason,
    {
        self.termination_reason
    }

    /// Whether a terminal reason is recorded.
    pub fn terminated(&self) -> (r: bool)
        ensures
            r == self@.termination_reason.is_terminal(),
    {
        self.termination_reason.terminated()
    }

    /// The number of iterations performed.
    pub fn get_iter(&self) -> (r: u64)
        ensures
            r == self@.cur_iter,
    {
        self.cur_iter
    }

    /// Whether the executor's loop goes on from this state.
    pub fn running(&self) -> (r: bool)
        ensures
            r == self@.running(),
    {
        !self.termination_reason.terminated() && self.cur_iter < self.max_iters
    }
}

} // verus!
