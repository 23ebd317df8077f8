//! The driver of a run.
//!
//! While no reason to stop is recorded and the ceiling is not reached, the
//! executor asks the solver for a step, merges what it returns into the
//! state, counts the iteration, records the solver's verdict and notifies the
//! observers. A step that fails aborts the run.

use vstd::prelude::*;
use crate::delta::IterationDelta;
use crate::errors::Error;
use crate::observer::{Observe, ObserverError};
use crate::operator::{counted, counted_times, OpWrapper, Operator};
use crate::solver::Solver;
use crate::state::{IterState, IterStateView};
use crate::termination::TerminationReason;
use crate::trace::{can_judge, can_step, follows, is_run_of, Step};

verus! {

/// What a run that was not aborted hands back.
pub struct OptimizationResult<O: Operator> {
    /// The state at which the run stopped.
    pub state: IterState<O>,
    /// The operator, with the number of calls made of it.
    pub operator: OpWrapper<O>,
}

/// What a run that a failing step aborted hands back.
pub struct RunError<O: Operator> {
    /// The failure, as the step reported it.
    pub error: Error<O::Error>,
    /// The state at which the run was aborted, with `Aborted` recorded.
    pub state: IterState<O>,
    /// The operator, with the number of calls made of it.
    pub operator: OpWrapper<O>,
}

/// The state that a run ended at.
pub open spec fn final_state<O: Operator>(r: Result<OptimizationResult<O>, RunError<O>>) -> IterState<O> {
    match r {
        Ok(done) => done.state,
        Err(aborted) => aborted.state,
    }
}

/// The operator's wrapper as a run left it.
pub open spec fn final_operator<O: Operator>(r: Result<OptimizationResult<O>, RunError<O>>) -> OpWrapper<O> {
    match r {
        Ok(done) => done.operator,
        Err(aborted) => aborted.operator,
    }
}

/// The failure that aborted a run, if one did.
pub open spec fn failure_of<O: Operator>(r: Result<OptimizationResult<O>, RunError<O>>) -> Option<
    Error<O::Error>,
> {
    match r {
        Ok(_) => None,
        Err(aborted) => Some(aborted.error),
    }
}

/// The number of steps that a run asked of the solver: one for each
/// iteration counted, and one more if the run was aborted.
pub open spec fn steps_asked<O: Operator>(
    start: IterStateView<O>,
    r: Result<OptimizationResult<O>, RunError<O>>,
) -> nat {
    let passes = (final_state(r)@.cur_iter - start.cur_iter) as nat;
    if r is Err {
        passes + 1
    } else {
        passes
    }
}

/// An entry of the executor's list of observers.
struct Registered<T> {
    observer: T,
}

impl<T> Registered<T> {
    /// The entry that holds `observer`.
    fn new(observer: T) -> (r: Self)
        ensures
            r.observer == observer,
    {
        Registered { observer }
    }
}

/// Whether `k` is a place in `list`.
spec fn is_place<A>(list: Seq<A>, k: int) -> bool {
    0 <= k < list.len()
}

/// An operator, a solver and a state, ready to run.
#[verifier::reject_recursive_types(O)]
pub struct Executor<O: Operator, S: Solver<O>> {
    solver: S,
    op: OpWrapper<O>,
    state: IterState<O>,
    observers: Vec<Registered<Box<dyn Observe<O>>>>,
}

impl<O: Operator, S: Solver<O>> Executor<O, S> {
    /// The solver that will be driven.
    pub closed spec fn solver(&self) -> S {
        self.solver
    }

    /// The operator's wrapper.
    pub closed spec fn operator(&self) -> OpWrapper<O> {
        self.op
    }

    /// The state from which the run will start.
    pub closed spec fn state(&self) -> IterState<O> {
        self.state
    }

    /// The number of observers registered.
    pub closed spec fn observer_count(&self) -> nat {
        self.observers@.len()
    }

    /// Pairs `op` with `solver`. The state is the one that nothing is
    /// configured on, no call of the operator is counted, and no observer is
    /// registered.
    pub fn new(op: O, solver: S) -> (r: Self)
        ensures
            r.solver() == solver,
            r.operator()@ == OpWrapper::new_view(op),
            r.state()@ == IterStateView::<O>::initial(),
            r.observer_count() == 0,
    {
        Executor { solver, op: OpWrapper::new(op), state: IterState::new(), observers: Vec::new() }
    }

    /// Replaces the state by what `init` makes of it.
    pub fn configure<F: FnOnce(IterState<O>) -> IterState<O>>(self, init: F) -> (r: Self)
        requires
            call_requires(init, (self.state(),)),
        ensures
            call_ensures(init, (self.state(),), r.state()),
            r.solver() == self.solver(),
            r.operator() == self.operator(),
            r.observer_count() == self.observer_count(),
    {
        let Executor { solver, op, state, observers } = self;
        Executor { solver, op, state: init(state), observers }
    }

    /// Registers `observer` behind those that are registered already.
    pub fn add_observer(self, observer: Box<dyn Observe<O>>) -> (r: Self)
        ensures
            r.solver() == self.solver(),
            r.operator() == self.operator(),
            r.state() == self.state(),
            r.observer_count() == self.observer_count() + 1,
    {
        let Executor { solver, op, state, mut observers } = self;
        observers.push(Registered::new(observer));
        Executor { solver, op, state, observers }
    }

    /// Runs the solver until a reason to stop is recorded or the ceiling is
    /// reached, and hands back the state and the operator. A run that a
    /// failing step aborted hands them back with the failure.
    ///
    /// The run is one that `is_run_of` describes, for the steps that the
    /// solver gave. If every step of the solver makes exactly one call of a
    /// capability, the counter of that capability has risen by the number of
    /// steps asked, the one that failed included.
    pub fn run(self) -> (r: Result<OptimizationResult<O>, RunError<O>>)
        ensures
            exists|steps: Seq<Step<O>>| #[trigger]
                is_run_of::<O, S>(self.state()@, steps, failure_of(r), final_state(r)@),
            (forall|solver: &mut S, op: &mut OpWrapper<O>, state: &IterState<O>, out: Result<IterationDelta<O>, Error<O::Error>>|
                #[trigger] call_ensures(S::next_iter, (solver, op, state), out) ==> final(op)@.cost_func_count
                    == counted(op@.cost_func_count)) ==> final_operator(r)@.cost_func_count
                == counted_times(self.operator()@.cost_func_count, steps_asked(self.state()@, r)),
            (forall|solver: &mut S, op: &mut OpWrapper<O>, state: &IterState<O>, out: Result<IterationDelta<O>, Error<O::Error>>|
                #[trigger] call_ensures(S::next_iter, (solver, op, state), out) ==> final(op)@.grad_func_count
                    == counted(op@.grad_func_count)) ==> final_operator(r)@.grad_func_count
                == counted_times(self.operator()@.grad_func_count, steps_asked(self.state()@, r)),
            (forall|solver: &mut S, op: &mut OpWrapper<O>, state: &IterState<O>, out: Result<IterationDelta<O>, Error<O::Error>>|
                #[trigger] call_ensures(S::next_iter, (solver, op, state), out) ==> final(op)@.hessian_func_count
                    == counted(op@.hessian_func_count)) ==> final_operator(r)@.hessian_func_count
                == counted_times(self.operator()@.hessian_func_count, steps_asked(self.state()@, r)),
    {
        let ghost start = self.state@;
        let ghost calls = self.op@;
        let Executor { mut solver, mut op, mut state, mut observers } = self;
        let ghost mut steps: Seq<Step<O>> = Seq::empty();
        while state.running()
            invariant
                start == self.state()@,
                calls == self.operator()@,
                state@ == start.after(steps),
                forall|k: int| 0 <= k < steps.len() ==> (#[trigger] start.after(steps.take(k))).running(),
                follows::<O, S>(start, steps),
                state@.cur_iter == start.cur_iter + steps.len(),
                state@.max_iters == start.max_iters,
                (forall|solver: &mut S, op: &mut OpWrapper<O>, state: &IterState<O>, out: Result<IterationDelta<O>, Error<O::Error>>|
                    #[trigger] call_ensures(S::next_iter, (solver, op, state), out) ==> final(op)@.cost_func_count
                        == counted(op@.cost_func_count)) ==> op@.cost_func_count == counted_times(
                    calls.cost_func_count,
                    steps.len(),
                ),
                (forall|solver: &mut S, op: &mut OpWrapper<O>, state: &IterState<O>, out: Result<IterationDelta<O>, Error<O::Error>>|
                    #[trigger] call_ensures(S::next_iter, (solver, op, state), out) ==> final(op)@.grad_func_count
                        == counted(op@.grad_func_count)) ==> op@.grad_func_count == counted_times(
                    calls.grad_func_count,
                    steps.len(),
                ),
                (forall|solver: &mut S, op: &mut OpWrapper<O>, state: &IterState<O>, out: Result<IterationDelta<O>, Error<O::Error>>|
                    #[trigger] call_ensures(S::next_iter, (solver, op, state), out) ==> final(op)@.hessian_func_count
                        == counted(op@.hessian_func_count)) ==> op@.hessian_func_count == counted_times(
                    calls.hessian_func_count,
                    steps.len(),
                ),
            decreases state@.max_iters - state@.cur_iter,
        {
            proof {
                state.lemma_counters_fit();
            }
            let ghost before = state@;
            let out = solver.next_iter(&mut op, &state);
            assert(can_step::<O, S>(before, out));
            match out {
                Err(error) => {
                    state.terminate(TerminationReason::Aborted);
                    let r = Err(RunError { error, state, operator: op });
                    proof {
                        assert(is_run_of::<O, S>(self.state()@, steps, failure_of(r), final_state(r)@));
                    }
                    return r;
                },
                Ok(delta) => {
                    let ghost taken = delta;
                    state.merge(delta);
                    state.increment_iter();
                    let verdict = solver.terminate(&state);
                    assert(can_judge::<O, S>(before.merged(taken).advanced(), verdict));
                    state.terminate(verdict);
                    proof {
                        let longer = steps.push(Step { delta: taken, verdict });
                        assert(longer.drop_last() =~= steps);
                        assert(longer.last() == Step { delta: taken, verdict });
                        assert(longer.take(steps.len() as int) =~= steps);
                        assert forall|k: int| 0 <= k < longer.len() implies {
                            let at = #[trigger] start.after(longer.take(k));
                            &&& at.running()
                            &&& can_step::<O, S>(at, Ok(longer[k].delta))
                            &&& can_judge::<O, S>(at.merged(longer[k].delta).advanced(), longer[k].verdict)
                        } by {
                            if k < steps.len() {
                                assert(longer.take(k) =~= steps.take(k));
                                assert(start.after(steps.take(k)).running());
                            }
                        }
                        steps = longer;
                    }
                    Self::notify_all(&mut observers, &state);
                },
            }
        }
        state.enforce_ceiling();
        let r = Ok(OptimizationResult { state, operator: op });
        proof {
            assert(is_run_of::<O, S>(self.state()@, steps, failure_of(r), final_state(r)@));
        }
        r
    }

    /// Tells every observer, in the order of their registration, of the
    /// iteration that `state` has just completed. An observer that fails
    /// does not keep the others from being told.
    ///
    /// The list keeps its length, and the observer at each place is what one
    /// call of its `notify`, with `state` and the number of iterations that
    /// `state` counts, has made of the observer that stood there.
    fn notify_all<T: Observe<O>>(observers: &mut Vec<Registered<T>>, state: &IterState<O>)
        ensures
            final(observers)@.len() == old(observers)@.len(),
            forall|k: int| #[trigger]
                is_place(old(observers)@, k) ==> exists|
                    told: &mut T,
                    iter: u64,
                    outcome: Result<(), ObserverError>,
                |
                    {
                        &&& *told == old(observers)@[k].observer
                        &&& *final(told) == final(observers)@[k].observer
                        &&& iter == state@.cur_iter
                        &&& #[trigger] call_ensures(T::notify, (told, state, iter), outcome)
                    },
    {
        let iter: u64 = state.get_iter();
        let mut i: usize = 0;
        while i < observers.len()
            invariant
                iter == state@.cur_iter,
                i <= observers@.len(),
                observers@.len() == old(observers)@.len(),
                forall|k: int| i <= k < observers@.len() ==> observers@[k] == old(observers)@[k],
                forall|k: int| #[trigger]
                    is_place(old(observers)@, k) && k < i ==> exists|
                        told: &mut T,
                        outcome: Result<(), ObserverError>,
                    |
                        {
                            &&& *told == old(observers)@[k].observer
                            &&& *final(told) == observers@[k].observer
                            &&& #[trigger] call_ensures(T::notify, (told, state, iter), outcome)
                        },
            decreases observers@.len() - i,
        {
            let ghost entries = observers@;
            let _ = observers[i].observer.notify(state, iter);
            proof {
                assert forall|k: int| #[trigger]
                    is_place(old(observers)@, k) && k < i + 1 implies exists|
                    told: &mut T,
                    outcome: Result<(), ObserverError>,
                |
                    {
                        &&& *told == old(observers)@[k].observer
                        &&& *final(told) == observers@[k].observer
                        &&& #[trigger] call_ensures(T::notify, (told, state, iter), outcome)
                    } by {
                    if k < i {
                        assert(observers@[k] == entries[k]);
                    }
                }
            }
            i = i + 1;
        }
    }
}

} // verus!
