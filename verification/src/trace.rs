//! The course of a run, told as the sequence of what the solver gave, and
//! what holds of every such course.

use vstd::prelude::*;
use crate::delta::IterationDelta;
use crate::errors::Error;
use crate::operator::{counted_times, OpWrapper, Operator};
use crate::solver::Solver;
use crate::state::{cost_at_most, IterState, IterStateView};
use crate::termination::TerminationReason;

verus! {

/// What the solver gave in one pass of the loop: the delta that its step
/// returned and its verdict on the state that had taken the delta in.
pub struct Step<O: Operator> {
    /// What the step returned.
    pub delta: IterationDelta<O>,
    /// What the solver said of the state after the pass.
    pub verdict: TerminationReason,
}

impl<O: Operator> Step<O> {
    /// Whether neither the step nor the verdict asks for the run to stop.
    pub open spec fn goes_on(self) -> bool {
        &&& self.verdict == TerminationReason::NotTerminated
        &&& self.delta.termination_reason matches Some(reason) ==> !reason.is_terminal()
    }
}

impl<O: Operator> IterStateView<O> {
    /// The state after one pass for each of `steps`, in their order.
    pub open spec fn after(self, steps: Seq<Step<O>>) -> Self
        decreases steps.len(),
    {
        if steps.len() == 0 {
            self
        } else {
            self.after(steps.drop_last()).pass(steps.last().delta, steps.last().verdict)
        }
    }
}

/// Whether a run that starts at `start` ends at `end` when the solver gives
/// `steps`, one for each pass, and then, if `failed`, fails at its next step.
/// Before each pass the loop must be going on. A run that does not fail ends
/// where the loop stops, with the ceiling enforced; a run that fails ends
/// where the loop was still going on, with `Aborted` recorded.
pub open spec fn is_run<O: Operator>(
    start: IterStateView<O>,
    steps: Seq<Step<O>>,
    failed: bool,
    end: IterStateView<O>,
) -> bool {
    &&& forall|k: int| 0 <= k < steps.len() ==> (#[trigger] start.after(steps.take(k))).running()
    &&& if failed {
        &&& start.after(steps).running()
        &&& end == start.after(steps).settled(TerminationReason::Aborted)
    } else {
        &&& !start.after(steps).running()
        &&& end == start.after(steps).capped()
    }
}

/// Whether `out` is something that a step of a solver of type `S` can return
/// when it is handed a state that holds `at`.
pub open spec fn can_step<O: Operator, S: Solver<O>>(
    at: IterStateView<O>,
    out: Result<IterationDelta<O>, Error<O::Error>>,
) -> bool {
    exists|solver: &mut S, op: &mut OpWrapper<O>, state: IterState<O>|
        state@ == at && #[trigger] call_ensures(S::next_iter, (solver, op, &state), out)
}

/// Whether `verdict` is something that a solver of type `S` can say of a
/// state that holds `at`.
pub open spec fn can_judge<O: Operator, S: Solver<O>>(
    at: IterStateView<O>,
    verdict: TerminationReason,
) -> bool {
    exists|solver: S, state: IterState<O>|
        state@ == at && #[trigger] call_ensures(S::terminate, (&solver, &state), verdict)
}

/// Whether a solver of type `S` can have given `steps` from `start` on: each
/// delta is what a step can return on the state before its pass, and each
/// verdict is what the solver can say of that state once it has taken the
/// delta in and counted the iteration.
pub open spec fn follows<O: Operator, S: Solver<O>>(
    start: IterStateView<O>,
    steps: Seq<Step<O>>,
) -> bool {
    forall|k: int|
        0 <= k < steps.len() ==> {
            let before = #[trigger] start.after(steps.take(k));
            &&& can_step::<O, S>(before, Ok(steps[k].delta))
            &&& can_judge::<O, S>(before.merged(steps[k].delta).advanced(), steps[k].verdict)
        }
}

/// Whether a run of a solver of type `S` that starts at `start` can end at
/// `end`, with `failure` if it was aborted: the solver gave `steps` and
/// then, in an aborted run, failed with `failure` at its next step.
pub open spec fn is_run_of<O: Operator, S: Solver<O>>(
    start: IterStateView<O>,
    steps: Seq<Step<O>>,
    failure: Option<Error<O::Error>>,
    end: IterStateView<O>,
) -> bool {
    &&& is_run(start, steps, failure is Some, end)
    &&& follows::<O, S>(start, steps)
    &&& failure matches Some(error) ==> can_step::<O, S>(start.after(steps), Err(error))
}

/// Whether solvers of type `S` never stop a run by themselves: no step
/// fails or asks for the run to stop, and every verdict is `NotTerminated`.
pub open spec fn never_stops<O: Operator, S: Solver<O>>() -> bool {
    &&& forall|solver: &mut S, op: &mut OpWrapper<O>, state: &IterState<O>, out: Result<IterationDelta<O>, Error<O::Error>>|
        #[trigger] call_ensures(S::next_iter, (solver, op, state), out) ==> (out matches Ok(delta) && (
        delta.termination_reason matches Some(reason) ==> !reason.is_terminal()))
    &&& forall|solver: &S, state: &IterState<O>, verdict: TerminationReason|
        #[trigger] call_ensures(S::terminate, (solver, state), verdict) ==> verdict
            == TerminationReason::NotTerminated
}

/// The state after `k + 1` passes is the state after `k` passes with the
/// pass of `steps[k]` applied.
pub proof fn lemma_next_pass<O: Operator>(start: IterStateView<O>, steps: Seq<Step<O>>, k: int)
    requires
        0 <= k < steps.len(),
    ensures
        start.after(steps.take(k + 1)) == start.after(steps.take(k)).pass(
            steps[k].delta,
            steps[k].verdict,
        ),
{
    assert(steps.take(k + 1).drop_last() =~= steps.take(k));
    assert(steps.take(k + 1).last() == steps[k]);
}

/// Each pass counts exactly one iteration: after `k` passes the counter
/// stands `k` above where it started, so each pass raised it by one.
pub proof fn lemma_each_pass_counts_one<O: Operator>(
    start: IterStateView<O>,
    steps: Seq<Step<O>>,
    k: int,
)
    requires
        0 <= k <= steps.len(),
    ensures
        start.after(steps.take(k)).cur_iter == start.cur_iter + k,
        k > 0 ==> start.after(steps.take(k)).cur_iter == start.after(steps.take(k - 1)).cur_iter + 1,
        start.after(steps.take(k)).max_iters == start.max_iters,
    decreases k,
{
    if k > 0 {
        lemma_each_pass_counts_one(start, steps, k - 1);
        lemma_next_pass(start, steps, k - 1);
    }
}

/// The order of costs is transitive.
pub proof fn lemma_cost_order_transitive(a: Option<i64>, b: Option<i64>, c: Option<i64>)
    requires
        cost_at_most(a, b),
        cost_at_most(b, c),
    ensures
        cost_at_most(a, c),
{
}

/// A pass never raises the lowest cost, leaves it at most the cost that the
/// pass took in, and keeps it at most the current cost.
pub proof fn lemma_pass_keeps_best<O: Operator>(
    state: IterStateView<O>,
    delta: IterationDelta<O>,
    verdict: TerminationReason,
)
    ensures
        cost_at_most(state.pass(delta, verdict).best_cost, state.best_cost),
        cost_at_most(state.pass(delta, verdict).best_cost, delta.cost),
        state.consistent() ==> state.pass(delta, verdict).consistent(),
{
}

/// Over a whole course the lowest cost never rises: after `k` passes it is
/// at most what it was after any `j <= k` of them, and at most the cost that
/// any of the first `k` passes took in.
pub proof fn lemma_best_cost_is_lowest<O: Operator>(
    start: IterStateView<O>,
    steps: Seq<Step<O>>,
    j: int,
    k: int,
)
    requires
        0 <= j <= k <= steps.len(),
    ensures
        cost_at_most(start.after(steps.take(k)).best_cost, start.after(steps.take(j)).best_cost),
        j < k ==> cost_at_most(start.after(steps.take(k)).best_cost, steps[j].delta.cost),
    decreases k - j,
{
    if j < k {
        lemma_best_cost_is_lowest(start, steps, j, k - 1);
        lemma_next_pass(start, steps, k - 1);
        let before = start.after(steps.take(k - 1));
        lemma_pass_keeps_best(before, steps[k - 1].delta, steps[k - 1].verdict);
        lemma_cost_order_transitive(
            start.after(steps.take(k)).best_cost,
            before.best_cost,
            start.after(steps.take(j)).best_cost,
        );
        if j < k - 1 {
            lemma_cost_order_transitive(
                start.after(steps.take(k)).best_cost,
                before.best_cost,
                steps[j].delta.cost,
            );
        }
    }
}

/// A terminal reason, once recorded, is never replaced: not by a pass, and
/// not by the ceiling.
pub proof fn lemma_terminal_reason_stays<O: Operator>(
    state: IterStateView<O>,
    delta: IterationDelta<O>,
    verdict: TerminationReason,
)
    requires
        state.termination_reason.is_terminal(),
    ensures
        state.merged(delta).termination_reason == state.termination_reason,
        state.settled(verdict) == state,
        state.pass(delta, verdict).termination_reason == state.termination_reason,
        state.capped() == state,
{
}

/// Once a terminal reason is recorded, the run performs no further pass: a
/// state of a run that holds a terminal reason is the state that the run
/// ends at.
pub proof fn lemma_no_pass_after_termination<O: Operator>(
    start: IterStateView<O>,
    steps: Seq<Step<O>>,
    failed: bool,
    end: IterStateView<O>,
    k: int,
)
    requires
        is_run(start, steps, failed, end),
        0 <= k <= steps.len(),
        start.after(steps.take(k)).termination_reason.is_terminal(),
    ensures
        k == steps.len(),
        !failed,
        end == start.after(steps.take(k)),
{
    if k < steps.len() {
        assert(start.after(steps.take(k)).running());
    }
    assert(steps.take(k) =~= steps);
}

/// While neither the steps nor the verdicts ask for the run to stop, no
/// reason is recorded.
pub proof fn lemma_goes_on<O: Operator>(start: IterStateView<O>, steps: Seq<Step<O>>, k: int)
    requires
        0 <= k <= steps.len(),
        !start.termination_reason.is_terminal(),
        forall|i: int| 0 <= i < steps.len() ==> (#[trigger] steps[i]).goes_on(),
    ensures
        !start.after(steps.take(k)).termination_reason.is_terminal(),
    decreases k,
{
    if k > 0 {
        lemma_goes_on(start, steps, k - 1);
        lemma_next_pass(start, steps, k - 1);
        assert(steps[k - 1].goes_on());
    }
}

/// The ceiling is a safety net: a run that does not fail, and in which
/// neither the steps nor the verdicts ever ask to stop, performs exactly the
/// iterations that were left up to the ceiling and ends with
/// `MaxIterationsReached`.
pub proof fn lemma_ceiling_ends_run<O: Operator>(
    start: IterStateView<O>,
    steps: Seq<Step<O>>,
    end: IterStateView<O>,
)
    requires
        is_run(start, steps, false, end),
        !start.termination_reason.is_terminal(),
        forall|i: int| 0 <= i < steps.len() ==> (#[trigger] steps[i]).goes_on(),
    ensures
        end.termination_reason == TerminationReason::MaxIterationsReached,
        steps.len() == if start.cur_iter < start.max_iters {
            start.max_iters - start.cur_iter
        } else {
            0
        },
        end.cur_iter == start.cur_iter + steps.len(),
{
    let n = steps.len() as int;
    assert(steps.take(n) =~= steps);
    lemma_goes_on(start, steps, n);
    lemma_each_pass_counts_one(start, steps, n);
    if n > 0 {
        lemma_each_pass_counts_one(start, steps, n - 1);
        assert(start.after(steps.take(n - 1)).running());
        assert(steps.take(0) =~= Seq::<Step<O>>::empty());
        assert(start.after(steps.take(0)).running());
    }
}

/// The ceiling stops a solver that never stops by itself: its run is not
/// aborted, performs exactly the iterations that were left up to the
/// ceiling, and ends with `MaxIterationsReached`.
pub proof fn lemma_ceiling_stops_solver<O: Operator, S: Solver<O>>(
    start: IterStateView<O>,
    steps: Seq<Step<O>>,
    failure: Option<Error<O::Error>>,
    end: IterStateView<O>,
)
    requires
        is_run_of::<O, S>(start, steps, failure, end),
        never_stops::<O, S>(),
        !start.termination_reason.is_terminal(),
    ensures
        failure is None,
        end.termination_reason == TerminationReason::MaxIterationsReached,
        steps.len() == if start.cur_iter < start.max_iters {
            start.max_iters - start.cur_iter
        } else {
            0
        },
        end.cur_iter == start.cur_iter + steps.len(),
{
    assert forall|i: int| 0 <= i < steps.len() implies (#[trigger] steps[i]).goes_on() by {
        let before = start.after(steps.take(i));
        assert(can_step::<O, S>(before, Ok(steps[i].delta)));
        assert(can_judge::<O, S>(before.merged(steps[i].delta).advanced(), steps[i].verdict));
    }
    lemma_ceiling_ends_run(start, steps, end);
}

/// A counter that starts at `count` stands at `count + calls` after `calls`
/// calls, or at `u64::MAX` if that is less.
pub proof fn lemma_counted_times(count: u64, calls: nat)
    ensures
        counted_times(count, calls) == if count + calls <= u64::MAX {
            count + calls
        } else {
            u64::MAX as int
        },
    decreases calls,
{
    if calls > 0 {
        lemma_counted_times(count, (calls - 1) as nat);
    }
}

} // verus!
