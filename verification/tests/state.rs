use argmin::{IterState, IterationDelta, Operator, TerminationReason};

struct Line;

impl Operator for Line {
    type Param = i32;
    type Hessian = u8;
    type Error = ();
}

fn fresh() -> IterState<Line> {
    IterState::new()
}

#[test]
fn new_state_knows_nothing() {
    let state = fresh();
    assert_eq!(state.get_param(), None);
    assert_eq!(state.get_best_param(), None);
    assert_eq!(state.get_cost(), None);
    assert_eq!(state.get_best_cost(), None);
    assert_eq!(state.get_target_cost(), None);
    assert_eq!(state.get_grad(), None);
    assert_eq!(state.get_hessian(), None);
    assert_eq!(state.get_iter(), 0);
    assert_eq!(state.get_max_iters(), u64::MAX);
    assert_eq!(state.get_termination_reason(), TerminationReason::NotTerminated);
    assert!(!state.terminated());
    assert!(state.running());
}

#[test]
fn configuration_sets_one_field_each() {
    let state = fresh().param(4).max_iters(100).target_cost(-3);
    assert_eq!(state.get_param(), Some(&4));
    assert_eq!(state.get_best_param(), None);
    assert_eq!(state.get_max_iters(), 100);
    assert_eq!(state.get_target_cost(), Some(-3));
    assert_eq!(state.get_cost(), None);
    assert_eq!(state.get_iter(), 0);
}

#[test]
fn new_delta_is_empty() {
    let delta: IterationDelta<Line> = IterationDelta::new();
    assert_eq!(delta.param, None);
    assert_eq!(delta.cost, None);
    assert_eq!(delta.grad, None);
    assert_eq!(delta.hessian, None);
    assert_eq!(delta.termination_reason, None);
}

#[test]
fn delta_builders_set_one_field_each() {
    let delta: IterationDelta<Line> = IterationDelta::new()
        .param(1)
        .cost(2)
        .grad(3)
        .hessian(4)
        .termination_reason(TerminationReason::Converged);
    assert_eq!(delta.param, Some(1));
    assert_eq!(delta.cost, Some(2));
    assert_eq!(delta.grad, Some(3));
    assert_eq!(delta.hessian, Some(4));
    assert_eq!(delta.termination_reason, Some(TerminationReason::Converged));
}

#[test]
fn empty_delta_changes_nothing() {
    let mut state = fresh().param(4).max_iters(9);
    state.merge(IterationDelta::new().cost(7).grad(1).hessian(2));
    state.merge(IterationDelta::new());
    assert_eq!(state.get_param(), Some(&4));
    assert_eq!(state.get_best_param(), Some(&4));
    assert_eq!(state.get_cost(), Some(7));
    assert_eq!(state.get_best_cost(), Some(7));
    assert_eq!(state.get_grad(), Some(&1));
    assert_eq!(state.get_hessian(), Some(&2));
    assert_eq!(state.get_iter(), 0);
    assert_eq!(state.get_max_iters(), 9);
    assert_eq!(state.get_termination_reason(), TerminationReason::NotTerminated);
}

#[test]
fn merge_overwrites_only_what_is_present() {
    let mut state = fresh().param(4);
    state.merge(IterationDelta::new().cost(10).grad(-1));
    assert_eq!(state.get_param(), Some(&4));
    assert_eq!(state.get_cost(), Some(10));
    assert_eq!(state.get_grad(), Some(&-1));
    assert_eq!(state.get_hessian(), None);
    state.merge(IterationDelta::new().param(5).hessian(8));
    assert_eq!(state.get_param(), Some(&5));
    assert_eq!(state.get_cost(), Some(10));
    assert_eq!(state.get_grad(), Some(&-1));
    assert_eq!(state.get_hessian(), Some(&8));
}

#[test]
fn first_cost_is_the_best() {
    let mut state = fresh().param(4);
    state.merge(IterationDelta::new().cost(i64::MAX));
    assert_eq!(state.get_best_cost(), Some(i64::MAX));
    assert_eq!(state.get_best_param(), Some(&4));
}

#[test]
fn lower_cost_becomes_the_best() {
    let mut state = fresh();
    state.merge(IterationDelta::new().param(1).cost(10));
    state.merge(IterationDelta::new().param(2).cost(9));
    assert_eq!(state.get_cost(), Some(9));
    assert_eq!(state.get_best_cost(), Some(9));
    assert_eq!(state.get_param(), Some(&2));
    assert_eq!(state.get_best_param(), Some(&2));
}

#[test]
fn higher_cost_leaves_the_best() {
    let mut state = fresh();
    state.merge(IterationDelta::new().param(1).cost(10));
    state.merge(IterationDelta::new().param(2).cost(11));
    assert_eq!(state.get_cost(), Some(11));
    assert_eq!(state.get_best_cost(), Some(10));
    assert_eq!(state.get_param(), Some(&2));
    assert_eq!(state.get_best_param(), Some(&1));
    state.merge(IterationDelta::new().param(3).cost(12));
    assert_eq!(state.get_best_cost(), Some(10));
    assert_eq!(state.get_best_param(), Some(&1));
    assert_eq!(state.get_param(), Some(&3));
}

#[test]
fn equal_cost_leaves_the_best() {
    let mut state = fresh();
    state.merge(IterationDelta::new().param(1).cost(10));
    state.merge(IterationDelta::new().param(2).cost(10));
    assert_eq!(state.get_best_cost(), Some(10));
    assert_eq!(state.get_best_param(), Some(&1));
    assert_eq!(state.get_param(), Some(&2));
}

#[test]
fn point_without_cost_leaves_the_best() {
    let mut state = fresh();
    state.merge(IterationDelta::new().param(1).cost(10));
    state.merge(IterationDelta::new().param(2));
    assert_eq!(state.get_param(), Some(&2));
    assert_eq!(state.get_cost(), Some(10));
    assert_eq!(state.get_best_cost(), Some(10));
    assert_eq!(state.get_best_param(), Some(&1));
}

#[test]
fn cost_without_point_rates_the_current_point() {
    let mut state = fresh().param(6);
    state.merge(IterationDelta::new().cost(10));
    state.merge(IterationDelta::new().param(7));
    state.merge(IterationDelta::new().cost(3));
    assert_eq!(state.get_best_cost(), Some(3));
    assert_eq!(state.get_best_param(), Some(&7));
}

#[test]
fn configuring_a_point_keeps_the_best() {
    let mut state = fresh().param(6);
    state.merge(IterationDelta::new().cost(10));
    let state = state.param(8);
    assert_eq!(state.get_param(), Some(&8));
    assert_eq!(state.get_best_param(), Some(&6));
    assert_eq!(state.get_best_cost(), Some(10));
}

#[test]
fn best_cost_never_rises() {
    let costs = [5, 9, -2, -2, 7, i64::MIN, 0, i64::MAX];
    let mut state = fresh();
    let mut lowest = i64::MAX;
    for (i, cost) in costs.iter().enumerate() {
        let before = state.get_best_cost();
        state.merge(IterationDelta::new().param(i as i32).cost(*cost));
        lowest = lowest.min(*cost);
        let after = state.get_best_cost().unwrap();
        assert_eq!(after, lowest);
        assert!(after <= *cost);
        if let Some(before) = before {
            assert!(after <= before);
        }
        assert!(after <= state.get_cost().unwrap());
    }
    assert_eq!(state.get_best_cost(), Some(i64::MIN));
    assert_eq!(state.get_best_param(), Some(&5));
}

#[test]
fn increment_counts_one() {
    let mut state = fresh();
    for expected in 1..=10 {
        let before = state.get_iter();
        state.increment_iter();
        assert_eq!(state.get_iter(), before + 1);
        assert_eq!(state.get_iter(), expected);
    }
}

#[test]
fn verdict_is_recorded() {
    let mut state = fresh();
    state.terminate(TerminationReason::NotTerminated);
    assert_eq!(state.get_termination_reason(), TerminationReason::NotTerminated);
    state.terminate(TerminationReason::TargetCostReached);
    assert_eq!(state.get_termination_reason(), TerminationReason::TargetCostReached);
    assert!(state.terminated());
    assert!(!state.running());
}

#[test]
fn terminal_reason_is_never_replaced() {
    let mut state = fresh();
    state.terminate(TerminationReason::Converged);
    state.terminate(TerminationReason::NotTerminated);
    assert_eq!(state.get_termination_reason(), TerminationReason::Converged);
    state.terminate(TerminationReason::Aborted);
    assert_eq!(state.get_termination_reason(), TerminationReason::Converged);
    state.merge(IterationDelta::new().termination_reason(TerminationReason::NotTerminated));
    assert_eq!(state.get_termination_reason(), TerminationReason::Converged);
    state.merge(IterationDelta::new().termination_reason(TerminationReason::MaxIterationsReached));
    assert_eq!(state.get_termination_reason(), TerminationReason::Converged);
    state.enforce_ceiling();
    assert_eq!(state.get_termination_reason(), TerminationReason::Converged);
}

#[test]
fn delta_can_force_termination() {
    let mut state = fresh();
    state.merge(IterationDelta::new().termination_reason(TerminationReason::NotTerminated));
    assert!(!state.terminated());
    state.merge(IterationDelta::new().termination_reason(TerminationReason::Aborted));
    assert_eq!(state.get_termination_reason(), TerminationReason::Aborted);
}

#[test]
fn settle_keeps_a_terminal_reason() {
    let all = [
        TerminationReason::NotTerminated,
        TerminationReason::MaxIterationsReached,
        TerminationReason::TargetCostReached,
        TerminationReason::Converged,
        TerminationReason::Aborted,
    ];
    for verdict in all {
        assert_eq!(TerminationReason::NotTerminated.settle(verdict), verdict);
        for recorded in &all[1..] {
            assert_eq!(recorded.settle(verdict), *recorded);
        }
    }
}

#[test]
fn ceiling_stops_a_run_that_nothing_else_stopped() {
    let mut state = fresh().max_iters(2);
    state.enforce_ceiling();
    assert!(!state.terminated());
    state.increment_iter();
    assert!(state.running());
    state.enforce_ceiling();
    assert!(!state.terminated());
    state.increment_iter();
    assert!(!state.running());
    assert!(!state.terminated());
    state.enforce_ceiling();
    assert_eq!(state.get_termination_reason(), TerminationReason::MaxIterationsReached);
}

#[test]
fn ceiling_of_zero_stops_at_once() {
    let mut state = fresh().max_iters(0);
    assert!(!state.running());
    state.enforce_ceiling();
    assert_eq!(state.get_termination_reason(), TerminationReason::MaxIterationsReached);
    assert_eq!(state.get_iter(), 0);
}
