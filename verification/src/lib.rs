//! A generic engine for iterative numerical optimization.
//!
//! A user supplies an operator, which evaluates a cost, a gradient or a
//! Hessian, and picks a solver. The executor then repeats the solver's step on
//! the iteration state until a reason to stop is recorded.
//!
//! - `operator`: the capabilities of an operator, and the wrapper that counts
//!   the calls made of each.
//! - `state`, `delta`, `termination`: the record of a run's progress, what a
//!   step asks to change in it, and the reasons for which a run stops.
//! - `solver`: what every algorithm implements, and the Cauchy-point solver
//!   of the trust-region subproblem.
//! - `executor`, `observer`: the loop that drives a solver, and the hook
//!   through which it reports.
//! - `trace`: the course of a run as a sequence of passes, and what holds of
//!   every course.
//! - `math`: the arithmetic that solvers ask of their numbers and vectors.
//!
//! The engine orders costs and never computes with them, so a cost is an
//! `i64`: an operator with costs of another kind hands in integers that are
//! ordered as its costs are. Solvers that compute are generic in their
//! numbers.

pub mod delta;
pub mod errors;
pub mod executor;
pub mod math;
pub mod observer;
pub mod operator;
pub mod solver;
pub mod state;
pub mod termination;
pub mod trace;

pub use delta::IterationDelta;
pub use errors::Error;
pub use executor::{Executor, OptimizationResult, RunError};
pub use math::{Scalar, VectorSpace};
pub use observer::{Observe, ObserverError};
pub use operator::{CostFunction, Gradient, Hessian, OpWrapper, Operator};
pub use solver::trustregion::cauchypoint::CauchyPoint;
pub use solver::{ArgminTrustRegion, Solver};
pub use state::IterState;
pub use termination::TerminationReason;
