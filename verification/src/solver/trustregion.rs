//! Solvers of the trust-region subproblem.

pub mod cauchypoint;
