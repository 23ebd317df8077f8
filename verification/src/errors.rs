//! The failures that end a run.

use vstd::prelude::*;

verus! {

/// A failure that a solver's step reports. `E` is the operator's own error
/// type; it is carried as the operator gave it.
#[derive(Debug, PartialEq, Eq)]
pub enum Error<E> {
    /// A call of the operator failed.
    Operator(E),
    /// The solver arrived at a value from which it cannot go on.
    Numerical,
}

} // verus!
