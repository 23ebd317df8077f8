//! The hook through which a run reports its progress.

use vstd::prelude::*;
use crate::operator::Operator;
use crate::state::IterState;

verus! {

/// What an observer reports when it could not take a notification.
#[derive(Debug)]
pub struct ObserverError {}

/// A listener that is told of every iteration of a run.
pub trait Observe<O: Operator> {
    /// Called once an iteration is complete, with the state as it then is
    /// and the number of iterations performed.
    fn notify(&mut self, state: &IterState<O>, iter: u64) -> Result<(), ObserverError>;
}

/// A boxed observer is an observer: it hands each notification on to what
/// it holds.
impl<O: Operator, T: Observe<O> + ?Sized> Observe<O> for Box<T> {
    fn notify(&mut self, state: &IterState<O>, iter: u64) -> Result<(), ObserverError> {
        (**self).notify(state, iter)
    }
}

} // verus!
