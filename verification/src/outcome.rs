//! How a task can end.

use vstd::prelude::*;

verus! {

/// Why a task has no value to give. `P` is the payload of a panic, carried
/// along and never looked into.
#[derive(Debug)]
pub enum Failure<P> {
    /// The task panicked with this payload.
    Panic(P),
    /// The pool shut down before the task had finished.
    Shutdown,
}

/// The outcome of a task: its value, or why there is none.
pub type Outcome<V, P> = Result<V, Failure<P>>;

/// What a panic-catching call of a task body gave, as the outcome that the
/// task's result channel carries.
pub open spec fn outcome_of<V, P>(caught: Result<V, P>) -> Outcome<V, P> {
    match caught {
        Ok(value) => Ok(value),
        Err(payload) => Err(Failure::Panic(payload)),
    }
}

/// Turns what a panic-catching call of a task body gave into an outcome.
pub fn settle<V, P>(caught: Result<V, P>) -> (outcome: Outcome<V, P>)
    ensures
        outcome == outcome_of(caught),
{
    match caught {
        Ok(value) => Ok(value),
        Err(payload) => Err(Failure::Panic(payload)),
    }
}

} // verus!
