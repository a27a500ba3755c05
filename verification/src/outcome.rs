//! From the outcome of a wait to the result of a join.

use vstd::prelude::*;

verus! {

/// Takes the thread's value out of the outcome of a wait.
///
/// An outcome that reports a panicked thread holds no value and is not accepted: the wait
/// escalates such a thread itself and never returns that outcome.
pub fn settle<T, E: core::fmt::Debug>(outcome: Result<T, E>) -> (value: T)
    requires
        outcome is Ok,
    ensures
        outcome == Ok::<T, E>(value),
{
    outcome.unwrap()
}

} // verus!
