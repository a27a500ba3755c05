//! Join guards for scoped threads.
//!
//! A scoped thread runs a closure that may borrow from its spawner's stack. That is sound only
//! while somebody waits for the thread before the borrowed data goes away. This crate holds the
//! bookkeeping of that promise: a [`JoinGuard`] owns the handle of one running thread, and every
//! way to end the guard's life either waits on that handle or, for a thread that borrows
//! nothing, lets it go.
//!
//! The crate starts and waits for threads only through the two callables that its caller passes
//! in: one that starts a thread for a closure and returns its handle, and one that waits on a
//! handle and reports how the thread ended. Everything between these two calls is verified: which
//! handle is waited on, when, and what the caller gets back.
//!
//! A join gives the thread's value and nothing else. A thread that panicked has no value, and
//! a join has no failure to return in its place: the callable that waits must escalate such a
//! thread by itself, by panicking in the caller, and every join asks this of it. Whatever
//! unwinds out of the callable unwinds out of the join.
//!
//! A guard does not wait by itself when it goes out of scope: verified code has no destructor
//! that could unwind. The owner of a guard calls [`JoinGuard::implicit_join`] from its own
//! destructor.

pub mod detach;
pub mod guard;
pub mod outcome;

pub use detach::ScopedDetach;
pub use guard::{escalates, implicit_join_yields, join_yields, panics, produces, scoped, JoinGuard};
pub use outcome::settle;
