//! The guard and the launcher that creates it.

use crate::outcome::settle;
use std::marker::PhantomData;
use vstd::prelude::*;

verus! {

/// Ownership of one background thread, held through the thread's handle `H`.
///
/// The handle is present from the launch until the thread is joined, detached or released, and
/// absent from then on. The lifetime `'a` is the one of the data that the thread's closure
/// borrows: up to the guard's last use, the borrow checker keeps that data out of its owner's
/// hands. An owner whose destructor calls [`JoinGuard::implicit_join`] makes that last use the
/// guard's destruction.
#[must_use]
pub struct JoinGuard<'a, H> {
    inner: Option<H>,
    _marker: PhantomData<&'a ()>,
}

impl<'a, H> View for JoinGuard<'a, H> {
    type V = Option<H>;

    /// The handle that the guard holds, if it still holds one.
    closed spec fn view(&self) -> Option<H> {
        self.inner
    }
}

/// `wait` escalates a panicked thread behind `handle` instead of reporting it: whenever it
/// returns, it returns a value of the thread.
pub open spec fn escalates<H, T, E, W>(handle: H, wait: W) -> bool where
    W: FnOnce(H) -> Result<T, E>,
 {
    forall|outcome: Result<T, E>| #[trigger]
        call_ensures(wait, (handle,), outcome) ==> outcome is Ok
}

/// `value` is a possible result of a join that waits with `wait` on the thread behind `handle`:
/// the wait can report it as the thread's value.
pub open spec fn join_yields<H, T, E, W>(handle: H, wait: W, value: T) -> bool where
    W: FnOnce(H) -> Result<T, E>,
 {
    call_ensures(wait, (handle,), Ok::<T, E>(value))
}

/// The end of a guard that holds `held`, with `wait` to wait on a thread, can return: where a
/// handle is held, a join on it has a possible result. Where none is held, there is nothing to
/// wait for.
pub open spec fn implicit_join_yields<H, T, E, W>(held: Option<H>, wait: W) -> bool where
    W: FnOnce(H) -> Result<T, E>,
 {
    match held {
        Some(handle) => exists|value: T| #[trigger] join_yields::<H, T, E, W>(handle, wait, value),
        None => true,
    }
}

/// Starts a scoped thread: hands the closure `f` to `spawn`, which starts a thread that runs it,
/// and puts the handle that `spawn` returns under guard.
///
/// The closure must be fit to move to another thread, and so must the value it produces. The
/// guard's lifetime is the one of the closure's borrows.
pub fn scoped<'a, T, F, H, S>(f: F, spawn: S) -> (guard: JoinGuard<'a, H>) where
    T: Send + 'static,
    F: FnOnce() -> T,
    F: Send + 'a,
    S: FnOnce(F) -> H,

    requires
        call_requires(spawn, (f,)),
    ensures
        guard.guards(f, spawn),
{
    JoinGuard { inner: Some(spawn(f)), _marker: PhantomData }
}

impl<'a, H> JoinGuard<'a, H> {
    /// The guard holds a handle, and that handle is one that `spawn` can return for `f`.
    pub open spec fn guards<F, S>(&self, f: F, spawn: S) -> bool where S: FnOnce(F) -> H {
        self@ matches Some(handle) && call_ensures(spawn, (f,), handle)
    }

    /// Whether the guard still holds its thread's handle.
    pub fn is_armed(&self) -> (armed: bool)
        ensures
            armed == (self@ is Some),
    {
        self.inner.is_some()
    }

    /// The handle of the guarded thread, to read what it tells about the thread.
    pub fn thread(&self) -> (handle: &H)
        requires
            self@ is Some,
        ensures
            self@ == Some(*handle),
    {
        self.inner.as_ref().unwrap()
    }

    /// Joins the guarded thread: waits on its handle with `wait` and returns the value that the
    /// thread produced.
    ///
    /// There is no result for a thread that panicked. `wait` escalates such a thread, and the
    /// join then does not return.
    ///
    /// The handle leaves the guard before the wait begins, so that the end of the guard is a
    /// no-op from then on.
    pub fn join<T, E, W>(&mut self, wait: W) -> (value: T) where
        W: FnOnce(H) -> Result<T, E>,
        E: core::fmt::Debug,

        requires
            old(self)@ matches Some(handle) && call_requires(wait, (handle,)) && escalates(
                handle,
                wait,
            ),
        ensures
            final(self)@ is None,
            join_yields(old(self)@->0, wait, value),
    {
        let handle = self.inner.take().unwrap();
        settle(wait(handle))
    }

    /// What the end of the guard's life does. A guard that still holds its handle performs the
    /// same join as [`JoinGuard::join`] and drops the value. A guard that holds nothing has
    /// nothing to wait for.
    pub fn implicit_join<T, E, W>(&mut self, wait: W) where
        W: FnOnce(H) -> Result<T, E>,
        E: core::fmt::Debug,

        requires
            old(self)@ matches Some(handle) ==> call_requires(wait, (handle,)) && escalates(
                handle,
                wait,
            ),
        ensures
            final(self)@ is None,
            implicit_join_yields(old(self)@, wait),
    {
        if self.is_armed() {
            let _ = self.join(wait);
        }
    }
}

impl<H> JoinGuard<'static, H> {
    /// Lets the thread go without waiting for it: hands the handle out, if the guard still holds
    /// it, and leaves the guard holding nothing.
    ///
    /// Only a guard whose thread borrows nothing can do this. From a guard of any shorter
    /// lifetime the handle leaves only as the argument of the callable that a join is given.
    pub fn release(&mut self) -> (handle: Option<H>)
        ensures
            handle == old(self)@,
            final(self)@ is None,
    {
        self.inner.take()
    }
}

/// The thread that `spawn` starts for `f` produces `value`: every wait on its handle reports
/// exactly that value.
pub open spec fn produces<T, F, H, E, S, W>(f: F, spawn: S, wait: W, value: T) -> bool where
    S: FnOnce(F) -> H,
    W: FnOnce(H) -> Result<T, E>,
 {
    forall|handle: H, outcome: Result<T, E>|
        call_ensures(spawn, (f,), handle) && #[trigger] call_ensures(wait, (handle,), outcome)
            ==> outcome == Ok::<T, E>(value)
}

/// The thread that `spawn` starts for `f` panics: no wait on its handle reports a value.
pub open spec fn panics<T, F, H, E, S, W>(f: F, spawn: S, wait: W) -> bool where
    S: FnOnce(F) -> H,
    W: FnOnce(H) -> Result<T, E>,
 {
    forall|handle: H, outcome: Result<T, E>|
        call_ensures(spawn, (f,), handle) && #[trigger] call_ensures(wait, (handle,), outcome)
            ==> outcome is Err
}

/// A join returns the exact value that the thread produced: if the thread started for `f`
/// produces `value`, then joining the guard that [`scoped`] returned for `f` gives `value`.
pub proof fn lemma_join_returns_produced_value<'a, T, F, H, E, S, W>(
    f: F,
    spawn: S,
    wait: W,
    guard: JoinGuard<'a, H>,
    joined: T,
    value: T,
) where S: FnOnce(F) -> H, W: FnOnce(H) -> Result<T, E>
    requires
        produces(f, spawn, wait, value),
        guard.guards(f, spawn),
        join_yields(guard@->0, wait, joined),
    ensures
        joined == value,
{
}

/// A panicked thread is never joined quietly: if the thread started for `f` panics, then for
/// the guard that [`scoped`] returned for `f` no value is a possible result of a join, and the
/// end of the guard's life cannot return either.
pub proof fn lemma_panicked_thread_is_not_joined<'a, T, F, H, E, S, W>(
    f: F,
    spawn: S,
    wait: W,
    guard: JoinGuard<'a, H>,
) where S: FnOnce(F) -> H, W: FnOnce(H) -> Result<T, E>
    requires
        panics(f, spawn, wait),
        guard.guards(f, spawn),
    ensures
        forall|value: T| !#[trigger] join_yields::<H, T, E, W>(guard@->0, wait, value),
        !implicit_join_yields(guard@, wait),
{
}

} // verus!
