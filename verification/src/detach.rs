//! Letting a thread go.

use crate::guard::JoinGuard;
use vstd::prelude::*;

verus! {

/// The ability to part a guard from its thread.
pub trait ScopedDetach {
    /// Ends the guard without waiting for its thread, which runs on by itself. Whatever becomes
    /// of the thread, a panic included, the caller does not hear of it.
    fn detach(self);
}

/// Only a guard whose thread borrows nothing can let its thread go: a thread that borrows
/// could otherwise outlive the data it works on.
impl<H> ScopedDetach for JoinGuard<'static, H> {
    fn detach(self) {
        let mut guard = self;
        let _ = guard.release();
    }
}

} // verus!
