//! An ownership wrapper that pins a value to the thread that created it.
//!
//! Native window handles are generally unsafe to touch off their creation
//! thread, while the enclosing handle value must still be free to travel
//! across threads as an opaque token. `ThreadBound` owns exactly one value
//! and records the owning thread's identity at construction; only reaching
//! the value is gated, never moving the wrapper.
//!
//! Thread identity is carried as a plain numeric token. The embedding glue
//! assigns every thread a distinct token and passes the current thread's
//! token to each access; off-thread access deterministically yields nothing
//! instead of a reference.

use vstd::prelude::*;

verus! {

/// A value bound to the thread that created it.
pub struct ThreadBound<T> {
    value: T,
    owner: u64,
}

impl<T> ThreadBound<T> {
    /// The token of the thread that created this wrapper.
    pub closed spec fn spec_owner(self) -> u64 {
        self.owner
    }

    /// The wrapped value.
    pub closed spec fn spec_value(self) -> T {
        self.value
    }

    /// Takes ownership of `value` on the thread identified by `thread`.
    pub fn new(value: T, thread: u64) -> (r: ThreadBound<T>)
        ensures
            r.spec_owner() == thread,
            r.spec_value() == value,
    {
        ThreadBound { value, owner: thread }
    }

    /// The token of the owning thread.
    pub fn owner(&self) -> (r: u64)
        ensures
            r == self.spec_owner(),
    {
        self.owner
    }

    /// Reaches the wrapped value: a reference comes back exactly when the
    /// calling thread is the one that created the wrapper.
    pub fn as_ref(&self, thread: u64) -> (r: Option<&T>)
        ensures
            (r is Some) <==> thread == self.spec_owner(),
            r matches Some(v) ==> *v == self.spec_value(),
    {
        if thread == self.owner {
            Some(&self.value)
        } else {
            None
        }
    }

    /// Reaches the wrapped value mutably. Callers prove they stand on the
    /// owning thread; unverified callers must test [`Self::owner`] first.
    pub fn as_mut(&mut self, thread: u64) -> (r: &mut T)
        requires
            thread == old(self).spec_owner(),
        ensures
            *r == old(self).spec_value(),
            final(self).spec_owner() == old(self).spec_owner(),
            final(self).spec_value() == *final(r),
    {
        &mut self.value
    }
}

} // verus!
