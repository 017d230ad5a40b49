//! The handle the embedding host receives for an open canvas window.

use vstd::prelude::*;
use crate::platform::os_window::OsWindow;
use crate::thread_bound::ThreadBound;

verus! {

/// The host-visible window handle. It exclusively owns the backend window
/// through a [`ThreadBound`] wrapper, so the handle itself may be held and
/// passed across threads while the window it owns stays reachable only on
/// the thread that created it.
pub struct OsWindowHandle {
    os_window: ThreadBound<OsWindow>,
}

impl OsWindowHandle {
    /// The owned backend window.
    pub closed spec fn spec_window(self) -> OsWindow {
        self.os_window.spec_value()
    }

    /// The token of the thread the window was created on.
    pub closed spec fn spec_owner(self) -> u64 {
        self.os_window.spec_owner()
    }

    /// Wraps an owned backend window.
    pub fn new(os_window: ThreadBound<OsWindow>) -> (r: OsWindowHandle)
        ensures
            r.spec_window() == os_window.spec_value(),
            r.spec_owner() == os_window.spec_owner(),
    {
        OsWindowHandle { os_window }
    }

    /// The token of the thread the window was created on.
    pub fn owner(&self) -> (r: u64)
        ensures
            r == self.spec_owner(),
    {
        self.os_window.owner()
    }

    /// Reaches the backend window: a reference comes back exactly when the
    /// calling thread is the one that created the window.
    pub fn window(&self, thread: u64) -> (r: Option<&OsWindow>)
        ensures
            (r is Some) <==> thread == self.spec_owner(),
            r matches Some(w) ==> *w == self.spec_window(),
    {
        self.os_window.as_ref(thread)
    }

    /// Reaches the backend window mutably. Callers prove they stand on the
    /// creating thread; unverified callers must test [`Self::owner`] first.
    pub fn window_mut(&mut self, thread: u64) -> (r: &mut OsWindow)
        requires
            thread == old(self).spec_owner(),
        ensures
            *r == old(self).spec_window(),
            final(self).spec_owner() == old(self).spec_owner(),
            final(self).spec_window() == *final(r),
    {
        self.os_window.as_mut(thread)
    }
}

} // verus!
