//! Bookkeeping of the embedded browser's windows: the message loop ends
//! when the last one closes.

use vstd::prelude::*;

verus! {

/// How many browser windows are open.
#[derive(Clone, Copy, Debug, PartialEq, Eq, Structural)]
pub struct DemoClientState {
    pub browser_count: usize,
}

impl Default for DemoClientState {
    fn default() -> (r: DemoClientState)
        ensures
            r.browser_count == 0,
    {
        DemoClientState { browser_count: 0 }
    }
}

impl DemoClientState {
    /// A window was created.
    pub fn on_after_created(&mut self)
        requires
            old(self).browser_count < usize::MAX,
        ensures
            final(self).browser_count == old(self).browser_count + 1,
    {
        self.browser_count = self.browser_count + 1;
    }

    /// Whether closing a window is handled here; it never is, so the browser
    /// closes it itself.
    pub fn do_close(&mut self) -> (handled: bool)
        ensures
            !handled,
            *final(self) == *old(self),
    {
        false
    }

    /// A window is about to close; returns whether that was the last one, in
    /// which case the message loop is to quit.
    pub fn on_before_close(&mut self) -> (quit: bool)
        ensures
            final(self).browser_count == if old(self).browser_count > 0 {
                old(self).browser_count - 1
            } else {
                0
            },
            quit == (final(self).browser_count == 0),
    {
        if self.browser_count > 0 {
            self.browser_count = self.browser_count - 1;
        }
        self.browser_count == 0
    }
}

/// The count after `created` windows were opened and `closed` were closed,
/// in that order.
pub open spec fn count_after(created: nat, closed: nat) -> nat
    decreases closed,
{
    if closed == 0 {
        created
    } else if count_after(created, (closed - 1) as nat) > 0 {
        (count_after(created, (closed - 1) as nat) - 1) as nat
    } else {
        0
    }
}

/// Of `n` windows opened, closing them one by one quits the loop on the
/// last close and not before.
pub proof fn law_quit_on_last_close(n: nat, closed: nat)
    requires
        closed <= n,
    ensures
        count_after(n, closed) == n - closed,
        (count_after(n, closed) == 0) == (closed == n),
    decreases closed,
{
    if closed > 0 {
        law_quit_on_last_close(n, (closed - 1) as nat);
    }
}

} // verus!
