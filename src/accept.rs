//! Failure accounting of the connection acceptor.

use vstd::prelude::*;

use crate::constants::MAX_ACCEPT_FAILURES;

verus! {

/// Acceptor of incoming connections, with its count of consecutive TCP accept failures.
pub struct OnAcceptGenerator<L> {
    pub listener: L,
    pub consecutive_accept_fail_count: u32,
}

impl<L> OnAcceptGenerator<L> {
    pub open spec fn wf(&self) -> bool {
        self.consecutive_accept_fail_count <= MAX_ACCEPT_FAILURES
    }

    pub fn new(tcp_listener: L) -> (r: OnAcceptGenerator<L>)
        ensures
            r.wf(),
            r.listener == tcp_listener,
            r.consecutive_accept_fail_count == 0,
    {
        OnAcceptGenerator { listener: tcp_listener, consecutive_accept_fail_count: 0 }
    }

    /// A TCP accept succeeded: the failure streak is over.
    pub fn record_accept_success(&mut self)
        ensures
            final(self).wf(),
            final(self).consecutive_accept_fail_count == 0,
            final(self).listener == old(self).listener,
    {
        self.consecutive_accept_fail_count = 0;
    }

    /// A TCP accept failed: counts it, and returns `Err` once the streak reaches
    /// the limit, at which the server gives up.
    pub fn handle_tcp_accept_error(&mut self) -> (r: Result<(), ()>)
        requires
            old(self).wf(),
        ensures
            final(self).wf(),
            final(self).listener == old(self).listener,
            old(self).consecutive_accept_fail_count < MAX_ACCEPT_FAILURES ==> final(self).consecutive_accept_fail_count
                == old(self).consecutive_accept_fail_count + 1,
            old(self).consecutive_accept_fail_count == MAX_ACCEPT_FAILURES ==> final(self).consecutive_accept_fail_count
                == MAX_ACCEPT_FAILURES,
            r.is_err() <==> final(self).consecutive_accept_fail_count == MAX_ACCEPT_FAILURES,
    {
        if self.consecutive_accept_fail_count < MAX_ACCEPT_FAILURES {
            self.consecutive_accept_fail_count = self.consecutive_accept_fail_count + 1;
        }
        if self.consecutive_accept_fail_count == MAX_ACCEPT_FAILURES {
            Err(())
        } else {
            Ok(())
        }
    }
}

} // verus!
