use vstd::prelude::*;

verus! {

/// What a readiness adapter that watches a socket from a helper thread
/// does next.
#[derive(Clone, Copy, PartialEq, Eq, Structural, Debug)]
pub enum ReadinessAction {
    /// The socket is readable: process results now
    Ready,
    /// A wakeup is already on its way: wait for it
    Wait,
    /// Ask the helper thread to watch the socket, then wait
    StartThread,
    /// Post a "readable" response to the waiting side right away
    PostResponse,
}

/// Decisions of a readiness adapter for sockets whose readability the event
/// loop cannot report (a helper thread runs `select` on them).
///
/// `armed` means a wakeup is on its way: either the helper thread is
/// watching the socket or a response was posted and not yet read.
#[derive(Clone, Copy, PartialEq, Eq, Structural, Debug)]
pub struct PollReadiness {
    /// Whether a wakeup is on its way.
    pub armed: bool,
}

impl PollReadiness {
    /// An adapter with nothing outstanding.
    pub fn new() -> (r: PollReadiness)
        ensures
            !r.armed,
    {
        PollReadiness { armed: false }
    }

    /// Whether the next poll needs a zero-timeout probe of the socket,
    /// given whether a response was just received.
    pub fn needs_probe(&self, response: bool) -> (r: bool)
        ensures
            r == (!response && !self.armed),
    {
        !response && !self.armed
    }

    /// Poll for readability, given whether a response was just received
    /// and (when `needs_probe` said so) what the probe found.
    pub fn poll_read_ready(&mut self, response: bool, readable: bool) -> (r: ReadinessAction)
        ensures
            response ==> r == ReadinessAction::Ready && !final(self).armed,
            !response && !old(self).armed && readable ==> r == ReadinessAction::Ready
                && !final(self).armed,
            !response && !old(self).armed && !readable ==> r == ReadinessAction::StartThread
                && final(self).armed,
            !response && old(self).armed ==> r == ReadinessAction::Wait && final(self).armed,
    {
        if response {
            self.armed = false;
            ReadinessAction::Ready
        } else if self.armed {
            ReadinessAction::Wait
        } else if readable {
            ReadinessAction::Ready
        } else {
            self.armed = true;
            ReadinessAction::StartThread
        }
    }

    /// The socket was drained: re-arm, given whether a response was just
    /// received and (when `needs_probe` said so) what the probe found.
    ///
    /// The probe comes before the thread is asked to watch, so data that
    /// arrived meanwhile is reported at once instead of being missed.
    pub fn clear_read_ready(&mut self, response: bool, readable: bool) -> (r: ReadinessAction)
        ensures
            final(self).armed,
            response ==> r == ReadinessAction::PostResponse,
            !response && old(self).armed ==> r == ReadinessAction::Wait,
            !response && !old(self).armed && readable ==> r == ReadinessAction::PostResponse,
            !response && !old(self).armed && !readable ==> r == ReadinessAction::StartThread,
    {
        if response {
            self.armed = true;
            ReadinessAction::PostResponse
        } else if self.armed {
            ReadinessAction::Wait
        } else if readable {
            self.armed = true;
            ReadinessAction::PostResponse
        } else {
            self.armed = true;
            ReadinessAction::StartThread
        }
    }
}

/// The poll step of the adapter, as a function of its state and inputs.
pub open spec fn poll_step(armed: bool, response: bool, readable: bool) -> (bool, ReadinessAction) {
    if response {
        (false, ReadinessAction::Ready)
    } else if armed {
        (true, ReadinessAction::Wait)
    } else if readable {
        (false, ReadinessAction::Ready)
    } else {
        (true, ReadinessAction::StartThread)
    }
}

/// No missed wakeup: whenever a poll tells the task to wait, a wakeup is on
/// its way afterwards, and it only reports readiness on a response or a
/// readable socket.
pub proof fn lemma_wait_only_when_armed(armed: bool, response: bool, readable: bool)
    ensures
        ({
            let (a, r) = poll_step(armed, response, readable);
            &&& (r == ReadinessAction::Wait || r == ReadinessAction::StartThread) ==> a
            &&& r == ReadinessAction::Ready ==> (response || readable)
        }),
{
}

} // verus!
