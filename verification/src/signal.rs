//! The wake-up signal: a coalescing cross-thread flag. Workers raise it when
//! they have queued work for the foreground; the foreground checks it once
//! per tick of the host loop. Any number of raises between two checks
//! collapse into one observable wake, so the consumer must drain the
//! notification queue until empty on each wake rather than assume one wake
//! per item.

use vstd::prelude::*;

verus! {

/// A single coalescing wake-up indication. Its view is the boolean
/// "a wake is pending".
pub struct SignalChannel {
    raised: bool,
}

impl View for SignalChannel {
    type V = bool;

    closed spec fn view(&self) -> bool {
        self.raised
    }
}

impl SignalChannel {
    /// A channel with no wake pending.
    pub fn new() -> (s: SignalChannel)
        ensures
            !s@,
    {
        SignalChannel { raised: false }
    }

    /// Producer side: mark work available. Raising an already-raised channel
    /// changes nothing — that is the coalescing.
    pub fn raise(&mut self)
        ensures
            final(self)@,
    {
        self.raised = true;
    }

    /// Consumer side, once per tick: report whether a wake was pending and
    /// clear it. Cheap when nothing is pending.
    pub fn take(&mut self) -> (woken: bool)
        ensures
            woken == old(self)@,
            !final(self)@,
    {
        let woken = self.raised;
        self.raised = false;
        woken
    }

    /// Read the flag without consuming it.
    pub fn peek(&self) -> (r: bool)
        ensures
            r == self@,
    {
        self.raised
    }
}

} // verus!
