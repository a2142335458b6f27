//! Cooperative shutdown: one coordinator holds the sending side, every
//! module holds an independent signal handle. Each handle is a fresh
//! subscription, so every module subscribed before the signal is sent
//! observes it exactly once; a handle made after the send is never
//! notified by that same signal.

use vstd::prelude::*;

verus! {

/// Proof that a module task ended because it observed the shutdown
/// signal. Only the shutdown machinery can mint one.
#[derive(Debug)]
pub struct CleanExit(());

/// A module's subscription to the shutdown broadcast.
pub struct ShutdownSignal {
    slot: usize,
}

impl ShutdownSignal {
    /// The subscription slot the signal handle reads.
    pub closed spec fn id(&self) -> int {
        self.slot as int
    }

    /// A fresh shutdown channel: the coordinator's sending side and a
    /// first subscribed signal handle.
    pub fn new() -> (r: (ShutdownSender, ShutdownSignal))
        ensures
            r.0.wf(),
            !r.0.is_sent(),
            r.0.count() == 1,
            r.1.id() == 0,
            r.0.eligible(0),
            !r.0.delivered(0),
    {
        let sender = ShutdownSender { sent: false, eligible: vec![true], delivered: vec![false] };
        (sender, ShutdownSignal { slot: 0 })
    }
}

/// The coordinator's side of the shutdown broadcast: whether the signal
/// was sent, and per subscription whether it was made in time and
/// whether it has observed the signal.
pub struct ShutdownSender {
    sent: bool,
    eligible: Vec<bool>,
    delivered: Vec<bool>,
}

impl ShutdownSender {
    /// Whether the shutdown signal has been sent.
    pub closed spec fn is_sent(&self) -> bool {
        self.sent
    }

    /// How many signal handles have been handed out.
    pub closed spec fn count(&self) -> nat {
        self.eligible@.len()
    }

    /// Whether subscription `c` was made before the signal was sent, so
    /// the broadcast is owed to it.
    pub closed spec fn eligible(&self, c: int) -> bool {
        self.eligible@[c]
    }

    /// Whether subscription `c` has already observed the signal.
    pub closed spec fn delivered(&self, c: int) -> bool {
        self.delivered@[c]
    }

    /// Whether the next poll of subscription `c` observes the signal.
    pub open spec fn notifies(&self, c: int) -> bool {
        self.is_sent() && self.eligible(c) && !self.delivered(c)
    }

    /// One delivery flag per subscription.
    pub closed spec fn wf(&self) -> bool {
        self.delivered@.len() == self.eligible@.len()
    }

    /// A fresh subscription, as cloning a signal handle makes one. A
    /// handle subscribed only after the send is never notified by that
    /// same signal.
    pub fn subscribe(&mut self) -> (r: ShutdownSignal)
        requires
            old(self).wf(),
        ensures
            final(self).wf(),
            r.id() == old(self).count(),
            final(self).count() == old(self).count() + 1,
            final(self).is_sent() == old(self).is_sent(),
            final(self).eligible(r.id()) == !old(self).is_sent(),
            !final(self).delivered(r.id()),
            forall|c: int|
                0 <= c < old(self).count() ==> final(self).eligible(c) == old(self).eligible(c)
                    && final(self).delivered(c) == old(self).delivered(c),
    {
        let slot = self.eligible.len();
        let in_time = !self.sent;
        self.eligible.push(in_time);
        self.delivered.push(false);
        ShutdownSignal { slot }
    }

    /// Broadcast the shutdown signal: every subscription made before
    /// this call, and not yet served, will observe it on its next poll.
    /// Sending again changes nothing.
    pub fn send_signal(&mut self)
        requires
            old(self).wf(),
        ensures
            final(self).wf(),
            final(self).is_sent(),
            final(self).count() == old(self).count(),
            forall|c: int|
                0 <= c < old(self).count() ==> final(self).eligible(c) == old(self).eligible(c)
                    && final(self).delivered(c) == old(self).delivered(c),
            forall|c: int|
                0 <= c < old(self).count() && old(self).eligible(c) && !old(self).delivered(c)
                    ==> final(self).notifies(c),
    {
        self.sent = true;
    }

    /// Poll a subscription: the signal is observed exactly once, as a
    /// [`CleanExit`] proof value, and only by subscriptions made before
    /// the send.
    pub fn try_recv(&mut self, signal: &ShutdownSignal) -> (r: Option<CleanExit>)
        requires
            old(self).wf(),
            0 <= signal.id() < old(self).count(),
        ensures
            final(self).wf(),
            final(self).count() == old(self).count(),
            final(self).is_sent() == old(self).is_sent(),
            forall|c: int|
                0 <= c < old(self).count() ==> final(self).eligible(c) == old(self).eligible(c),
            forall|c: int|
                0 <= c < old(self).count() && c != signal.id() ==> final(self).delivered(c) == old(
                    self,
                ).delivered(c),
            r is Some <==> old(self).notifies(signal.id()),
            r is Some ==> final(self).delivered(signal.id()),
            r is None ==> final(self).delivered(signal.id()) == old(self).delivered(signal.id()),
    {
        if self.sent && self.eligible[signal.slot] && !self.delivered[signal.slot] {
            crate::bus::vec_set(&mut self.delivered, signal.slot, true);
            Some(CleanExit(()))
        } else {
            None
        }
    }
}

} // verus!
