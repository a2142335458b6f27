//! The process-wide publish/subscribe fabric. Every module holds an
//! isolated producer handle and an isolated consumer handle; an event
//! published through any producer reaches every consumer registered at
//! publish time, in publish order. A consumer that falls behind cannot
//! stall producers silently: the bus has an explicit, configurable
//! overflow policy — refuse the publish (backpressure, the default) or
//! drop the lagging consumer's oldest pending event and count the loss.

use vstd::prelude::*;
use crate::image::Image;

verus! {

/// A unit of information flowing through the bus, immutable once
/// published.
#[derive(Debug)]
pub struct Event {
    pub header: EventHeader,
    pub payload: Payload,
}

/// What every event carries besides its payload: the originating module
/// and whether the observation is considered a threat.
#[derive(Debug)]
pub struct EventHeader {
    pub source: String,
    pub is_threat: bool,
}

/// The observation or derived signal an event carries.
#[derive(Debug)]
pub enum Payload {
    /// A new process appeared, with its parent and its executable image.
    ProcessCreated { pid: i32, ppid: i32, image: Image },
    /// A process exited.
    ProcessExited { pid: i32 },
    /// A derived signal, described by text.
    Alert { message: String },
}

/// Mathematical value of an [`EventHeader`].
pub struct EventHeaderView {
    pub source: Seq<char>,
    pub is_threat: bool,
}

/// Mathematical value of a [`Payload`].
pub enum PayloadView {
    ProcessCreated { pid: i32, ppid: i32, image: Seq<u8> },
    ProcessExited { pid: i32 },
    Alert { message: Seq<char> },
}

/// Mathematical value of an [`Event`].
pub struct EventView {
    pub header: EventHeaderView,
    pub payload: PayloadView,
}

impl View for EventHeader {
    type V = EventHeaderView;

    open spec fn view(&self) -> EventHeaderView {
        EventHeaderView { source: self.source@, is_threat: self.is_threat }
    }
}

impl View for Payload {
    type V = PayloadView;

    open spec fn view(&self) -> PayloadView {
        match self {
            Payload::ProcessCreated { pid, ppid, image } => PayloadView::ProcessCreated {
                pid: *pid,
                ppid: *ppid,
                image: image@,
            },
            Payload::ProcessExited { pid } => PayloadView::ProcessExited { pid: *pid },
            Payload::Alert { message } => PayloadView::Alert { message: message@ },
        }
    }
}

impl View for Event {
    type V = EventView;

    open spec fn view(&self) -> EventView {
        EventView { header: self.header@, payload: self.payload@ }
    }
}

impl Clone for Payload {
    /// A cloned payload has the same mathematical value.
    fn clone(&self) -> (r: Self)
        ensures
            r@ == self@,
    {
        match self {
            Payload::ProcessCreated { pid, ppid, image } => Payload::ProcessCreated {
                pid: *pid,
                ppid: *ppid,
                image: image.clone(),
            },
            Payload::ProcessExited { pid } => Payload::ProcessExited { pid: *pid },
            Payload::Alert { message } => Payload::Alert { message: message.clone() },
        }
    }
}

impl Clone for Event {
    /// A cloned event has the same mathematical value.
    fn clone(&self) -> (r: Self)
        ensures
            r@ == self@,
    {
        Event {
            header: EventHeader {
                source: self.header.source.clone(),
                is_threat: self.header.is_threat,
            },
            payload: self.payload.clone(),
        }
    }
}

/// What a publisher is told when the bus refuses an event.
#[derive(Clone, Copy, Debug, PartialEq, Eq, Structural)]
pub enum BusError {
    /// Some consumer's pending queue is at capacity and the policy is
    /// backpressure: the event was not published.
    Full,
}

/// What the bus does when a publish would push a consumer past its
/// bounded pending queue.
#[derive(Clone, Copy, Debug, PartialEq, Eq, Structural)]
pub enum OverflowPolicy {
    /// Refuse the publish; no event is lost and the producer is told.
    Backpressure,
    /// Drop the lagging consumer's oldest pending event and count it.
    DropOldest,
}

/// A producer handle, bound to the identity of the module that sends
/// through it.
pub struct ModuleSender {
    module_name: String,
}

impl ModuleSender {
    /// The module identity stamped on every event sent through the
    /// handle.
    pub closed spec fn name(&self) -> Seq<char> {
        self.module_name@
    }

    /// A producer handle for the named module.
    pub fn new(module_name: &str) -> (r: Self)
        ensures
            r.name() == module_name@,
    {
        ModuleSender { module_name: module_name.to_owned() }
    }
}

/// A consumer handle, bound to one subscription slot of the bus and to
/// the identity of the module that reads through it.
pub struct ModuleReceiver {
    slot: usize,
    module_name: String,
}

impl ModuleReceiver {
    /// The subscription slot the handle reads from.
    pub closed spec fn id(&self) -> int {
        self.slot as int
    }

    /// The module identity the handle was made for.
    pub closed spec fn name(&self) -> Seq<char> {
        self.module_name@
    }
}

/// The bus state: the log of published events and, per consumer, the
/// index of its next unread event and how many events overflow has cost
/// it.
pub struct Bus {
    events: Vec<Event>,
    cursors: Vec<usize>,
    drop_counts: Vec<u64>,
    capacity: usize,
    policy: OverflowPolicy,
}

impl Bus {
    /// Every event published so far, in publish order.
    pub closed spec fn log(&self) -> Seq<EventView> {
        self.events@.map(|i: int, e: Event| e@)
    }

    /// How many consumer handles are registered.
    pub closed spec fn consumers(&self) -> nat {
        self.cursors@.len()
    }

    /// The index of the next event consumer `c` will observe.
    pub closed spec fn cursor(&self, c: int) -> nat {
        self.cursors@[c] as nat
    }

    /// How many events overflow has dropped for consumer `c`.
    pub closed spec fn dropped_count(&self, c: int) -> nat {
        self.drop_counts@[c] as nat
    }

    /// The bound on a consumer's pending queue.
    pub closed spec fn capacity_spec(&self) -> nat {
        self.capacity as nat
    }

    /// The overflow policy the bus was made with.
    pub closed spec fn policy_spec(&self) -> OverflowPolicy {
        self.policy
    }

    /// The events consumer `c` has not observed yet, in publish order.
    pub open spec fn pending(&self, c: int) -> Seq<EventView> {
        self.log().skip(self.cursor(c) as int)
    }

    /// Whether consumer `c`'s pending queue is at capacity, so that one
    /// more publish would overflow it.
    pub open spec fn at_capacity(&self, c: int) -> bool {
        self.pending(c).len() >= self.capacity_spec()
    }

    /// A consistent bus: one drop counter per cursor, a positive bound,
    /// every cursor within the log, and no counter ahead of its cursor.
    pub closed spec fn wf(&self) -> bool {
        &&& self.drop_counts@.len() == self.cursors@.len()
        &&& self.capacity >= 1
        &&& forall|c: int|
            0 <= c < self.cursors@.len() ==> (#[trigger] self.cursors@[c]) <= self.events@.len()
        &&& forall|c: int|
            0 <= c < self.cursors@.len() ==> (#[trigger] self.drop_counts@[c]) as nat
                <= self.cursors@[c] as nat
    }

    /// An empty bus with the given pending-queue bound and overflow
    /// policy.
    pub fn new(capacity: usize, policy: OverflowPolicy) -> (r: Self)
        requires
            capacity >= 1,
        ensures
            r.wf(),
            r.log() == Seq::<EventView>::empty(),
            r.consumers() == 0,
            r.capacity_spec() == capacity,
            r.policy_spec() == policy,
    {
        let r = Bus {
            events: Vec::new(),
            cursors: Vec::new(),
            drop_counts: Vec::new(),
            capacity,
            policy,
        };
        proof {
            assert(r.log() =~= Seq::<EventView>::empty());
        }
        r
    }

    /// Register a consumer handle for the named module. The new consumer
    /// starts with nothing pending: it observes events published after
    /// it subscribed.
    pub fn subscribe(&mut self, module_name: &str) -> (r: ModuleReceiver)
        requires
            old(self).wf(),
        ensures
            final(self).wf(),
            r.id() == old(self).consumers(),
            r.name() == module_name@,
            final(self).consumers() == old(self).consumers() + 1,
            final(self).log() == old(self).log(),
            final(self).capacity_spec() == old(self).capacity_spec(),
            final(self).policy_spec() == old(self).policy_spec(),
            forall|c: int|
                0 <= c < old(self).consumers() ==> final(self).cursor(c) == old(self).cursor(c)
                    && final(self).dropped_count(c) == old(self).dropped_count(c),
            final(self).pending(r.id()) == Seq::<EventView>::empty(),
            final(self).dropped_count(r.id()) == 0,
    {
        let slot = self.cursors.len();
        let start = self.events.len();
        self.cursors.push(start);
        self.drop_counts.push(0);
        proof {
            assert(final(self).pending(slot as int) =~= Seq::<EventView>::empty());
        }
        ModuleReceiver { slot, module_name: module_name.to_owned() }
    }

    /// Publish an event carrying the given payload, stamped with the
    /// sender's module identity and threat flag. Under backpressure the
    /// publish is refused, and the bus left unchanged, exactly when some
    /// consumer is at capacity; under drop-oldest it always succeeds,
    /// and each consumer at capacity loses its oldest pending event,
    /// counted against it. Every consumer not at capacity sees its
    /// pending stream grow by exactly this event.
    pub fn publish(&mut self, sender: &ModuleSender, payload: Payload, is_threat: bool) -> (r:
        Result<(), BusError>)
        requires
            old(self).wf(),
        ensures
            final(self).wf(),
            final(self).consumers() == old(self).consumers(),
            final(self).capacity_spec() == old(self).capacity_spec(),
            final(self).policy_spec() == old(self).policy_spec(),
            r is Err ==> old(self).policy_spec() == OverflowPolicy::Backpressure && exists|c: int|
                0 <= c < old(self).consumers() && old(self).at_capacity(c),
            r is Err ==> final(self).log() == old(self).log() && forall|c: int|
                0 <= c < old(self).consumers() ==> final(self).cursor(c) == old(self).cursor(c)
                    && final(self).dropped_count(c) == old(self).dropped_count(c),
            old(self).policy_spec() == OverflowPolicy::Backpressure && (forall|c: int|
                0 <= c < old(self).consumers() ==> !old(self).at_capacity(c)) ==> r is Ok,
            old(self).policy_spec() == OverflowPolicy::DropOldest ==> r is Ok,
            r is Ok ==> final(self).log() == old(self).log().push(
                EventView {
                    header: EventHeaderView { source: sender.name(), is_threat },
                    payload: payload@,
                },
            ),
            r is Ok ==> forall|c: int|
                0 <= c < old(self).consumers() ==> if old(self).at_capacity(c) {
                    final(self).cursor(c) == old(self).cursor(c) + 1 && final(self).dropped_count(
                        c,
                    ) == old(self).dropped_count(c) + 1
                } else {
                    final(self).cursor(c) == old(self).cursor(c) && final(self).dropped_count(c)
                        == old(self).dropped_count(c)
                },
            r is Ok ==> forall|c: int|
                0 <= c < old(self).consumers() && !old(self).at_capacity(c) ==> final(self).pending(c) == old(self).pending(c).push(
                    EventView {
                        header: EventHeaderView { source: sender.name(), is_threat },
                        payload: payload@,
                    },
                ),
    {
        let n = self.cursors.len();
        let total = self.events.len();
        match self.policy {
            OverflowPolicy::Backpressure => {
                let mut c: usize = 0;
                while c < n
                    invariant
                        self.wf(),
                        n == self.cursors@.len(),
                        total == self.events@.len(),
                        c <= n,
                        self.events@ == old(self).events@,
                        self.cursors@ == old(self).cursors@,
                        self.drop_counts@ == old(self).drop_counts@,
                        self.capacity == old(self).capacity,
                        self.policy == old(self).policy,
                        old(self).policy_spec() == OverflowPolicy::Backpressure,
                        forall|k: int| 0 <= k < c ==> !self.at_capacity(k),
                    decreases n - c,
                {
                    if total - self.cursors[c] >= self.capacity {
                        proof {
                            assert(self.at_capacity(c as int));
                            assert(old(self).at_capacity(c as int));
                        }
                        return Err(BusError::Full);
                    }
                    c += 1;
                }
            },
            OverflowPolicy::DropOldest => {
                let mut c: usize = 0;
                while c < n
                    invariant
                        self.wf(),
                        n == self.cursors@.len(),
                        total == self.events@.len(),
                        c <= n,
                        self.events@ == old(self).events@,
                        self.capacity == old(self).capacity,
                        self.policy == old(self).policy,
                        forall|k: int|
                            c <= k < n ==> self.cursor(k) == old(self).cursor(k) && self.dropped_count(
                                k,
                            ) == old(self).dropped_count(k),
                        forall|k: int|
                            0 <= k < c ==> if old(self).at_capacity(k) {
                                self.cursor(k) == old(self).cursor(k) + 1 && self.dropped_count(k)
                                    == old(self).dropped_count(k) + 1
                            } else {
                                self.cursor(k) == old(self).cursor(k) && self.dropped_count(k)
                                    == old(self).dropped_count(k)
                            },
                    decreases n - c,
                {
                    if total - self.cursors[c] >= self.capacity {
                        let bumped = self.cursors[c] + 1;
                        let counted = self.drop_counts[c] + 1;
                        vec_set(&mut self.cursors, c, bumped);
                        vec_set(&mut self.drop_counts, c, counted);
                    }
                    c += 1;
                }
            },
        }
        let ghost mid = *self;
        self.events.push(
            Event {
                header: EventHeader { source: sender.module_name.clone(), is_threat: is_threat },
                payload,
            },
        );
        proof {
            let ev = EventView {
                header: EventHeaderView { source: sender.name(), is_threat },
                payload: payload@,
            };
            assert(self.log() =~= mid.log().push(ev));
            assert forall|c: int|
                0 <= c < old(self).consumers() && !old(self).at_capacity(c) implies self.pending(c)
                == old(self).pending(c).push(ev) by {
                assert(self.cursor(c) == old(self).cursor(c));
                assert(self.pending(c) =~= old(self).pending(c).push(ev));
            }
        }
        Ok(())
    }

    /// How many events overflow has cost the consumer so far. Loss is
    /// never silent: it is counted where it happens.
    pub fn drops(&self, receiver: &ModuleReceiver) -> (r: u64)
        requires
            self.wf(),
            0 <= receiver.id() < self.consumers(),
        ensures
            r == self.dropped_count(receiver.id()),
    {
        self.drop_counts[receiver.slot]
    }

    /// Read the consumer's next pending event, advancing its cursor;
    /// nothing pending gives `None`. Successive reads observe the log in
    /// publish order.
    pub fn try_recv(&mut self, receiver: &ModuleReceiver) -> (r: Option<Event>)
        requires
            old(self).wf(),
            0 <= receiver.id() < old(self).consumers(),
        ensures
            final(self).wf(),
            final(self).log() == old(self).log(),
            final(self).consumers() == old(self).consumers(),
            final(self).capacity_spec() == old(self).capacity_spec(),
            final(self).policy_spec() == old(self).policy_spec(),
            forall|c: int|
                0 <= c < old(self).consumers() && c != receiver.id() ==> final(self).cursor(c)
                    == old(self).cursor(c),
            forall|c: int|
                0 <= c < old(self).consumers() ==> final(self).dropped_count(c) == old(self).dropped_count(c),
            match r {
                Some(e) => old(self).pending(receiver.id()).len() > 0 && e@ == old(self).log()[old(self).cursor(receiver.id()) as int] && final(self).cursor(receiver.id()) == old(self).cursor(receiver.id()) + 1,
                None => old(self).pending(receiver.id()).len() == 0 && final(self).cursor(
                    receiver.id(),
                ) == old(self).cursor(receiver.id()),
            },
    {
        let at = self.cursors[receiver.slot];
        if at < self.events.len() {
            let event = self.events[at].clone();
            vec_set(&mut self.cursors, receiver.slot, at + 1);
            Some(event)
        } else {
            None
        }
    }
}

/// Fan-out: appending a run of published events to the log extends
/// every consumer's pending stream by exactly those events, in publish
/// order — whatever the consumer had already observed.
pub proof fn lemma_bus_fanout(log: Seq<EventView>, published: Seq<EventView>, cursor: int)
    requires
        0 <= cursor <= log.len(),
    ensures
        (log + published).skip(cursor) == log.skip(cursor) + published,
{
    assert((log + published).skip(cursor) =~= log.skip(cursor) + published);
}

/// Overwrite one element of a vector, leaving the rest as it was.
pub(crate) fn vec_set<T>(v: &mut Vec<T>, i: usize, value: T)
    requires
        i < old(v)@.len(),
    ensures
        final(v)@ == old(v)@.update(i as int, value),
{
    v.remove(i);
    v.insert(i, value);
    proof {
        assert(v@ =~= old(v)@.update(i as int, value));
    }
}

} // verus!
