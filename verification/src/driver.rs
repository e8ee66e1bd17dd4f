use vstd::prelude::*;

use crate::client::Client;
use crate::event::Event;
use crate::event::EventA;
use crate::event::EventB;
use crate::event::event_a;
use crate::event::event_b;

verus! {

/// The deliveries one fan-out makes: the same event handed to each of `n`
/// clients, keyed by registration index, in registration order.
pub open spec fn fanout_deliveries(n: nat, e: Event) -> Seq<(int, Event)> {
    Seq::new(n, |i: int| (i, e))
}

/// The owner and broadcaster of events: holds a fixed, ordered list of
/// clients, set once at construction, and hands every emitted event to each
/// client in turn, in registration order.
///
/// `deliveries` is the ghost record of every delivery made so far, in the
/// order the handlers were invoked.
pub struct Driver<C: Client> {
    clients: Vec<C>,
    deliveries: Ghost<Seq<(int, Event)>>,
}

impl<C: Client> Driver<C> {
    /// The registered clients, in registration order.
    pub closed spec fn clients(&self) -> Seq<C> {
        self.clients@
    }

    /// Every delivery made so far: which client (by registration index) was
    /// handed which event, in invocation order.
    pub closed spec fn deliveries(&self) -> Seq<(int, Event)> {
        self.deliveries@
    }

    pub fn new(clients: Vec<C>) -> (d: Driver<C>)
        ensures
            d.clients() == clients@,
            d.deliveries() == Seq::<(int, Event)>::empty(),
    {
        Driver { clients, deliveries: Ghost(Seq::empty()) }
    }

    /// The client list, for inspection; the driver keeps ownership.
    pub fn clients_ref(&self) -> (r: &Vec<C>)
        ensures
            r@ == self.clients(),
    {
        &self.clients
    }

    /// Synchronous fan-out: hand `event` to every client, in registration
    /// order, returning only once each handler has returned.
    fn emit_event(&mut self, event: Event)
        ensures
            final(self).clients().len() == old(self).clients().len(),
            forall|i: int| 0 <= i < old(self).clients().len() ==>
                final(self).clients()[i].log()
                    == old(self).clients()[i].log().push(event),
            final(self).deliveries() == old(self).deliveries()
                + fanout_deliveries(old(self).clients().len(), event),
    {
        let ghost pre_clients = self.clients@;
        let ghost pre_deliveries = self.deliveries@;
        let mut pending: Vec<C> = Vec::new();
        core::mem::swap(&mut self.clients, &mut pending);
        while pending.len() > 0
            invariant
                self.clients@.len() + pending@.len() == pre_clients.len(),
                pending@ == pre_clients.skip(self.clients@.len() as int),
                forall|j: int| 0 <= j < self.clients@.len() ==>
                    self.clients@[j].log() == pre_clients[j].log().push(event),
                self.deliveries@ == pre_deliveries
                    + fanout_deliveries(self.clients@.len(), event),
            decreases pending@.len(),
        {
            let ghost k = self.clients@.len() as int;
            let mut c = pending.remove(0);
            c.handle_event(&event);
            self.clients.push(c);
            self.deliveries = Ghost(self.deliveries@.push((k, event)));
            proof {
                assert(pending@ =~= pre_clients.skip(self.clients@.len() as int));
                assert(self.deliveries@ =~= pre_deliveries
                    + fanout_deliveries(self.clients@.len(), event));
            }
        }
    }

    /// Construct an `EventA` from the given payloads and fan it out to every
    /// client, unmodified, in registration order.
    pub fn emit_event_a(&mut self, field_a1: i64, field_a2: bool)
        ensures
            final(self).clients().len() == old(self).clients().len(),
            forall|i: int| 0 <= i < old(self).clients().len() ==>
                final(self).clients()[i].log()
                    == old(self).clients()[i].log().push(event_a(field_a1, field_a2)),
            final(self).deliveries() == old(self).deliveries()
                + fanout_deliveries(old(self).clients().len(), event_a(field_a1, field_a2)),
    {
        let event = Event::EventA(EventA { field_a1, field_a2 });
        self.emit_event(event)
    }

    /// Construct an `EventB` from the given payloads (the 64-bit one as the
    /// bit pattern of a double-precision number) and fan it out to every
    /// client, unmodified, in registration order.
    pub fn emit_event_b(&mut self, field_b1: u64, field_b2: i32)
        ensures
            final(self).clients().len() == old(self).clients().len(),
            forall|i: int| 0 <= i < old(self).clients().len() ==>
                final(self).clients()[i].log()
                    == old(self).clients()[i].log().push(event_b(field_b1, field_b2)),
            final(self).deliveries() == old(self).deliveries()
                + fanout_deliveries(old(self).clients().len(), event_b(field_b1, field_b2)),
    {
        let event = Event::EventB(EventB { field_b1, field_b2 });
        self.emit_event(event)
    }
}

/// Delivery order equals registration order: one fan-out to `n` clients
/// makes exactly `n` deliveries, and the `i`-th delivery hands the event to
/// client `i`, so each client receives it before the next one does.
pub proof fn lemma_fanout_order(n: nat, e: Event)
    ensures
        fanout_deliveries(n, e).len() == n,
        forall|i: int| 0 <= i < n ==> fanout_deliveries(n, e)[i] == (i, e),
{
}

/// A fan-out to an empty client list performs no deliveries at all.
pub proof fn lemma_empty_fanout(e: Event)
    ensures
        fanout_deliveries(0, e) == Seq::<(int, Event)>::empty(),
{
    assert(fanout_deliveries(0, e) =~= Seq::<(int, Event)>::empty());
}

} // verus!
