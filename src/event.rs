//! Event taxonomy and the bounded first-in first-out event bus that connects
//! interrupt-context producers to the orchestration handlers.
use crate::phase::FlightPhase;
use crate::pyro::PyroState;
use heapless::mpmc::{MpMcQueue, Q8};
use vstd::prelude::*;

verus! {

/// Notification about a state that was reached.
#[derive(Debug, PartialEq, Eq, Structural, Clone, Copy)]
pub enum StateEvent {
    System(FlightPhase),
    Pyro(PyroState),
}

/// Message carried by the event bus.
#[derive(Debug, PartialEq, Eq, Structural, Clone, Copy)]
pub enum Event {
    PyroStateInfo(PyroState),
    StateInfo(StateEvent),
    StateChangeRequest(FlightPhase),
}

/// Number of events the bus holds at once.
pub const BUS_CAPACITY: usize = 8;

/// A short list of state events, as returned by the "required events" query.
pub type EventList = heapless::Vec<StateEvent, 5>;

/// Most events an `EventList` holds.
pub const EVENT_LIST_CAPACITY: usize = 5;

#[verifier::external_type_specification]
#[verifier::external_body]
#[verifier::reject_recursive_types(T)]
pub struct ExHeaplessVec<T, const N: usize>(heapless::Vec<T, N>);

#[verifier::external_type_specification]
#[verifier::external_body]
#[verifier::reject_recursive_types(T)]
pub struct ExMpMcQueue<T, const N: usize>(MpMcQueue<T, N>);

/// The events an `EventList` holds, in order.
pub uninterp spec fn listed(v: heapless::Vec<StateEvent, 5>) -> Seq<StateEvent>;

/// The events waiting in a queue, oldest first.
pub uninterp spec fn queued(q: MpMcQueue<Event, 8>) -> Seq<Event>;

/// Relies on heapless's `Vec::new`: a new vector is empty.
#[verifier::external_body]
pub(crate) fn empty_event_list() -> (r: EventList)
    ensures
        listed(r) == Seq::<StateEvent>::empty(),
{
    heapless::Vec::new()
}

/// Relies on heapless's `Vec::push`: the item is appended when the vector
/// holds fewer than its capacity, and handed back otherwise.
#[verifier::external_body]
pub(crate) fn push_event(v: &mut EventList, e: StateEvent) -> (ok: bool)
    ensures
        ok == (listed(*old(v)).len() < EVENT_LIST_CAPACITY),
        ok ==> listed(*final(v)) == listed(*old(v)).push(e),
        !ok ==> listed(*final(v)) == listed(*old(v)),
{
    v.push(e).is_ok()
}

/// Relies on heapless's `Vec::as_slice`: the slice holds the vector's items.
#[verifier::external_body]
pub(crate) fn event_slice(v: &EventList) -> (r: &[StateEvent])
    ensures
        r@ == listed(*v),
{
    v.as_slice()
}

/// Relies on heapless's `MpMcQueue::new`: a new queue is empty.
#[verifier::external_body]
fn empty_queue() -> (q: Q8<Event>)
    ensures
        queued(q) == Seq::<Event>::empty(),
{
    Q8::new()
}

/// Relies on heapless's `MpMcQueue::enqueue`: with no other user of the queue,
/// the item is appended when fewer than eight are waiting, and handed back
/// otherwise.
#[verifier::external_body]
fn queue_enqueue(q: &mut Q8<Event>, e: Event) -> (r: Result<(), Event>)
    ensures
        r is Ok <==> queued(*old(q)).len() < BUS_CAPACITY,
        r is Ok ==> queued(*final(q)) == queued(*old(q)).push(e),
        r is Err ==> r->Err_0 == e,
        r is Err ==> queued(*final(q)) == queued(*old(q)),
{
    q.enqueue(e)
}

/// Relies on heapless's `MpMcQueue::dequeue`: with no other user of the
/// queue, the oldest item leaves it, or `None` comes back when it is empty.
#[verifier::external_body]
fn queue_dequeue(q: &mut Q8<Event>) -> (r: Option<Event>)
    ensures
        r is None <==> queued(*old(q)).len() == 0,
        r is Some ==> r == Some(queued(*old(q))[0]),
        r is Some ==> queued(*final(q)) == queued(*old(q)).drop_first(),
        r is None ==> queued(*final(q)) == queued(*old(q)),
{
    q.dequeue()
}

/// Non-blocking bounded FIFO of events. A full bus refuses new events.
pub struct EventBus {
    queue: Q8<Event>,
}

impl EventBus {
    /// Events waiting on the bus, oldest first.
    pub closed spec fn pending(&self) -> Seq<Event> {
        queued(self.queue)
    }

    /// The bus never holds more than its capacity.
    pub closed spec fn wf(&self) -> bool {
        self.pending().len() <= BUS_CAPACITY
    }

    pub fn new() -> (r: Self)
        ensures
            r.wf(),
            r.pending() == Seq::<Event>::empty(),
    {
        EventBus { queue: empty_queue() }
    }

    /// Appends `e` unless the bus is full; a refused event is dropped.
    pub fn enqueue(&mut self, e: Event) -> (r: bool)
        requires
            old(self).wf(),
        ensures
            final(self).wf(),
            r == (old(self).pending().len() < BUS_CAPACITY),
            r ==> final(self).pending() == old(self).pending().push(e),
            !r ==> final(self).pending() == old(self).pending(),
    {
        queue_enqueue(&mut self.queue, e).is_ok()
    }

    /// Takes the oldest waiting event, or `None` when the bus is empty.
    pub fn dequeue(&mut self) -> (r: Option<Event>)
        requires
            old(self).wf(),
        ensures
            final(self).wf(),
            r is None <==> old(self).pending().len() == 0,
            r is Some ==> r == Some(old(self).pending()[0]),
            r is Some ==> final(self).pending() == old(self).pending().drop_first(),
            r is None ==> final(self).pending() == old(self).pending(),
    {
        queue_dequeue(&mut self.queue)
    }
}

} // verus!
