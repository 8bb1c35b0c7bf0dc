//! The bounded queue between the task that scans the keys and the task that
//! reports them.
//!
//! The queue is first in, first out and holds at most 24 events. A full
//! queue takes nothing: the event is handed back and what is queued stays as
//! it is, so the producer has to wait for the consumer instead of losing a
//! key press. The storage is a `heapless::Deque`.

use heapless::Deque;
use vstd::prelude::*;

verus! {

/// Number of events that the queue holds.
pub const EVENT_QUEUE_CAPACITY: usize = 24;

/// `heapless::Deque`: a double-ended queue of at most `N` items, stored in
/// place.
#[verifier::external_type_specification]
#[verifier::external_body]
#[verifier::reject_recursive_types(T)]
pub struct ExDeque<T, const N: usize>(Deque<T, N>);

/// The items in a deque of key events, front first.
pub uninterp spec fn deque_items(deque: Deque<(bool, (usize, usize)), 24>) -> Seq<
    (bool, (usize, usize)),
>;

/// `Deque::new`: the deque starts out empty.
#[verifier::external_body]
fn deque_new() -> (deque: Deque<(bool, (usize, usize)), 24>)
    ensures
        deque_items(deque) == Seq::<(bool, (usize, usize))>::empty(),
{
    Deque::new()
}

/// `Deque::len`: the number of items, which never exceeds the capacity.
#[verifier::external_body]
fn deque_len(deque: &Deque<(bool, (usize, usize)), 24>) -> (len: usize)
    ensures
        len == deque_items(*deque).len(),
        len <= 24,
{
    deque.len()
}

/// `Deque::push_back`: below capacity the item goes to the back; at
/// capacity the deque is left alone and the item comes back as the error.
#[verifier::external_body]
fn deque_push_back(
    deque: &mut Deque<(bool, (usize, usize)), 24>,
    item: (bool, (usize, usize)),
) -> (r: Result<(), (bool, (usize, usize))>)
    ensures
        r is Ok <==> deque_items(*old(deque)).len() < 24,
        r is Ok ==> deque_items(*final(deque)) == deque_items(*old(deque)).push(item),
        r matches Err(back) ==> back == item && deque_items(*final(deque)) == deque_items(
            *old(deque),
        ),
{
    deque.push_back(item)
}

/// `Deque::pop_front`: the front item leaves and is returned; an empty
/// deque gives `None` and stays empty.
#[verifier::external_body]
fn deque_pop_front(deque: &mut Deque<(bool, (usize, usize)), 24>) -> (r: Option<
    (bool, (usize, usize)),
>)
    ensures
        r is Some <==> deque_items(*old(deque)).len() > 0,
        r matches Some(item) ==> item == deque_items(*old(deque))[0] && deque_items(*final(deque))
            == deque_items(*old(deque)).drop_first(),
        r is None ==> deque_items(*final(deque)) == deque_items(*old(deque)),
{
    deque.pop_front()
}

/// What offering `item` to a queue holding `queued` leaves in the queue:
/// the item at the back if there is room, else what was there.
pub open spec fn after_send(
    queued: Seq<(bool, (usize, usize))>,
    item: (bool, (usize, usize)),
) -> Seq<(bool, (usize, usize))> {
    if queued.len() < EVENT_QUEUE_CAPACITY {
        queued.push(item)
    } else {
        queued
    }
}

/// What taking an event from a queue holding `queued` leaves in the queue.
pub open spec fn after_receive(queued: Seq<(bool, (usize, usize))>) -> Seq<(bool, (usize, usize))> {
    if queued.len() > 0 {
        queued.drop_first()
    } else {
        queued
    }
}

/// The queue of key events on their way from the scanner to the reporter.
/// An event says whether the key went down, and gives the key's row and
/// column.
pub struct EventQueue {
    events: Deque<(bool, (usize, usize)), 24>,
}

impl View for EventQueue {
    type V = Seq<(bool, (usize, usize))>;

    /// The queued events, oldest first.
    closed spec fn view(&self) -> Seq<(bool, (usize, usize))> {
        deque_items(self.events)
    }
}

impl EventQueue {
    /// An empty queue.
    pub fn new() -> (queue: Self)
        ensures
            queue@ == Seq::<(bool, (usize, usize))>::empty(),
    {
        EventQueue { events: deque_new() }
    }

    /// Number of queued events.
    pub fn len(&self) -> (len: usize)
        ensures
            len == self@.len(),
            len <= EVENT_QUEUE_CAPACITY,
    {
        deque_len(&self.events)
    }

    /// Whether nothing is queued.
    pub fn is_empty(&self) -> (r: bool)
        ensures
            r == (self@.len() == 0),
    {
        deque_len(&self.events) == 0
    }

    /// Whether the queue takes no further event.
    pub fn is_full(&self) -> (r: bool)
        ensures
            r == (self@.len() >= EVENT_QUEUE_CAPACITY),
    {
        deque_len(&self.events) >= EVENT_QUEUE_CAPACITY
    }

    /// Queues `event` behind the others if there is room. On a full queue
    /// nothing changes and the event comes back.
    pub fn try_send(&mut self, event: (bool, (usize, usize))) -> (r: Result<
        (),
        (bool, (usize, usize)),
    >)
        ensures
            r is Ok <==> old(self)@.len() < EVENT_QUEUE_CAPACITY,
            r matches Err(back) ==> back == event,
            final(self)@ == after_send(old(self)@, event),
    {
        deque_push_back(&mut self.events, event)
    }

    /// Takes the oldest event, if there is one.
    pub fn try_receive(&mut self) -> (r: Option<(bool, (usize, usize))>)
        ensures
            r is Some <==> old(self)@.len() > 0,
            r matches Some(event) ==> event == old(self)@[0],
            final(self)@ == after_receive(old(self)@),
    {
        deque_pop_front(&mut self.events)
    }
}

/// A full queue refuses an event and keeps every queued event in place; once
/// one event was taken, the same offer is accepted and the new event stands
/// last, behind all that were queued before it.
pub proof fn lemma_backpressure(queued: Seq<(bool, (usize, usize))>, event: (bool, (usize, usize)))
    requires
        queued.len() == EVENT_QUEUE_CAPACITY,
    ensures
        after_send(queued, event) == queued,
        after_receive(queued).len() == EVENT_QUEUE_CAPACITY - 1,
        after_send(after_receive(queued), event) == queued.drop_first().push(event),
{
}

/// Events leave the queue in the order in which they were accepted: after
/// `first` and then `second` were queued on an empty queue, `first` is taken
/// before `second`.
pub proof fn lemma_first_in_first_out(first: (bool, (usize, usize)), second: (bool, (usize, usize)))
    ensures
        ({
            let queued = after_send(after_send(Seq::empty(), first), second);
            &&& queued[0] == first
            &&& after_receive(queued)[0] == second
            &&& after_receive(after_receive(queued)).len() == 0
        }),
{
}

/// Sending never drops or overwrites what is queued: every event queued
/// before is still there, at its place.
pub proof fn lemma_send_keeps_queued(
    queued: Seq<(bool, (usize, usize))>,
    event: (bool, (usize, usize)),
    k: int,
)
    requires
        0 <= k < queued.len(),
    ensures
        after_send(queued, event).len() >= queued.len(),
        after_send(queued, event)[k] == queued[k],
{
}

} // verus!
