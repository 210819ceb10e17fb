use vstd::prelude::*;

use heapless::spsc::Queue;

verus! {

/// Number of timestamps an echo channel holds: one rising and one falling edge.
pub const ECHO_CAPACITY: usize = 2;

/// heapless's lock-free single-producer single-consumer ring buffer, held
/// opaque; `Queue<T, N>` holds at most `N - 1` items.
#[verifier::external_type_specification]
#[verifier::external_body]
#[verifier::reject_recursive_types(T)]
pub struct ExQueue<T, const N: usize>(Queue<T, N>);

/// The timestamps held by a queue, front (oldest) first.
pub uninterp spec fn queue_items(q: Queue<u64, 3>) -> Seq<u64>;

/// Relies on `heapless::spsc::Queue::new`: the queue starts empty.
#[verifier::external_body]
fn queue_new() -> (r: Queue<u64, 3>)
    ensures
        queue_items(r) == Seq::<u64>::empty(),
{
    Queue::new()
}

/// Relies on `heapless::spsc::Queue::len`: the number of items held.
#[verifier::external_body]
fn queue_len(q: &Queue<u64, 3>) -> (r: usize)
    ensures
        r == queue_items(*q).len(),
{
    q.len()
}

/// Relies on `heapless::spsc::Queue::enqueue`: with `N = 3` the queue holds at
/// most two items; a new item goes to the back, and is handed back when the
/// queue is full (here as `Some` of it).
#[verifier::external_body]
fn queue_enqueue(q: &mut Queue<u64, 3>, t: u64) -> (r: Option<u64>)
    ensures
        r == if queue_items(*old(q)).len() < ECHO_CAPACITY {
            None
        } else {
            Some(t)
        },
        queue_items(*final(q)) == produced(queue_items(*old(q)), t),
{
    q.enqueue(t).err()
}

/// Relies on `heapless::spsc::Queue::dequeue`: removes and returns the front
/// item, or `None` when the queue is empty.
#[verifier::external_body]
fn queue_dequeue(q: &mut Queue<u64, 3>) -> (r: Option<u64>)
    ensures
        r == taken(queue_items(*old(q))),
        queue_items(*final(q)) == consumed(queue_items(*old(q))),
{
    q.dequeue()
}

/// What a channel holds after `t` is offered to one holding `items`: the
/// timestamp is appended when there is room, and dropped when the channel is
/// full (the unread entries are kept).
pub open spec fn produced(items: Seq<u64>, t: u64) -> Seq<u64> {
    if items.len() < ECHO_CAPACITY {
        items.push(t)
    } else {
        items
    }
}

/// What a channel holds after its oldest entry is taken.
pub open spec fn consumed(items: Seq<u64>) -> Seq<u64> {
    if items.len() == 0 {
        items
    } else {
        items.drop_first()
    }
}

/// The entry a take from a channel holding `items` returns.
pub open spec fn taken(items: Seq<u64>) -> Option<u64> {
    if items.len() == 0 {
        None
    } else {
        Some(items[0])
    }
}

/// On an empty channel a produce followed by a consume hands back the very
/// timestamp produced and leaves the channel empty; two produces followed by
/// two consumes hand the timestamps back in the order produced.
pub proof fn lemma_fifo(items: Seq<u64>, a: u64, b: u64)
    requires
        items.len() == 0,
    ensures
        taken(produced(items, a)) == Some(a),
        consumed(produced(items, a)) == items,
        taken(produced(produced(items, a), b)) == Some(a),
        taken(consumed(produced(produced(items, a), b))) == Some(b),
        consumed(consumed(produced(produced(items, a), b))) == items,
{
    assert(consumed(produced(items, a)) =~= items);
    assert(consumed(produced(produced(items, a), b)) =~= seq![b]);
    assert(consumed(consumed(produced(produced(items, a), b))) =~= items);
}

/// A full channel drops a new timestamp and keeps its unread pair, in order.
pub proof fn lemma_full_channel_drops(items: Seq<u64>, t: u64)
    requires
        items.len() == ECHO_CAPACITY,
    ensures
        produced(items, t) == items,
        taken(produced(items, t)) == Some(items[0]),
        taken(consumed(produced(items, t))) == Some(items[1]),
{
}

/// A bounded first-in first-out hand-off of edge timestamps from the edge
/// interrupt (the producer) to the measuring task (the consumer).
///
/// The producer never waits: when two entries are unread, a new timestamp is
/// dropped and the unread pair is kept.
pub struct EchoChannel {
    queue: Queue<u64, 3>,
}

impl View for EchoChannel {
    type V = Seq<u64>;

    closed spec fn view(&self) -> Seq<u64> {
        queue_items(self.queue)
    }
}

impl EchoChannel {
    /// The unread entries never exceed the capacity.
    pub closed spec fn wf(&self) -> bool {
        queue_items(self.queue).len() <= ECHO_CAPACITY
    }

    /// An empty channel.
    pub fn new() -> (r: EchoChannel)
        ensures
            r.wf(),
            r@ == Seq::<u64>::empty(),
    {
        EchoChannel { queue: queue_new() }
    }

    /// Number of unread entries.
    pub fn len(&self) -> (r: usize)
        requires
            self.wf(),
        ensures
            r == self@.len(),
            r <= ECHO_CAPACITY,
    {
        queue_len(&self.queue)
    }

    /// Offers a timestamp; returns whether it was kept.
    pub fn produce(&mut self, t: u64) -> (r: bool)
        requires
            old(self).wf(),
        ensures
            final(self).wf(),
            final(self)@ == produced(old(self)@, t),
            r == (old(self)@.len() < ECHO_CAPACITY),
    {
        let res = queue_enqueue(&mut self.queue, t);
        res.is_none()
    }

    /// Takes the oldest unread entry, if there is one.
    pub fn consume(&mut self) -> (r: Option<u64>)
        requires
            old(self).wf(),
        ensures
            final(self).wf(),
            final(self)@ == consumed(old(self)@),
            r == taken(old(self)@),
    {
        queue_dequeue(&mut self.queue)
    }

    /// Discards every unread entry and returns how many there were.
    pub fn drain(&mut self) -> (r: usize)
        requires
            old(self).wf(),
        ensures
            final(self).wf(),
            final(self)@ == Seq::<u64>::empty(),
            r == old(self)@.len(),
    {
        let mut dropped: usize = 0;
        while queue_len(&self.queue) > 0
            invariant
                queue_items(self.queue).len() + dropped == old(self)@.len(),
                old(self)@.len() <= ECHO_CAPACITY,
            decreases queue_items(self.queue).len(),
        {
            let _ = queue_dequeue(&mut self.queue);
            dropped = dropped + 1;
        }
        dropped
    }
}

} // verus!
