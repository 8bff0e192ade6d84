//! An unbounded first-in first-out queue of messages behind the busy-wait
//! lock. A consumer that finds it empty lets go of the lock and tries again.

use crate::spin_lock::SpinLock;
use std::collections::VecDeque;
use vstd::prelude::*;

verus! {

/// A queue of messages, guarded by a [`SpinLock`].
pub struct Channel<T> {
    data: SpinLock<VecDeque<T>>,
}

impl<T> View for Channel<T> {
    type V = Seq<T>;

    /// The messages that wait, oldest first.
    closed spec fn view(&self) -> Seq<T> {
        self.data@.payload@
    }
}

impl<T> Channel<T> {
    /// Between two operations nobody holds the queue's lock.
    pub closed spec fn wf(&self) -> bool {
        !self.data@.held
    }

    /// An empty queue.
    pub fn new() -> (channel: Self)
        ensures
            channel.wf(),
            channel@ == Seq::<T>::empty(),
    {
        Channel { data: SpinLock::new(VecDeque::new()) }
    }

    /// Appends `data` at the tail. Never waits for room and never fails.
    pub fn enqueue(&mut self, data: T)
        requires
            old(self).wf(),
        ensures
            final(self).wf(),
            final(self)@ == old(self)@.push(data),
    {
        let mut inner = self.data.lock();
        inner.deref_mut().push_back(data);
        inner.unlock();
    }

    /// Removes and returns the head. On an empty queue a consumer waits, so
    /// an empty queue is no input here: a caller that may have to wait
    /// repeats [`Channel::try_dequeue`].
    pub fn dequeue(&mut self) -> (front: T)
        requires
            old(self).wf(),
            old(self)@.len() > 0,
        ensures
            final(self).wf(),
            front == old(self)@.first(),
            final(self)@ == old(self)@.drop_first(),
    {
        let mut inner = self.data.lock();
        let front = inner.deref_mut().pop_front();
        inner.unlock();
        front.unwrap()
    }

    /// One round of a waiting consumer: takes the lock, removes the head if
    /// there is one, and lets the lock go. `None` tells the consumer to spin
    /// and come back; the queue is then as it was.
    pub fn try_dequeue(&mut self) -> (front: Option<T>)
        requires
            old(self).wf(),
        ensures
            final(self).wf(),
            front == queue_yield(old(self)@, QueueCall::Dequeue),
            final(self)@ == queue_after(old(self)@, QueueCall::Dequeue),
    {
        let mut inner = self.data.lock();
        if inner.deref().len() == 0 {
            inner.unlock();
            None
        } else {
            let front = inner.deref_mut().pop_front();
            inner.unlock();
            front
        }
    }
}

/// One call on a queue, by whichever producer or consumer makes it: a message
/// to append, or one attempt to take the head.
pub enum QueueCall<T> {
    Enqueue(T),
    Dequeue,
}

/// The queue after one call.
pub open spec fn queue_after<T>(queue: Seq<T>, call: QueueCall<T>) -> Seq<T> {
    match call {
        QueueCall::Enqueue(item) => queue.push(item),
        QueueCall::Dequeue => if queue.len() > 0 {
            queue.drop_first()
        } else {
            queue
        },
    }
}

/// What one call hands to its caller.
pub open spec fn queue_yield<T>(queue: Seq<T>, call: QueueCall<T>) -> Option<T> {
    match call {
        QueueCall::Enqueue(item) => None,
        QueueCall::Dequeue => if queue.len() > 0 {
            Some(queue.first())
        } else {
            None
        },
    }
}

/// The queue after a history of calls, made one after the other in the order
/// in which they got hold of the queue.
pub open spec fn history_queue<T>(queue: Seq<T>, calls: Seq<QueueCall<T>>) -> Seq<T>
    decreases calls.len(),
{
    if calls.len() == 0 {
        queue
    } else {
        history_queue(queue_after(queue, calls.first()), calls.drop_first())
    }
}

/// The messages that a history of calls hands out, in the order of the
/// handing out.
pub open spec fn history_dequeued<T>(queue: Seq<T>, calls: Seq<QueueCall<T>>) -> Seq<T>
    decreases calls.len(),
{
    if calls.len() == 0 {
        Seq::empty()
    } else {
        let rest = history_dequeued(queue_after(queue, calls.first()), calls.drop_first());
        match queue_yield(queue, calls.first()) {
            Some(item) => seq![item] + rest,
            None => rest,
        }
    }
}

/// The messages that a history of calls appends, in the order of the
/// appending.
pub open spec fn history_enqueued<T>(calls: Seq<QueueCall<T>>) -> Seq<T>
    decreases calls.len(),
{
    if calls.len() == 0 {
        Seq::empty()
    } else {
        let rest = history_enqueued(calls.drop_first());
        match calls.first() {
            QueueCall::Enqueue(item) => seq![item] + rest,
            QueueCall::Dequeue => rest,
        }
    }
}

/// First in, first out, and nothing lost or doubled: whatever the history of
/// calls, the messages handed out, followed by those that still wait, are
/// the messages that waited at the start followed by those appended since,
/// each once and in that order.
pub proof fn lemma_fifo_exactly_once<T>(queue: Seq<T>, calls: Seq<QueueCall<T>>)
    ensures
        history_dequeued(queue, calls) + history_queue(queue, calls) == queue + history_enqueued(
            calls,
        ),
    decreases calls.len(),
{
    if calls.len() == 0 {
        assert(Seq::<T>::empty() + queue =~= queue + Seq::<T>::empty());
    } else {
        let next = queue_after(queue, calls.first());
        let rest = calls.drop_first();
        lemma_fifo_exactly_once(next, rest);
        let out = history_dequeued(next, rest);
        let end = history_queue(next, rest);
        let put = history_enqueued(rest);
        match calls.first() {
            QueueCall::Enqueue(item) => {
                assert(out + end =~= queue + (seq![item] + put));
            },
            QueueCall::Dequeue => {
                if queue.len() > 0 {
                    assert((seq![queue.first()] + out) + end =~= seq![queue.first()] + (out
                        + end));
                    assert(seq![queue.first()] + (queue.drop_first() + put) =~= queue + put);
                }
            },
        }
    }
}

/// Completeness: once a queue that started empty is empty again, every
/// message that was appended has been handed out, exactly once and in the
/// order of the appending.
pub proof fn lemma_drained_queue_delivered_all<T>(calls: Seq<QueueCall<T>>)
    requires
        history_queue(Seq::<T>::empty(), calls).len() == 0,
    ensures
        history_dequeued(Seq::<T>::empty(), calls) == history_enqueued(calls),
{
    lemma_fifo_exactly_once(Seq::<T>::empty(), calls);
    let out = history_dequeued(Seq::<T>::empty(), calls);
    let end = history_queue(Seq::<T>::empty(), calls);
    let put = history_enqueued(calls);
    assert(out + end =~= out);
    assert(Seq::<T>::empty() + put =~= put);
}

/// Order among the messages of one kind, such as those of one producer: the
/// messages of the kind that were handed out are the first of those of the
/// kind that waited or were appended, in the same order.
pub proof fn lemma_order_within_a_kind<T>(
    queue: Seq<T>,
    calls: Seq<QueueCall<T>>,
    kind: spec_fn(T) -> bool,
)
    ensures
        history_dequeued(queue, calls).filter(kind).is_prefix_of(
            (queue + history_enqueued(calls)).filter(kind),
        ),
{
    lemma_fifo_exactly_once(queue, calls);
    let out = history_dequeued(queue, calls);
    let end = history_queue(queue, calls);
    Seq::filter_distributes_over_add(out, end, kind);
    let shown = out.filter(kind);
    let kept = end.filter(kind);
    assert((shown + kept).subrange(0, shown.len() as int) =~= shown);
}

/// A consumer that comes first gets what comes later: an attempt on an empty
/// queue hands out nothing and changes nothing, and once a message has been
/// appended the next attempt hands out that very message.
pub proof fn lemma_early_consumer_is_served<T>(item: T)
    ensures
        queue_yield(Seq::<T>::empty(), QueueCall::Dequeue) == None::<T>,
        queue_after(Seq::<T>::empty(), QueueCall::Dequeue) == Seq::<T>::empty(),
        queue_yield(
            queue_after(Seq::<T>::empty(), QueueCall::Enqueue(item)),
            QueueCall::Dequeue,
        ) == Some(item),
{
}

} // verus!
