//! An unbounded first-in first-out queue of messages for a host that guards
//! it with a native mutex and wakes its consumers through a condition. A
//! consumer that finds it empty is suspended on the condition and looks again
//! when it is woken; a producer wakes one consumer after each message.

use crate::channel::queue_after;
use crate::channel::queue_yield;
use crate::channel::QueueCall;
use std::collections::VecDeque;
use vstd::prelude::*;

verus! {

/// A queue of messages.
pub struct MutexChannel<T> {
    data: VecDeque<T>,
}

impl<T> View for MutexChannel<T> {
    type V = Seq<T>;

    /// The messages that wait, oldest first.
    closed spec fn view(&self) -> Seq<T> {
        self.data@
    }
}

impl<T> MutexChannel<T> {
    /// An empty queue.
    pub fn new() -> (channel: Self)
        ensures
            channel@ == Seq::<T>::empty(),
    {
        MutexChannel { data: VecDeque::new() }
    }

    /// Appends `message` at the tail. Never waits for room and never fails.
    /// One suspended consumer is to be woken afterwards.
    pub fn enqueue(&mut self, message: T)
        ensures
            final(self)@ == old(self)@.push(message),
    {
        self.data.push_back(message);
    }

    /// Removes and returns the head. On an empty queue a consumer waits, so
    /// an empty queue is no input here: a caller that may have to wait
    /// repeats [`MutexChannel::try_dequeue`].
    pub fn dequeue(&mut self) -> (front: T)
        requires
            old(self)@.len() > 0,
        ensures
            front == old(self)@.first(),
            final(self)@ == old(self)@.drop_first(),
    {
        let front = self.data.pop_front();
        front.unwrap()
    }

    /// One round of a waiting consumer: removes the head if there is one.
    /// `None` tells the consumer to suspend until it is woken and then to
    /// look again, since a wake-up does not promise that a message is still
    /// there; the queue is then as it was.
    pub fn try_dequeue(&mut self) -> (front: Option<T>)
        ensures
            front == queue_yield(old(self)@, QueueCall::Dequeue),
            final(self)@ == queue_after(old(self)@, QueueCall::Dequeue),
    {
        self.data.pop_front()
    }
}

/// Where a producer stands between its steps.
pub enum ProducerStage<T> {
    /// Has come with a message and has yet to append it.
    Arrived(T),
    /// Has appended its message and has yet to wake a consumer.
    Pushed,
    /// Has woken a consumer, if one was suspended, and is gone.
    Done,
}

/// Where a consumer stands between its steps.
pub enum ConsumerStage<T> {
    /// Has come and has yet to look into the queue.
    Arrived,
    /// Has found the queue empty and is suspended on the condition.
    Suspended,
    /// Has been woken, by a producer or for no reason, and has yet to look
    /// into the queue again.
    Woken,
    /// Goes away with this message.
    Served(T),
}

/// A producer or a consumer of a queue.
pub enum Actor<T> {
    Producer(ProducerStage<T>),
    Consumer(ConsumerStage<T>),
}

impl<T> Actor<T> {
    /// A consumer that sleeps on the condition.
    pub open spec fn suspended(self) -> bool {
        self matches Actor::Consumer(ConsumerStage::Suspended)
    }

    /// A consumer that was woken and has yet to look into the queue.
    pub open spec fn woken(self) -> bool {
        self matches Actor::Consumer(ConsumerStage::Woken)
    }

    /// A producer that owes a wake-up for the message that it appended.
    pub open spec fn owes_wake_up(self) -> bool {
        self matches Actor::Producer(ProducerStage::Pushed)
    }
}

/// How many of the actors are of one kind.
pub open spec fn count<T>(actors: Seq<Actor<T>>, kind: spec_fn(Actor<T>) -> bool) -> nat
    decreases actors.len(),
{
    if actors.len() == 0 {
        0
    } else {
        count(actors.drop_last(), kind) + if kind(actors.last()) {
            1nat
        } else {
            0nat
        }
    }
}

/// Any number of producers and consumers around one queue.
pub struct Crowd<T> {
    pub queue: Seq<T>,
    pub actors: Seq<Actor<T>>,
}

impl<T> Crowd<T> {
    /// An empty queue and actors that have all just come.
    pub open spec fn start(actors: Seq<Actor<T>>) -> Self {
        Crowd { queue: Seq::empty(), actors }
    }

    /// Whether every actor has just come.
    pub open spec fn all_arrived(actors: Seq<Actor<T>>) -> bool {
        forall|i: int|
            0 <= i < actors.len() ==> match #[trigger] actors[i] {
                Actor::Producer(stage) => stage is Arrived,
                Actor::Consumer(stage) => stage is Arrived,
            }
    }

    /// How many consumers are suspended.
    pub open spec fn suspended(self) -> nat {
        count(self.actors, |actor: Actor<T>| actor.suspended())
    }

    /// How many consumers were woken and have yet to look into the queue.
    pub open spec fn woken(self) -> nat {
        count(self.actors, |actor: Actor<T>| actor.woken())
    }

    /// How many producers owe a wake-up.
    pub open spec fn owed(self) -> nat {
        count(self.actors, |actor: Actor<T>| actor.owes_wake_up())
    }

    /// The consumer that a wake-up reaches: any suspended one.
    pub open spec fn sleeper(self) -> int {
        choose|i: int| 0 <= i < self.actors.len() && (#[trigger] self.actors[i]).suspended()
    }

    /// One step of actor `who`, each made with the queue to itself. A
    /// producer appends its message, then wakes one suspended consumer if
    /// there is one. A consumer that has just come or was woken takes the
    /// head of the queue, or is suspended if there is none. A suspended
    /// consumer wakes for no reason.
    pub open spec fn step(self, who: int) -> Self {
        if 0 <= who < self.actors.len() {
            match self.actors[who] {
                Actor::Producer(ProducerStage::Arrived(message)) => Crowd {
                    queue: queue_after(self.queue, QueueCall::Enqueue(message)),
                    actors: self.actors.update(who, Actor::Producer(ProducerStage::Pushed)),
                },
                Actor::Producer(ProducerStage::Pushed) => {
                    let gone = self.actors.update(who, Actor::Producer(ProducerStage::Done));
                    if self.suspended() > 0 {
                        Crowd {
                            queue: self.queue,
                            actors: gone.update(
                                self.sleeper(),
                                Actor::Consumer(ConsumerStage::Woken),
                            ),
                        }
                    } else {
                        Crowd { queue: self.queue, actors: gone }
                    }
                },
                Actor::Consumer(ConsumerStage::Arrived) | Actor::Consumer(
                    ConsumerStage::Woken,
                ) => match queue_yield(self.queue, QueueCall::Dequeue) {
                    Some(message) => Crowd {
                        queue: queue_after(self.queue, QueueCall::Dequeue),
                        actors: self.actors.update(
                            who,
                            Actor::Consumer(ConsumerStage::Served(message)),
                        ),
                    },
                    None => Crowd {
                        queue: self.queue,
                        actors: self.actors.update(who, Actor::Consumer(ConsumerStage::Suspended)),
                    },
                },
                Actor::Consumer(ConsumerStage::Suspended) => Crowd {
                    queue: self.queue,
                    actors: self.actors.update(who, Actor::Consumer(ConsumerStage::Woken)),
                },
                _ => self,
            }
        } else {
            self
        }
    }

    /// The crowd after the actors have taken their steps in the order that
    /// `schedule` gives, whatever that order is.
    pub open spec fn run(self, schedule: Seq<int>) -> Self
        decreases schedule.len(),
    {
        if schedule.len() == 0 {
            self
        } else {
            self.run(schedule.drop_last()).step(schedule.last())
        }
    }

    /// What holds of a crowd at every moment: while a consumer is suspended,
    /// every message that waits has a wake-up of its own that is under way,
    /// be it a consumer that was woken and has yet to look, or a producer
    /// that has yet to wake one.
    pub open spec fn sound(self) -> bool {
        self.suspended() == 0 || self.queue.len() <= self.woken() + self.owed()
    }
}

proof fn lemma_count_none<T>(actors: Seq<Actor<T>>, kind: spec_fn(Actor<T>) -> bool)
    requires
        forall|i: int| 0 <= i < actors.len() ==> !kind(#[trigger] actors[i]),
    ensures
        count(actors, kind) == 0,
    decreases actors.len(),
{
    if actors.len() > 0 {
        lemma_count_none(actors.drop_last(), kind);
    }
}

proof fn lemma_count_some<T>(actors: Seq<Actor<T>>, kind: spec_fn(Actor<T>) -> bool)
    requires
        count(actors, kind) > 0,
    ensures
        exists|i: int| 0 <= i < actors.len() && kind(#[trigger] actors[i]),
    decreases actors.len(),
{
    if actors.len() > 0 {
        if kind(actors.last()) {
            assert(kind(actors[actors.len() - 1]));
        } else {
            lemma_count_some(actors.drop_last(), kind);
            let i = choose|i: int|
                0 <= i < actors.drop_last().len() && kind(#[trigger] actors.drop_last()[i]);
            assert(kind(actors[i]));
        }
    }
}

proof fn lemma_count_update<T>(
    actors: Seq<Actor<T>>,
    kind: spec_fn(Actor<T>) -> bool,
    who: int,
    actor: Actor<T>,
)
    requires
        0 <= who < actors.len(),
    ensures
        count(actors.update(who, actor), kind) + (if kind(actors[who]) {
            1nat
        } else {
            0nat
        }) == count(actors, kind) + (if kind(actor) {
            1nat
        } else {
            0nat
        }),
    decreases actors.len(),
{
    let updated = actors.update(who, actor);
    if who == actors.len() - 1 {
        assert(updated.drop_last() =~= actors.drop_last());
    } else {
        lemma_count_update(actors.drop_last(), kind, who, actor);
        assert(updated.drop_last() =~= actors.drop_last().update(who, actor));
    }
}

proof fn lemma_step_keeps_sound<T>(crowd: Crowd<T>, who: int)
    requires
        crowd.sound(),
    ensures
        crowd.step(who).sound(),
{
    let suspended = |actor: Actor<T>| actor.suspended();
    let woken = |actor: Actor<T>| actor.woken();
    let owes = |actor: Actor<T>| actor.owes_wake_up();
    let next = crowd.step(who);
    if 0 <= who < crowd.actors.len() {
        match crowd.actors[who] {
            Actor::Producer(ProducerStage::Arrived(message)) => {
                lemma_count_update(crowd.actors, suspended, who, next.actors[who]);
                lemma_count_update(crowd.actors, woken, who, next.actors[who]);
                lemma_count_update(crowd.actors, owes, who, next.actors[who]);
            },
            Actor::Producer(ProducerStage::Pushed) => {
                let done = Actor::Producer(ProducerStage::<T>::Done);
                let gone = crowd.actors.update(who, done);
                lemma_count_update(crowd.actors, suspended, who, done);
                lemma_count_update(crowd.actors, woken, who, done);
                lemma_count_update(crowd.actors, owes, who, done);
                if crowd.suspended() > 0 {
                    lemma_count_some(crowd.actors, suspended);
                    let k = crowd.sleeper();
                    assert(crowd.actors[k].suspended());
                    assert(gone[k] == crowd.actors[k]);
                    let up = Actor::Consumer(ConsumerStage::<T>::Woken);
                    lemma_count_update(gone, suspended, k, up);
                    lemma_count_update(gone, woken, k, up);
                    lemma_count_update(gone, owes, k, up);
                }
            },
            Actor::Consumer(ConsumerStage::Arrived) | Actor::Consumer(ConsumerStage::Woken)
            | Actor::Consumer(ConsumerStage::Suspended) => {
                lemma_count_update(crowd.actors, suspended, who, next.actors[who]);
                lemma_count_update(crowd.actors, woken, who, next.actors[who]);
                lemma_count_update(crowd.actors, owes, who, next.actors[who]);
            },
            _ => {},
        }
    }
}

/// A crowd is sound at the start and stays so under every schedule.
pub proof fn lemma_crowd_is_sound<T>(actors: Seq<Actor<T>>, schedule: Seq<int>)
    requires
        Crowd::all_arrived(actors),
    ensures
        Crowd::start(actors).run(schedule).sound(),
    decreases schedule.len(),
{
    let start = Crowd::start(actors);
    if schedule.len() == 0 {
        lemma_count_none(actors, |actor: Actor<T>| actor.suspended());
    } else {
        lemma_crowd_is_sound(actors, schedule.drop_last());
        lemma_step_keeps_sound(start.run(schedule.drop_last()), schedule.last());
    }
}

/// No message is slept on: however the steps of producers and consumers
/// interleave, and however often a consumer wakes for no reason, whenever a
/// message waits while a consumer is suspended, a consumer has been woken
/// and has yet to look into the queue, or a producer has yet to wake one.
pub proof fn lemma_no_message_is_slept_on<T>(actors: Seq<Actor<T>>, schedule: Seq<int>)
    requires
        Crowd::all_arrived(actors),
        Crowd::start(actors).run(schedule).queue.len() > 0,
        Crowd::start(actors).run(schedule).suspended() > 0,
    ensures
        Crowd::start(actors).run(schedule).woken() + Crowd::start(actors).run(schedule).owed() > 0,
{
    lemma_crowd_is_sound(actors, schedule);
}

} // verus!
