//! A one-shot channel in two handles whose receiver sleeps instead of
//! failing. The sender knows whom to wake: the party named when the channel
//! was made. A receiver that finds no message is put to sleep by its host and
//! looks again whenever it wakes, be it woken by the sender or for no reason.

use crate::channels::Side;
use crate::channels::SlotState;
use std::marker::PhantomData;
use vstd::prelude::*;

verus! {

/// The slot through which the one message passes.
pub struct Channel<T> {
    message: Option<T>,
    ready: bool,
}

/// The capability to send one message, with the handle `W` of the party
/// that is to be woken once the message is published.
pub struct Sender<T, W> {
    receiver_thread: W,
    marker: PhantomData<T>,
}

/// The capability to receive one message, together with the slot in which
/// the message arrives.
pub struct Receiver<T> {
    channel: Channel<T>,
}

impl<T> View for Channel<T> {
    type V = SlotState<T>;

    closed spec fn view(&self) -> SlotState<T> {
        SlotState { message: self.message, ready: self.ready }
    }
}

impl<T> View for Receiver<T> {
    type V = SlotState<T>;

    /// The state of the receiver's slot.
    closed spec fn view(&self) -> SlotState<T> {
        self.channel@
    }
}

impl<T> Channel<T> {
    /// Holds after every single step of an operation: the message is written
    /// before it is published, and moved out after it is withdrawn.
    #[verifier::type_invariant]
    spec fn inv(&self) -> bool {
        self@.wf()
    }

    /// An empty slot.
    pub fn new_channel() -> (channel: Self)
        ensures
            channel@ == SlotState::<T>::empty(),
    {
        Channel { message: None, ready: false }
    }

    /// A fresh channel, as its two handles. `receiver_thread` is the party
    /// that will receive; the sender keeps it to wake it.
    pub fn new<W>(receiver_thread: W) -> (pair: (Sender<T, W>, Receiver<T>))
        ensures
            pair.0.target() == receiver_thread,
            pair.1@ == SlotState::<T>::empty(),
    {
        (
            Sender { receiver_thread, marker: PhantomData },
            Receiver { channel: Self::new_channel() },
        )
    }
}

impl<T, W> Sender<T, W> {
    /// The party that this sender wakes.
    pub closed spec fn target(self) -> W {
        self.receiver_thread
    }

    /// Spends the sender: writes `message` into the receiver's slot,
    /// publishes it, and returns the party to wake, which is the one named
    /// when the channel was made. A slot with an unconsumed message is no
    /// input here.
    pub fn send(self, to: &mut Receiver<T>, message: T) -> (wake: W)
        requires
            !old(to)@.ready,
        ensures
            final(to)@ == old(to)@.publish(message),
            wake == self.target(),
    {
        to.channel.message = Some(message);
        to.channel.ready = true;
        self.receiver_thread
    }
}

impl<T> Receiver<T> {
    /// Whether a message is published. With other threads about, the answer
    /// is advice only and no leave to read the message.
    pub fn is_ready(&self) -> (ready: bool)
        ensures
            ready == self@.ready,
    {
        self.channel.ready
    }

    /// Spends the receiver and moves the message out. Without a published
    /// message a receiver sleeps, so such a slot is no input here: a caller
    /// that may have to wait repeats [`Receiver::try_receive`].
    pub fn receive(self) -> (message: T)
        requires
            self@.ready,
        ensures
            Some(message) == self@.message,
    {
        proof {
            use_type_invariant(&self.channel);
        }
        let mut channel = self.channel;
        channel.ready = false;
        let mut taken: Option<T> = None;
        core::mem::swap(&mut channel.message, &mut taken);
        taken.unwrap()
    }

    /// One round of a waiting receiver: moves the message out if one is
    /// published. Otherwise the receiver comes back unchanged, to be put to
    /// sleep and to try again on waking.
    pub fn try_receive(self) -> (received: Result<T, Receiver<T>>)
        ensures
            match received {
                Ok(message) => self@.ready && Some(message) == self@.message,
                Err(receiver) => !self@.ready && receiver == self,
            },
    {
        if self.channel.ready {
            Ok(self.receive())
        } else {
            Err(self)
        }
    }
}

/// Where the sender stands between its steps. After the flag it has one more
/// step than a sender whose receiver does not sleep: the wake-up.
pub enum WakerStage {
    /// Has yet to write the message.
    Arrived,
    /// Has written the message and has yet to raise the flag.
    Written,
    /// Has raised the flag and has yet to wake the receiver.
    Raised,
    /// Has woken the receiver and is spent.
    Sent,
}

/// Where a receiver that sleeps stands between its steps.
pub enum SleeperStage<T> {
    /// Awake, and has yet to look at the flag.
    Looking,
    /// Has found the flag clear and has yet to go to sleep.
    Parking,
    /// Sleeps until it is woken, by the sender or for no reason.
    Asleep,
    /// Has cleared the flag and found it raised, and has yet to move the
    /// message out.
    Withdrawn,
    /// Has moved this message out and is spent.
    Received(T),
}

/// A sender that brings `message` and a receiver that sleeps, on their slot.
/// `token` is the wake-up that is kept for a thread that was woken while it
/// was awake: its next going to sleep uses the token up and returns at once.
pub struct Rendezvous<T> {
    pub slot: SlotState<T>,
    pub message: T,
    pub sender: WakerStage,
    pub receiver: SleeperStage<T>,
    pub token: bool,
}

impl<T> Rendezvous<T> {
    /// An empty slot, a sender that brings `message`, and a receiver that is
    /// awake.
    pub open spec fn start(message: T) -> Self {
        Rendezvous {
            slot: SlotState::empty(),
            message,
            sender: WakerStage::Arrived,
            receiver: SleeperStage::Looking,
            token: false,
        }
    }

    /// One step of one side. The sender writes its message, raises the flag,
    /// and wakes the receiver: a sleeping receiver wakes up, for one that is
    /// awake the wake-up is kept. The receiver clears the flag and moves the
    /// message out if the flag was raised. If not, it goes to sleep, unless
    /// a wake-up is kept for it, and looks again when it wakes; it may wake
    /// without having been woken.
    pub open spec fn step(self, side: Side) -> Self {
        match side {
            Side::Sender => match self.sender {
                WakerStage::Arrived => Rendezvous {
                    slot: self.slot.write(self.message),
                    sender: WakerStage::Written,
                    ..self
                },
                WakerStage::Written => Rendezvous {
                    slot: self.slot.raise(),
                    sender: WakerStage::Raised,
                    ..self
                },
                WakerStage::Raised => if self.receiver is Asleep {
                    Rendezvous {
                        sender: WakerStage::Sent,
                        receiver: SleeperStage::Looking,
                        ..self
                    }
                } else {
                    Rendezvous { sender: WakerStage::Sent, token: true, ..self }
                },
                WakerStage::Sent => self,
            },
            Side::Receiver => match self.receiver {
                SleeperStage::Looking => if self.slot.ready {
                    Rendezvous {
                        slot: self.slot.lower(),
                        receiver: SleeperStage::Withdrawn,
                        ..self
                    }
                } else {
                    Rendezvous { receiver: SleeperStage::Parking, ..self }
                },
                SleeperStage::Parking => if self.token {
                    Rendezvous { receiver: SleeperStage::Looking, token: false, ..self }
                } else {
                    Rendezvous { receiver: SleeperStage::Asleep, ..self }
                },
                SleeperStage::Asleep => Rendezvous { receiver: SleeperStage::Looking, ..self },
                SleeperStage::Withdrawn => match self.slot.message {
                    Some(message) => Rendezvous {
                        slot: self.slot.take(),
                        receiver: SleeperStage::Received(message),
                        ..self
                    },
                    None => self,
                },
                SleeperStage::Received(_) => self,
            },
        }
    }

    /// The rendezvous after the two sides have taken their steps in the
    /// order that `schedule` gives, whatever that order is. A step of a
    /// sleeping receiver is a wake-up for no reason.
    pub open spec fn run(self, schedule: Seq<Side>) -> Self
        decreases schedule.len(),
    {
        if schedule.len() == 0 {
            self
        } else {
            self.run(schedule.drop_last()).step(schedule.last())
        }
    }

    /// Whether the receiver has yet to get past the flag.
    pub open spec fn receiver_waits(self) -> bool {
        self.receiver is Looking || self.receiver is Parking || self.receiver is Asleep
    }

    /// What holds of a rendezvous at every moment. Until the sender has
    /// raised the flag the receiver has not got past it and no wake-up is
    /// kept. Once the flag is raised, the message sits in the storage until
    /// the receiver, having cleared the flag, moves it out, and what the
    /// receiver then has is the sender's message. And once the sender is
    /// spent no published message is slept on: the receiver is awake, or on
    /// its way to sleep with a wake-up kept for it.
    pub open spec fn sound(self) -> bool {
        &&& self.token ==> self.sender is Sent
        &&& match self.sender {
            WakerStage::Arrived => {
                &&& self.slot == SlotState::<T>::empty()
                &&& self.receiver_waits()
            },
            WakerStage::Written => {
                &&& self.slot == SlotState::<T>::empty().write(self.message)
                &&& self.receiver_waits()
            },
            WakerStage::Raised | WakerStage::Sent => match self.receiver {
                SleeperStage::Withdrawn => self.slot == SlotState::<T>::empty().write(
                    self.message,
                ),
                SleeperStage::Received(message) => {
                    &&& self.slot == SlotState::<T>::empty()
                    &&& message == self.message
                },
                _ => self.slot == SlotState::<T>::empty().publish(self.message),
            },
        }
        &&& self.sender is Sent && self.slot.ready ==> self.receiver is Looking || (
        self.receiver is Parking && self.token)
    }
}

/// A rendezvous is sound at the start and stays so under every schedule.
pub proof fn lemma_rendezvous_is_sound<T>(message: T, schedule: Seq<Side>)
    ensures
        Rendezvous::start(message).run(schedule).sound(),
        Rendezvous::start(message).run(schedule).message == message,
    decreases schedule.len(),
{
    if schedule.len() > 0 {
        lemma_rendezvous_is_sound(message, schedule.drop_last());
    }
}

/// Handoff to a receiver that sleeps: however the steps of the two sides
/// interleave, and however often the receiver wakes for no reason, a
/// receiver that is about to move the message out finds the sender's message
/// in the storage, fully written, and the message that a receiver goes away
/// with is the sender's message.
pub proof fn lemma_received_is_sent<T>(message: T, schedule: Seq<Side>)
    ensures
        Rendezvous::start(message).run(schedule).receiver is Withdrawn ==> Rendezvous::start(
            message,
        ).run(schedule).slot.message == Some(message),
        Rendezvous::start(message).run(schedule).receiver is Received ==> Rendezvous::start(
            message,
        ).run(schedule).receiver == SleeperStage::Received(message),
{
    lemma_rendezvous_is_sound(message, schedule);
}

/// No wake-up is missed: however early the receiver came and wherever it
/// stood when the message was published, once the sender is spent the
/// receiver does not sleep on the message, and its next three steps at most
/// get it the sender's message.
pub proof fn lemma_no_missed_wake_up<T>(message: T, schedule: Seq<Side>)
    requires
        Rendezvous::start(message).run(schedule).sender is Sent,
    ensures
        !(Rendezvous::start(message).run(schedule).receiver is Asleep),
        Rendezvous::start(message).run(schedule).step(Side::Receiver).step(Side::Receiver).step(
            Side::Receiver,
        ).receiver == SleeperStage::Received(message),
{
    lemma_rendezvous_is_sound(message, schedule);
}

/// Before the message is published the receiver gets nothing and changes
/// nothing in the slot, whatever it does: look, go to sleep, or wake for no
/// reason.
pub proof fn lemma_early_receiver_waits<T>(message: T, schedule: Seq<Side>)
    requires
        !Rendezvous::start(message).run(schedule).slot.ready,
        Rendezvous::start(message).run(schedule).receiver_waits(),
    ensures
        Rendezvous::start(message).run(schedule).step(Side::Receiver).receiver_waits(),
        Rendezvous::start(message).run(schedule).step(Side::Receiver).slot == Rendezvous::start(
            message,
        ).run(schedule).slot,
{
    lemma_rendezvous_is_sound(message, schedule);
}

} // verus!
