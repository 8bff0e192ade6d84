//! The queue behind a native mutex and condition, and the one-shot handoff
//! channels.

use vstd::prelude::*;

pub mod mutex_channel;
pub mod one_shot;
pub mod one_shot_blocking;
pub mod one_shot_borrow;
pub mod one_shot_typed;

verus! {

/// The slot of a two-handle channel as contracts see it: the message in its
/// storage, and the readiness flag that publishes it.
pub struct SlotState<T> {
    pub message: Option<T>,
    pub ready: bool,
}

impl<T> SlotState<T> {
    /// A slot that holds nothing.
    pub open spec fn empty() -> Self {
        SlotState { message: None, ready: false }
    }

    /// A published message is a written one.
    pub open spec fn wf(self) -> bool {
        self.ready ==> self.message.is_some()
    }

    /// The first step of the sender: the message is written into the storage.
    pub open spec fn write(self, message: T) -> Self {
        SlotState { message: Some(message), ready: self.ready }
    }

    /// The last step of the sender: the flag is raised.
    pub open spec fn raise(self) -> Self {
        SlotState { message: self.message, ready: true }
    }

    /// The first step of the receiver: the flag is cleared. The receiver goes
    /// on only if it was raised.
    pub open spec fn lower(self) -> Self {
        SlotState { message: self.message, ready: false }
    }

    /// The last step of the receiver: the message is moved out of the
    /// storage.
    pub open spec fn take(self) -> Self {
        SlotState { message: None, ready: self.ready }
    }

    /// The slot after `message` went in: written, then published.
    pub open spec fn publish(self, message: T) -> Self {
        self.write(message).raise()
    }

    /// The slot after its message went out: withdrawn, then taken.
    pub open spec fn consume(self) -> Self {
        self.lower().take()
    }
}

/// The ways in which a one-shot channel can be misused. None of them can be
/// recovered from: the protocol was broken.
#[derive(Clone, Copy, Debug, PartialEq, Eq, Structural)]
pub enum Fault {
    /// A message was sent into a slot that still holds an unconsumed one.
    DoubleSend,
    /// A message was asked for before one was published.
    PrematureReceive,
}

/// Handoff in one piece: whatever a slot held, the message that is sent into
/// it is the message that a receiver finds there, whole and ready, and taking
/// it leaves the slot empty.
pub proof fn lemma_handoff<T>(slot: SlotState<T>, message: T)
    ensures
        slot.publish(message).wf(),
        slot.publish(message).ready,
        slot.publish(message).message == Some(message),
        slot.publish(message).consume() == SlotState::<T>::empty(),
{
}

/// The two sides of a two-handle channel.
pub enum Side {
    Sender,
    Receiver,
}

/// Where the sender stands. Each stage ends with one step on the slot that
/// the receiver cannot cut in two.
pub enum SenderStage {
    /// Has yet to write the message.
    Arrived,
    /// Has written the message and has yet to raise the flag.
    Written,
    /// Has raised the flag and is spent.
    Sent,
}

/// Where a receiver that does not wait stands. Each stage ends with one step
/// on the slot that the sender cannot cut in two.
pub enum ReceiverStage<T> {
    /// Has yet to look at the flag.
    Arrived,
    /// Has cleared the flag and found it raised, and has yet to move the
    /// message out.
    Withdrawn,
    /// Has moved this message out and is spent.
    Received(T),
    /// Has found the flag clear: a premature receive.
    Refused,
}

/// A sender that brings `message` and a receiver that does not wait, on
/// their slot.
pub struct Handoff<T> {
    pub slot: SlotState<T>,
    pub message: T,
    pub sender: SenderStage,
    pub receiver: ReceiverStage<T>,
}

impl<T> Handoff<T> {
    /// An empty slot, a sender that brings `message`, and a receiver.
    pub open spec fn start(message: T) -> Self {
        Handoff {
            slot: SlotState::empty(),
            message,
            sender: SenderStage::Arrived,
            receiver: ReceiverStage::Arrived,
        }
    }

    /// The handoff with its sender in a new stage.
    pub open spec fn sender_moved(self, sender: SenderStage, slot: SlotState<T>) -> Self {
        Handoff { slot, message: self.message, sender, receiver: self.receiver }
    }

    /// The handoff with its receiver in a new stage.
    pub open spec fn receiver_moved(self, receiver: ReceiverStage<T>, slot: SlotState<T>) -> Self {
        Handoff { slot, message: self.message, sender: self.sender, receiver }
    }

    /// One step of one side. The sender writes its message, then raises the
    /// flag. The receiver clears the flag, is refused if it was clear, and
    /// else moves out what the storage holds, without a look at what that
    /// is.
    pub open spec fn step(self, side: Side) -> Self {
        match side {
            Side::Sender => match self.sender {
                SenderStage::Arrived => self.sender_moved(
                    SenderStage::Written,
                    self.slot.write(self.message),
                ),
                SenderStage::Written => self.sender_moved(SenderStage::Sent, self.slot.raise()),
                SenderStage::Sent => self,
            },
            Side::Receiver => match self.receiver {
                ReceiverStage::Arrived => if self.slot.ready {
                    self.receiver_moved(ReceiverStage::Withdrawn, self.slot.lower())
                } else {
                    self.receiver_moved(ReceiverStage::Refused, self.slot)
                },
                ReceiverStage::Withdrawn => match self.slot.message {
                    Some(message) => self.receiver_moved(
                        ReceiverStage::Received(message),
                        self.slot.take(),
                    ),
                    None => self,
                },
                _ => self,
            },
        }
    }

    /// The handoff after the two sides have taken their steps in the order
    /// that `schedule` gives, whatever that order is.
    pub open spec fn run(self, schedule: Seq<Side>) -> Self
        decreases schedule.len(),
    {
        if schedule.len() == 0 {
            self
        } else {
            self.run(schedule.drop_last()).step(schedule.last())
        }
    }

    /// What holds of a handoff at every moment. Until the sender has raised
    /// the flag the receiver has not got past it. Once the flag is raised,
    /// the message sits in the storage until the receiver, having cleared
    /// the flag, moves it out, and what the receiver then has is the
    /// sender's message.
    pub open spec fn sound(self) -> bool {
        match self.sender {
            SenderStage::Arrived => {
                &&& self.slot == SlotState::<T>::empty()
                &&& self.receiver is Arrived || self.receiver is Refused
            },
            SenderStage::Written => {
                &&& self.slot == SlotState::<T>::empty().write(self.message)
                &&& self.receiver is Arrived || self.receiver is Refused
            },
            SenderStage::Sent => match self.receiver {
                ReceiverStage::Withdrawn => self.slot == SlotState::<T>::empty().write(
                    self.message,
                ),
                ReceiverStage::Received(message) => {
                    &&& self.slot == SlotState::<T>::empty()
                    &&& message == self.message
                },
                _ => self.slot == SlotState::<T>::empty().publish(self.message),
            },
        }
    }
}

/// A handoff is sound at the start and stays so under every schedule.
pub proof fn lemma_handoff_is_sound<T>(message: T, schedule: Seq<Side>)
    ensures
        Handoff::start(message).run(schedule).sound(),
        Handoff::start(message).run(schedule).message == message,
    decreases schedule.len(),
{
    if schedule.len() > 0 {
        lemma_handoff_is_sound(message, schedule.drop_last());
    }
}

/// Handoff between two threads: however the steps of the two sides
/// interleave, a receiver that is about to move the message out finds the
/// sender's message in the storage, fully written, and the message that a
/// receiver goes away with is the sender's message.
pub proof fn lemma_received_is_sent<T>(message: T, schedule: Seq<Side>)
    ensures
        Handoff::start(message).run(schedule).receiver is Withdrawn ==> Handoff::start(
            message,
        ).run(schedule).slot.message == Some(message),
        Handoff::start(message).run(schedule).receiver is Received ==> Handoff::start(
            message,
        ).run(schedule).receiver == ReceiverStage::Received(message),
{
    lemma_handoff_is_sound(message, schedule);
}

/// A receiver that comes too early is refused, and one that comes in time is
/// served: whatever happened before, a receiver that has yet to look at the
/// flag is refused by its next step as long as the sender has not raised the
/// flag, and has the sender's message after its next two steps once the
/// sender has.
pub proof fn lemma_receiver_in_time<T>(message: T, schedule: Seq<Side>)
    requires
        Handoff::start(message).run(schedule).receiver is Arrived,
    ensures
        ({
            let now = Handoff::start(message).run(schedule);
            if now.sender is Sent {
                now.step(Side::Receiver).step(Side::Receiver).receiver == ReceiverStage::Received(
                    message,
                )
            } else {
                now.step(Side::Receiver).receiver is Refused
            }
        }),
{
    lemma_handoff_is_sound(message, schedule);
}

} // verus!
