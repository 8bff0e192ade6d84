//! A one-shot channel in two handles over a slot that the caller owns. The
//! handles borrow the slot, so it outlives both. Each handle is spent by its
//! one operation. The receiving handle carries the borrow, and the sender
//! writes through it.

use crate::channels::Fault;
use crate::channels::SlotState;
use std::marker::PhantomData;
use vstd::prelude::*;

verus! {

/// The slot through which the one message passes.
pub struct Channel<T> {
    message: Option<T>,
    ready: bool,
}

/// The capability to send one message into a borrowed slot.
pub struct Sender<'a, T> {
    marker: PhantomData<&'a T>,
}

/// The capability to receive one message, together with the borrow of the
/// slot in which the message arrives.
pub struct Receiver<'a, T> {
    channel: &'a mut Channel<T>,
}

impl<T> View for Channel<T> {
    type V = SlotState<T>;

    closed spec fn view(&self) -> SlotState<T> {
        SlotState { message: self.message, ready: self.ready }
    }
}

impl<'a, T> View for Receiver<'a, T> {
    type V = SlotState<T>;

    /// The state of the borrowed slot, as it is now.
    closed spec fn view(&self) -> SlotState<T> {
        self.channel@
    }
}

impl<T> Channel<T> {
    /// Holds after every single step of an operation: the message is written
    /// before it is published, and moved out after it is withdrawn.
    #[verifier::type_invariant]
    spec fn inv(&self) -> bool {
        self@.wf()
    }

    /// An empty slot.
    pub fn new_channel() -> (channel: Self)
        ensures
            channel@ == SlotState::<T>::empty(),
    {
        Channel { message: None, ready: false }
    }

    /// Empties the caller's slot in place and hands out the two handles of a
    /// fresh channel over it. What the slot held before is dropped.
    pub fn new(channel: &mut Channel<T>) -> (pair: (Sender<'_, T>, Receiver<'_, T>))
        ensures
            pair.1@ == SlotState::<T>::empty(),
            final(channel)@ == final(pair.1.target())@,
    {
        *channel = Self::new_channel();
        (Sender { marker: PhantomData }, Receiver { channel })
    }
}

impl<'a, T> Sender<'a, T> {
    /// Spends the sender: writes `message` into the slot that the receiver
    /// borrows and publishes it. A slot with an unconsumed message is no
    /// input here.
    pub fn send(self, to: &mut Receiver<'a, T>, message: T)
        requires
            !old(to)@.ready,
        ensures
            final(to)@ == old(to)@.publish(message),
            *final(final(to).target()) == *final(old(to).target()),
    {
        to.channel.message = Some(message);
        to.channel.ready = true;
    }
}

impl<'a, T> Receiver<'a, T> {
    /// The slot that the receiver borrows.
    pub closed spec fn target(self) -> &'a mut Channel<T> {
        self.channel
    }

    /// Whether a message is published. With other threads about, the answer
    /// is advice only and no leave to read the message.
    pub fn is_ready(&self) -> (ready: bool)
        ensures
            ready == self@.ready,
    {
        self.channel.ready
    }

    /// Spends the receiver, moves the message out and ends the borrow; the
    /// slot is left empty. A slot without a published message is no input
    /// here: receiving from it is a fault, which [`Receiver::try_receive`]
    /// reports.
    pub fn receive(self) -> (message: T)
        requires
            self@.ready,
        ensures
            Some(message) == self@.message,
            final(self.target())@ == self@.consume(),
    {
        proof {
            use_type_invariant(&*self.channel);
        }
        self.channel.ready = false;
        let mut taken: Option<T> = None;
        core::mem::swap(&mut self.channel.message, &mut taken);
        taken.unwrap()
    }

    /// Spends the receiver and ends the borrow. Moves the message out and
    /// leaves the slot empty, unless no message is published: then the slot
    /// stays as it is and the fault is reported.
    pub fn try_receive(self) -> (received: Result<T, Fault>)
        ensures
            received.is_ok() <==> self@.ready,
            received.is_ok() ==> Some(received.unwrap()) == self@.message,
            received.is_ok() ==> final(self.target())@ == self@.consume(),
            received.is_err() ==> received == Err::<T, Fault>(Fault::PrematureReceive),
            received.is_err() ==> final(self.target())@ == self@,
    {
        if self.channel.ready {
            Ok(self.receive())
        } else {
            Err(Fault::PrematureReceive)
        }
    }
}

} // verus!
