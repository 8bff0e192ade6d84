//! A one-shot channel in two handles. Each handle is spent by its one
//! operation, so neither can send or receive twice. The receiving handle
//! keeps the slot, and the sender writes into it.

use crate::channels::Fault;
use crate::channels::SlotState;
use std::marker::PhantomData;
use vstd::prelude::*;

verus! {

/// The slot through which the one message passes.
pub struct Channel<T> {
    message: Option<T>,
    ready: bool,
}

/// The capability to send one message.
pub struct Sender<T> {
    marker: PhantomData<T>,
}

/// The capability to receive one message, together with the slot in which
/// the message arrives.
pub struct Receiver<T> {
    channel: Channel<T>,
}

impl<T> View for Channel<T> {
    type V = SlotState<T>;

    closed spec fn view(&self) -> SlotState<T> {
        SlotState { message: self.message, ready: self.ready }
    }
}

impl<T> View for Receiver<T> {
    type V = SlotState<T>;

    /// The state of the receiver's slot.
    closed spec fn view(&self) -> SlotState<T> {
        self.channel@
    }
}

impl<T> Channel<T> {
    /// Holds after every single step of an operation: the message is written
    /// before it is published, and moved out after it is withdrawn.
    #[verifier::type_invariant]
    spec fn inv(&self) -> bool {
        self@.wf()
    }

    /// An empty slot.
    pub fn new_channel() -> (channel: Self)
        ensures
            channel@ == SlotState::<T>::empty(),
    {
        Channel { message: None, ready: false }
    }

    /// A fresh channel, as its two handles.
    pub fn new() -> (pair: (Sender<T>, Receiver<T>))
        ensures
            pair.1@ == SlotState::<T>::empty(),
    {
        (Sender { marker: PhantomData }, Receiver { channel: Self::new_channel() })
    }
}

impl<T> Sender<T> {
    /// Spends the sender: writes `message` into the receiver's slot and
    /// publishes it. A slot with an unconsumed message is no input here.
    pub fn send(self, to: &mut Receiver<T>, message: T)
        requires
            !old(to)@.ready,
        ensures
            final(to)@ == old(to)@.publish(message),
    {
        to.channel.message = Some(message);
        to.channel.ready = true;
    }
}

impl<T> Receiver<T> {
    /// Whether a message is published. With other threads about, the answer
    /// is advice only and no leave to read the message.
    pub fn is_ready(&self) -> (ready: bool)
        ensures
            ready == self@.ready,
    {
        self.channel.ready
    }

    /// Spends the receiver and moves the message out. A slot without a
    /// published message is no input here: receiving from it is a fault,
    /// which [`Receiver::try_receive`] reports.
    pub fn receive(self) -> (message: T)
        requires
            self@.ready,
        ensures
            Some(message) == self@.message,
    {
        proof {
            use_type_invariant(&self.channel);
        }
        let mut channel = self.channel;
        channel.ready = false;
        let mut taken: Option<T> = None;
        core::mem::swap(&mut channel.message, &mut taken);
        taken.unwrap()
    }

    /// Spends the receiver and moves the message out, unless none is
    /// published: then the fault is reported.
    pub fn try_receive(self) -> (received: Result<T, Fault>)
        ensures
            received.is_ok() <==> self@.ready,
            received.is_ok() ==> Some(received.unwrap()) == self@.message,
            received.is_err() ==> received == Err::<T, Fault>(Fault::PrematureReceive),
    {
        if self.is_ready() {
            Ok(self.receive())
        } else {
            Err(Fault::PrematureReceive)
        }
    }
}

} // verus!
