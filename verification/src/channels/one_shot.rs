//! A one-shot channel in one piece: a slot for a single message and two
//! flags. `in_use` keeps a second message out while one is under way; `set`
//! publishes the message to the receiving side. Once drained, the channel
//! takes the next message.

use crate::channels::Fault;
use vstd::prelude::*;

verus! {

/// The channel as contracts see it: what its storage holds, and its two
/// flags.
pub struct OneShotState<T> {
    pub message: Option<T>,
    pub set: bool,
    pub in_use: bool,
}

impl<T> OneShotState<T> {
    /// A channel that holds nothing and is free to take a message.
    pub open spec fn idle() -> Self {
        OneShotState { message: None, set: false, in_use: false }
    }

    /// A published message is a written one in an occupied channel, and a
    /// free channel holds nothing.
    pub open spec fn wf(self) -> bool {
        &&& self.set ==> self.in_use && self.message.is_some()
        &&& !self.in_use ==> self.message.is_none()
    }

    /// The first step of a sender: `in_use` is set. The sender goes on only
    /// if it was clear.
    pub open spec fn claim(self) -> Self {
        OneShotState { message: self.message, set: self.set, in_use: true }
    }

    /// The second step of a sender: the message is written into the storage.
    pub open spec fn write(self, message: T) -> Self {
        OneShotState { message: Some(message), set: self.set, in_use: self.in_use }
    }

    /// The last step of a sender: `set` is raised.
    pub open spec fn publish(self) -> Self {
        OneShotState { message: self.message, set: true, in_use: self.in_use }
    }

    /// The first step of a receiver: `set` is cleared. The receiver goes on
    /// only if it was raised.
    pub open spec fn withdraw(self) -> Self {
        OneShotState { message: self.message, set: false, in_use: self.in_use }
    }

    /// The second step of a receiver: the message is moved out of the
    /// storage.
    pub open spec fn take(self) -> Self {
        OneShotState { message: None, set: self.set, in_use: self.in_use }
    }

    /// The last step of a receiver: `in_use` is cleared.
    pub open spec fn free(self) -> Self {
        OneShotState { message: self.message, set: self.set, in_use: false }
    }

    /// The channel after `message` went in: claimed, written, published.
    pub open spec fn send(self, message: T) -> Self {
        self.claim().write(message).publish()
    }

    /// The channel after its message went out: withdrawn, taken, freed.
    pub open spec fn receive(self) -> Self {
        self.withdraw().take().free()
    }

    /// What the storage holds.
    pub open spec fn stored(self) -> Seq<T> {
        match self.message {
            Some(message) => seq![message],
            None => Seq::empty(),
        }
    }

    /// The channel after one call made with the fault reported: a call that
    /// faults changes nothing.
    pub open spec fn after(self, call: OneShotCall<T>) -> Self {
        match call {
            OneShotCall::Enqueue(message) => if self.in_use {
                self
            } else {
                self.send(message)
            },
            OneShotCall::Dequeue => if self.set {
                self.receive()
            } else {
                self
            },
        }
    }

    /// The message that one call gets into the channel.
    pub open spec fn accepts(self, call: OneShotCall<T>) -> Option<T> {
        match call {
            OneShotCall::Enqueue(message) => if self.in_use {
                None
            } else {
                Some(message)
            },
            OneShotCall::Dequeue => None,
        }
    }

    /// The message that one call gets out of the channel.
    pub open spec fn yields(self, call: OneShotCall<T>) -> Option<T> {
        match call {
            OneShotCall::Enqueue(message) => None,
            OneShotCall::Dequeue => if self.set {
                self.message
            } else {
                None
            },
        }
    }

    /// The channel after a history of calls.
    pub open spec fn history_state(self, calls: Seq<OneShotCall<T>>) -> Self
        decreases calls.len(),
    {
        if calls.len() == 0 {
            self
        } else {
            self.after(calls.first()).history_state(calls.drop_first())
        }
    }

    /// The messages that a history of calls gets into the channel, in order.
    pub open spec fn history_accepted(self, calls: Seq<OneShotCall<T>>) -> Seq<T>
        decreases calls.len(),
    {
        if calls.len() == 0 {
            Seq::empty()
        } else {
            let rest = self.after(calls.first()).history_accepted(calls.drop_first());
            match self.accepts(calls.first()) {
                Some(message) => seq![message] + rest,
                None => rest,
            }
        }
    }

    /// The messages that a history of calls gets out of the channel, in
    /// order.
    pub open spec fn history_received(self, calls: Seq<OneShotCall<T>>) -> Seq<T>
        decreases calls.len(),
    {
        if calls.len() == 0 {
            Seq::empty()
        } else {
            let rest = self.after(calls.first()).history_received(calls.drop_first());
            match self.yields(calls.first()) {
                Some(message) => seq![message] + rest,
                None => rest,
            }
        }
    }
}

/// One call on a channel, by whichever side makes it: a message to send, or
/// one attempt to receive.
pub enum OneShotCall<T> {
    Enqueue(T),
    Dequeue,
}

/// A channel for one message at a time.
pub struct OneShotChannel<T> {
    value: Option<T>,
    set: bool,
    in_use: bool,
}

impl<T> View for OneShotChannel<T> {
    type V = OneShotState<T>;

    closed spec fn view(&self) -> OneShotState<T> {
        OneShotState { message: self.value, set: self.set, in_use: self.in_use }
    }
}

impl<T> OneShotChannel<T> {
    /// Holds after every single step of an operation, not only between
    /// operations: the message is written before `set` is raised and moved
    /// out after `set` is cleared.
    #[verifier::type_invariant]
    spec fn inv(&self) -> bool {
        self@.wf()
    }

    /// An idle channel.
    pub fn new() -> (channel: Self)
        ensures
            channel@ == OneShotState::<T>::idle(),
    {
        OneShotChannel { value: None, set: false, in_use: false }
    }

    /// Sends `message`: claims the channel, writes the message, publishes
    /// it. A channel that is in use is no input here: sending into it is a
    /// fault, which [`OneShotChannel::try_enqueue`] reports.
    pub fn enqueue(&mut self, message: T)
        requires
            !old(self)@.in_use,
        ensures
            final(self)@ == old(self)@.send(message),
    {
        proof {
            use_type_invariant(&*self);
        }
        self.in_use = true;
        self.value = Some(message);
        self.set = true;
    }

    /// Sends `message` unless the channel is in use. Then the channel stays
    /// as it is and the fault is reported.
    pub fn try_enqueue(&mut self, message: T) -> (sent: Result<(), Fault>)
        ensures
            sent.is_ok() <==> !old(self)@.in_use,
            sent.is_err() ==> sent == Err::<(), Fault>(Fault::DoubleSend),
            final(self)@ == old(self)@.after(OneShotCall::Enqueue(message)),
    {
        if self.in_use {
            Err(Fault::DoubleSend)
        } else {
            self.enqueue(message);
            Ok(())
        }
    }

    /// Whether a message is published. With other threads about, the answer
    /// is advice only and no leave to read the message.
    pub fn is_ready(&self) -> (ready: bool)
        ensures
            ready == self@.set,
    {
        self.set
    }

    /// Receives the message: withdraws it from publication, moves it out,
    /// and frees the channel for the next one. A channel without a published
    /// message is no input here: receiving from it is a fault, which
    /// [`OneShotChannel::try_dequeue`] reports.
    pub fn dequeue(&mut self) -> (message: T)
        requires
            old(self)@.set,
        ensures
            Some(message) == old(self)@.message,
            final(self)@ == old(self)@.receive(),
    {
        proof {
            use_type_invariant(&*self);
        }
        self.set = false;
        let mut taken: Option<T> = None;
        core::mem::swap(&mut self.value, &mut taken);
        self.in_use = false;
        taken.unwrap()
    }

    /// Receives the message unless none is published. Then the channel stays
    /// as it is and the fault is reported.
    pub fn try_dequeue(&mut self) -> (received: Result<T, Fault>)
        ensures
            match received {
                Ok(message) => old(self)@.yields(OneShotCall::Dequeue) == Some(message),
                Err(fault) => !old(self)@.set && fault == Fault::PrematureReceive,
            },
            final(self)@ == old(self)@.after(OneShotCall::Dequeue),
    {
        if self.set {
            Ok(self.dequeue())
        } else {
            Err(Fault::PrematureReceive)
        }
    }
}

/// Where a sending party stands. Each stage ends with one step on the
/// channel that no other party can cut in two.
pub enum SendStage<T> {
    /// Has come with a message and has yet to claim the channel.
    Arrived(T),
    /// Has set `in_use` and found it clear, and has yet to write the message.
    Claimed(T),
    /// Has written the message and has yet to raise `set`.
    Written,
    /// Has raised `set`.
    Sent,
    /// Has found `in_use` set: a double send.
    Refused,
}

/// Where a receiving party stands. Each stage ends with one step on the
/// channel that no other party can cut in two.
pub enum ReceiveStage<T> {
    /// Has come and has yet to withdraw the message from publication.
    Arrived,
    /// Has cleared `set` and found it raised, and has yet to move the message out.
    Withdrawn,
    /// Has moved this message out and has yet to clear `in_use`.
    Taken(T),
    /// Has cleared `in_use` and goes away with this message.
    Received(T),
    /// Has found `set` clear: a premature receive.
    Refused,
}

/// A party to a channel.
pub enum Party<T> {
    Sender(SendStage<T>),
    Receiver(ReceiveStage<T>),
}

impl<T> Party<T> {
    /// Whether the party is between its first step on the channel and its
    /// last, so that the storage of the channel is its to touch.
    pub open spec fn busy(self) -> bool {
        match self {
            Party::Sender(stage) => stage is Claimed || stage is Written,
            Party::Receiver(stage) => stage is Withdrawn || stage is Taken,
        }
    }
}

/// Any number of senders and receivers on one channel, with a record of the
/// messages written into the storage and of those moved out of it.
pub struct Exchange<T> {
    pub channel: OneShotState<T>,
    pub parties: Seq<Party<T>>,
    pub written: Seq<T>,
    pub taken: Seq<T>,
}

impl<T> Exchange<T> {
    /// An idle channel with parties that have all just come.
    pub open spec fn start(parties: Seq<Party<T>>) -> Self {
        Exchange {
            channel: OneShotState::idle(),
            parties,
            written: Seq::empty(),
            taken: Seq::empty(),
        }
    }

    /// Whether every party has just come.
    pub open spec fn all_arrived(parties: Seq<Party<T>>) -> bool {
        forall|i: int|
            0 <= i < parties.len() ==> match #[trigger] parties[i] {
                Party::Sender(stage) => stage is Arrived,
                Party::Receiver(stage) => stage is Arrived,
            }
    }

    /// The exchange with party `who` in a new stage.
    pub open spec fn moved(self, who: int, party: Party<T>, channel: OneShotState<T>) -> Self {
        Exchange {
            channel,
            parties: self.parties.update(who, party),
            written: self.written,
            taken: self.taken,
        }
    }

    /// One step of party `who`. A sender sets `in_use` and goes on only if it
    /// was clear, writes its message, raises `set`. A receiver clears `set`
    /// and goes on only if it was raised, moves the message out, clears
    /// `in_use`. The storage is written and read without a look at what it
    /// holds.
    pub open spec fn step(self, who: int) -> Self {
        if 0 <= who < self.parties.len() {
            let c = self.channel;
            match self.parties[who] {
                Party::Sender(SendStage::Arrived(message)) => if c.in_use {
                    self.moved(who, Party::Sender(SendStage::Refused), c)
                } else {
                    self.moved(who, Party::Sender(SendStage::Claimed(message)), c.claim())
                },
                Party::Sender(SendStage::Claimed(message)) => Exchange {
                    channel: c.write(message),
                    parties: self.parties.update(who, Party::Sender(SendStage::Written)),
                    written: self.written.push(message),
                    taken: self.taken,
                },
                Party::Sender(SendStage::Written) => self.moved(
                    who,
                    Party::Sender(SendStage::Sent),
                    c.publish(),
                ),
                Party::Receiver(ReceiveStage::Arrived) => if c.set {
                    self.moved(who, Party::Receiver(ReceiveStage::Withdrawn), c.withdraw())
                } else {
                    self.moved(who, Party::Receiver(ReceiveStage::Refused), c)
                },
                Party::Receiver(ReceiveStage::Withdrawn) => match c.message {
                    Some(message) => Exchange {
                        channel: c.take(),
                        parties: self.parties.update(
                            who,
                            Party::Receiver(ReceiveStage::Taken(message)),
                        ),
                        written: self.written,
                        taken: self.taken.push(message),
                    },
                    None => self,
                },
                Party::Receiver(ReceiveStage::Taken(message)) => self.moved(
                    who,
                    Party::Receiver(ReceiveStage::Received(message)),
                    c.free(),
                ),
                _ => self,
            }
        } else {
            self
        }
    }

    /// The exchange after the parties have taken their steps in the order
    /// that `schedule` gives, whatever that order is.
    pub open spec fn run(self, schedule: Seq<int>) -> Self
        decreases schedule.len(),
    {
        if schedule.len() == 0 {
            self
        } else {
            self.run(schedule.drop_last()).step(schedule.last())
        }
    }

    /// What holds of an exchange at every moment. The storage belongs to one
    /// party at a time: no two are busy together, and none is while a message
    /// is published. `in_use` is set exactly while a party is busy or a
    /// message is published. The storage is empty when a sender has yet to
    /// write and when a receiver has moved the message out, and full when a
    /// sender has written, while a message is published and when a receiver
    /// has yet to move it out. What was written is what was taken, then what
    /// the storage holds.
    pub open spec fn sound(self) -> bool {
        &&& self.channel.wf()
        &&& forall|i: int, j: int|
            0 <= i < self.parties.len() && 0 <= j < self.parties.len() && (
            #[trigger] self.parties[i]).busy() && (#[trigger] self.parties[j]).busy() ==> i == j
        &&& self.channel.in_use <==> self.channel.set || exists|i: int|
            0 <= i < self.parties.len() && (#[trigger] self.parties[i]).busy()
        &&& forall|i: int|
            0 <= i < self.parties.len() && (#[trigger] self.parties[i]).busy()
                ==> !self.channel.set && (self.channel.message.is_none() <==> (
            self.parties[i] matches Party::Sender(SendStage::Claimed(_))
                || self.parties[i] matches Party::Receiver(ReceiveStage::Taken(_))))
        &&& self.written == self.taken + self.channel.stored()
    }
}

proof fn lemma_step_keeps_sound<T>(state: Exchange<T>, who: int)
    requires
        state.sound(),
    ensures
        state.step(who).sound(),
{
    let next = state.step(who);
    if 0 <= who < state.parties.len() {
        let c = state.channel;
        match state.parties[who] {
            Party::Sender(SendStage::Arrived(message)) => {
                if !c.in_use {
                    assert(next.parties[who].busy());
                    assert forall|i: int|
                        0 <= i < next.parties.len() && i != who implies !(
                    #[trigger] next.parties[i]).busy() by {
                        assert(next.parties[i] == state.parties[i]);
                    }
                } else {
                    assert forall|i: int| 0 <= i < next.parties.len() implies (
                    #[trigger] next.parties[i]).busy() == state.parties[i].busy() by {}
                    if exists|i: int| 0 <= i < state.parties.len() && (#[trigger] state.parties[i]).busy() {
                        let k = choose|i: int| 0 <= i < state.parties.len() && (#[trigger] state.parties[i]).busy();
                        assert(next.parties[k].busy());
                    }
                }
            },
            Party::Sender(SendStage::Claimed(message)) => {
                assert(state.parties[who].busy());
                assert(next.parties[who].busy());
                assert forall|i: int|
                    0 <= i < next.parties.len() && i != who implies !(
                #[trigger] next.parties[i]).busy() by {
                    assert(next.parties[i] == state.parties[i]);
                }
                assert(state.channel.stored() =~= Seq::<T>::empty());
                assert(next.channel.stored() =~= seq![message]);
                assert(next.written =~= next.taken + next.channel.stored());
            },
            Party::Sender(SendStage::Written) => {
                assert(state.parties[who].busy());
                assert forall|i: int| 0 <= i < next.parties.len() implies !(
                #[trigger] next.parties[i]).busy() by {
                    if i != who {
                        assert(next.parties[i] == state.parties[i]);
                    }
                }
            },
            Party::Receiver(ReceiveStage::Arrived) => {
                if c.set {
                    assert(next.parties[who].busy());
                    assert forall|i: int|
                        0 <= i < next.parties.len() && i != who implies !(
                    #[trigger] next.parties[i]).busy() by {
                        assert(next.parties[i] == state.parties[i]);
                    }
                } else {
                    assert forall|i: int| 0 <= i < next.parties.len() implies (
                    #[trigger] next.parties[i]).busy() == state.parties[i].busy() by {}
                    if exists|i: int| 0 <= i < state.parties.len() && (#[trigger] state.parties[i]).busy() {
                        let k = choose|i: int| 0 <= i < state.parties.len() && (#[trigger] state.parties[i]).busy();
                        assert(next.parties[k].busy());
                    }
                }
            },
            Party::Receiver(ReceiveStage::Withdrawn) => {
                assert(state.parties[who].busy());
                let message = c.message.unwrap();
                assert(next.parties[who].busy());
                assert forall|i: int|
                    0 <= i < next.parties.len() && i != who implies !(
                #[trigger] next.parties[i]).busy() by {
                    assert(next.parties[i] == state.parties[i]);
                }
                assert(state.channel.stored() =~= seq![message]);
                assert(next.channel.stored() =~= Seq::<T>::empty());
                assert(next.written =~= next.taken + next.channel.stored());
            },
            Party::Receiver(ReceiveStage::Taken(message)) => {
                assert(state.parties[who].busy());
                assert forall|i: int| 0 <= i < next.parties.len() implies !(
                #[trigger] next.parties[i]).busy() by {
                    if i != who {
                        assert(next.parties[i] == state.parties[i]);
                    }
                }
            },
            _ => {},
        }
    }
}

/// An exchange is sound at the start and stays so under every schedule.
pub proof fn lemma_exchange_is_sound<T>(parties: Seq<Party<T>>, schedule: Seq<int>)
    requires
        Exchange::all_arrived(parties),
    ensures
        Exchange::start(parties).run(schedule).sound(),
    decreases schedule.len(),
{
    let start = Exchange::start(parties);
    if schedule.len() == 0 {
        assert(start.written =~= start.taken + start.channel.stored());
    } else {
        lemma_exchange_is_sound(parties, schedule.drop_last());
        lemma_step_keeps_sound(start.run(schedule.drop_last()), schedule.last());
    }
}

/// Read after write, and no write over an unread message: however the steps
/// of the parties interleave, a receiver that is about to move the message
/// out finds one in the storage, and a sender that is about to write finds
/// the storage empty.
pub proof fn lemma_storage_is_safe<T>(parties: Seq<Party<T>>, schedule: Seq<int>, who: int)
    requires
        Exchange::all_arrived(parties),
        0 <= who < parties.len(),
    ensures
        Exchange::start(parties).run(schedule).parties.len() == parties.len(),
        Exchange::start(parties).run(schedule).parties[who] matches Party::Receiver(
            ReceiveStage::Withdrawn,
        ) ==> Exchange::start(parties).run(schedule).channel.message.is_some(),
        Exchange::start(parties).run(schedule).parties[who] matches Party::Sender(
            SendStage::Claimed(_),
        ) ==> Exchange::start(parties).run(schedule).channel.message.is_none(),
{
    lemma_exchange_is_sound(parties, schedule);
    lemma_parties_stay(parties, schedule);
    let end = Exchange::start(parties).run(schedule);
    assert(end.parties[who] matches Party::Receiver(ReceiveStage::Withdrawn)
        ==> end.parties[who].busy());
    assert(end.parties[who] matches Party::Sender(SendStage::Claimed(_))
        ==> end.parties[who].busy());
}

proof fn lemma_parties_stay<T>(parties: Seq<Party<T>>, schedule: Seq<int>)
    ensures
        Exchange::start(parties).run(schedule).parties.len() == parties.len(),
    decreases schedule.len(),
{
    if schedule.len() > 0 {
        lemma_parties_stay(parties, schedule.drop_last());
    }
}

/// Exactly once among contending parties: however the steps of the parties
/// interleave, the messages moved out of the storage are the messages
/// written into it, each once and in the order of the writing, but for the
/// one that the storage still holds.
pub proof fn lemma_taken_is_written<T>(parties: Seq<Party<T>>, schedule: Seq<int>)
    requires
        Exchange::all_arrived(parties),
    ensures
        Exchange::start(parties).run(schedule).written == Exchange::start(parties).run(
            schedule,
        ).taken + Exchange::start(parties).run(schedule).channel.stored(),
        Exchange::start(parties).run(schedule).channel.stored().len() <= 1,
{
    lemma_exchange_is_sound(parties, schedule);
}

/// Exactly once: whatever the history of calls, the messages received,
/// followed by the one that the storage still holds if it holds one, are the
/// message that the storage held at the start, if it held one, followed by
/// the messages that got in since, each once and in that order. So no message is
/// overwritten, none is received twice, and each is received as it was sent.
pub proof fn lemma_exactly_once<T>(start: OneShotState<T>, calls: Seq<OneShotCall<T>>)
    requires
        start.wf(),
    ensures
        start.history_state(calls).wf(),
        start.history_received(calls) + start.history_state(calls).stored() == start.stored()
            + start.history_accepted(calls),
    decreases calls.len(),
{
    if calls.len() == 0 {
        assert(Seq::<T>::empty() + start.stored() =~= start.stored() + Seq::<T>::empty());
    } else {
        let next = start.after(calls.first());
        let rest = calls.drop_first();
        lemma_exactly_once(next, rest);
        let got = next.history_received(rest);
        let end = next.history_state(rest).stored();
        let put = next.history_accepted(rest);
        match calls.first() {
            OneShotCall::Enqueue(message) => {
                if !start.in_use {
                    assert(got + end =~= start.stored() + (seq![message] + put));
                }
            },
            OneShotCall::Dequeue => {
                if start.set {
                    let message = start.message.unwrap();
                    assert((seq![message] + got) + end =~= seq![message] + (got + end));
                    assert(seq![message] + (next.stored() + put) =~= start.stored() + put);
                }
            },
        }
    }
}

/// A second message is refused while the first is under way, and nothing can
/// be received before something was sent.
pub proof fn lemma_faults<T>(state: OneShotState<T>, first: T, second: T)
    ensures
        state.send(first).accepts(OneShotCall::Enqueue(second)) == None::<T>,
        state.send(first).after(OneShotCall::Enqueue(second)) == state.send(first),
        OneShotState::<T>::idle().yields(OneShotCall::Dequeue) == None::<T>,
        OneShotState::<T>::idle().after(OneShotCall::Dequeue) == OneShotState::<T>::idle(),
{
}

/// A message goes through unchanged, and a drained channel is as good as
/// new: what was sent into a free channel is what comes out, and the channel
/// is then idle and takes the next message.
pub proof fn lemma_round_trip<T>(state: OneShotState<T>, message: T, next: T)
    requires
        state.wf(),
        !state.in_use,
    ensures
        state.send(message).yields(OneShotCall::Dequeue) == Some(message),
        state.send(message).receive() == OneShotState::<T>::idle(),
        state.send(message).receive().accepts(OneShotCall::Enqueue(next)) == Some(next),
{
}

} // verus!
