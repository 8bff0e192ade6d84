//! A busy-wait lock that guards a payload and hands out scoped exclusive
//! access to it.

use vstd::prelude::*;

verus! {

/// A lock as contracts see it: whether it is held, and what it guards.
pub struct LockState<T> {
    pub held: bool,
    pub payload: T,
}

impl<T> LockState<T> {
    /// A lock that nobody holds.
    pub open spec fn free(payload: T) -> Self {
        LockState { held: false, payload }
    }

    /// The test-and-set of the flag: the lock as it is after an attempt to
    /// take it, whether or not the attempt won.
    pub open spec fn acquire(self) -> Self {
        LockState { held: true, payload: self.payload }
    }

    /// The lock after its holder has given it back.
    pub open spec fn release(self) -> Self {
        LockState { held: false, payload: self.payload }
    }

    /// The lock after its holder has replaced the payload.
    pub open spec fn store(self, payload: T) -> Self {
        LockState { held: self.held, payload }
    }
}

/// A lock around a payload of type `T`.
pub struct SpinLock<T> {
    is_locked: bool,
    data: T,
}

/// Exclusive access to the payload of a held lock. It borrows the lock, so it
/// cannot outlive it, and there is one guard per successful acquisition. The
/// lock stays held until the guard is handed to [`SpinLockGuard::unlock`].
pub struct SpinLockGuard<'a, T> {
    lock: &'a mut SpinLock<T>,
}

impl<T> View for SpinLock<T> {
    type V = LockState<T>;

    closed spec fn view(&self) -> LockState<T> {
        LockState { held: self.is_locked, payload: self.data }
    }
}

impl<'a, T> View for SpinLockGuard<'a, T> {
    type V = LockState<T>;

    /// The state of the lock that the guard holds, as it is now.
    closed spec fn view(&self) -> LockState<T> {
        self.lock@
    }
}

impl<T> SpinLock<T> {
    /// A free lock around `v`.
    pub fn new(v: T) -> (lock: Self)
        ensures
            lock@ == LockState::free(v),
    {
        SpinLock { is_locked: false, data: v }
    }

    /// Takes a free lock. On a held lock an acquisition never comes back, so
    /// a held lock is no input here: a caller that may have to wait repeats
    /// [`SpinLock::try_lock`].
    pub fn lock(&mut self) -> (guard: SpinLockGuard<'_, T>)
        requires
            !old(self)@.held,
        ensures
            guard@ == old(self)@.acquire(),
            final(self)@ == final(guard.target())@,
    {
        self.is_locked = true;
        SpinLockGuard { lock: self }
    }

    /// One acquisition attempt: sets the flag and wins if it was clear. A
    /// failed attempt changes nothing.
    pub fn try_lock(&mut self) -> (attempt: Option<SpinLockGuard<'_, T>>)
        ensures
            attempt.is_some() <==> !old(self)@.held,
            attempt.is_none() ==> final(self)@ == old(self)@,
            attempt.is_some() ==> attempt.unwrap()@ == old(self)@.acquire(),
            attempt.is_some() ==> final(self)@ == final(attempt.unwrap().target())@,
    {
        if self.is_locked {
            None
        } else {
            Some(self.lock())
        }
    }
}

impl<'a, T> SpinLockGuard<'a, T> {
    /// The lock that the guard borrows.
    pub closed spec fn target(self) -> &'a mut SpinLock<T> {
        self.lock
    }

    /// Reads the payload.
    pub fn deref(&self) -> (payload: &T)
        ensures
            *payload == self@.payload,
    {
        &self.lock.data
    }

    /// Hands out the payload for writing. What the caller leaves in it is the
    /// payload from then on.
    pub fn deref_mut(&mut self) -> (payload: &mut T)
        ensures
            *payload == old(self)@.payload,
            final(self)@ == old(self)@.store(*final(payload)),
            *final(final(self).target()) == *final(old(self).target()),
    {
        &mut self.lock.data
    }

    /// Gives the lock back: clears the flag and ends the borrow. The payload
    /// stays as the holder left it.
    pub fn unlock(self)
        ensures
            final(self.target())@ == self@.release(),
    {
        self.lock.is_locked = false;
    }
}

/// Where a worker stands on its way through one critical section, in which
/// it adds its amount to a counter that the lock guards. Each stage ends with
/// one step that no other worker can cut in two.
pub enum Stage {
    /// Outside, trying to take the lock.
    Waiting,
    /// Holds the lock and has yet to read the counter.
    Holding,
    /// Has read the counter and found this value.
    Loaded(int),
    /// Has written the sum back and has yet to give the lock back.
    Stored,
    /// Has given the lock back.
    Done,
}

/// A worker and the amount that it adds.
pub struct Worker {
    pub stage: Stage,
    pub amount: int,
}

impl Worker {
    /// Whether the worker is in its critical section.
    pub open spec fn inside(self) -> bool {
        self.stage is Holding || self.stage is Loaded || self.stage is Stored
    }

    /// What the worker has added to the counter so far.
    pub open spec fn credit(self) -> int {
        if self.stage is Stored || self.stage is Done {
            self.amount
        } else {
            0
        }
    }
}

/// The sum of some amounts.
pub open spec fn total(amounts: Seq<int>) -> int
    decreases amounts.len(),
{
    if amounts.len() == 0 {
        0
    } else {
        total(amounts.drop_last()) + amounts.last()
    }
}

/// What some workers have added to the counter so far.
pub open spec fn credited(workers: Seq<Worker>) -> int
    decreases workers.len(),
{
    if workers.len() == 0 {
        0
    } else {
        credited(workers.drop_last()) + workers.last().credit()
    }
}

/// Any number of workers that contend for one lock around a counter.
pub struct Contention {
    pub lock: LockState<int>,
    pub workers: Seq<Worker>,
}

impl Contention {
    /// A free lock around `counter`, and one waiting worker for each of the
    /// amounts.
    pub open spec fn start(counter: int, amounts: Seq<int>) -> Self {
        Contention {
            lock: LockState::free(counter),
            workers: Seq::new(
                amounts.len(),
                |i: int| Worker { stage: Stage::Waiting, amount: amounts[i] },
            ),
        }
    }

    /// One step of worker `who`: an attempt on the lock, which wins only if
    /// the lock is free; the read of the counter; the write of the sum; or
    /// the release.
    pub open spec fn step(self, who: int) -> Self {
        if 0 <= who < self.workers.len() {
            let worker = self.workers[who];
            match worker.stage {
                Stage::Waiting => if self.lock.held {
                    self
                } else {
                    Contention {
                        lock: self.lock.acquire(),
                        workers: self.workers.update(
                            who,
                            Worker { stage: Stage::Holding, amount: worker.amount },
                        ),
                    }
                },
                Stage::Holding => Contention {
                    lock: self.lock,
                    workers: self.workers.update(
                        who,
                        Worker { stage: Stage::Loaded(self.lock.payload), amount: worker.amount },
                    ),
                },
                Stage::Loaded(seen) => Contention {
                    lock: self.lock.store(seen + worker.amount),
                    workers: self.workers.update(
                        who,
                        Worker { stage: Stage::Stored, amount: worker.amount },
                    ),
                },
                Stage::Stored => Contention {
                    lock: self.lock.release(),
                    workers: self.workers.update(
                        who,
                        Worker { stage: Stage::Done, amount: worker.amount },
                    ),
                },
                Stage::Done => self,
            }
        } else {
            self
        }
    }

    /// The state after the workers have taken their steps in the order that
    /// `schedule` gives, whatever that order is.
    pub open spec fn run(self, schedule: Seq<int>) -> Self
        decreases schedule.len(),
    {
        if schedule.len() == 0 {
            self
        } else {
            self.run(schedule.drop_last()).step(schedule.last())
        }
    }

    /// Whether every worker has left its critical section behind.
    pub open spec fn all_done(self) -> bool {
        forall|i: int| 0 <= i < self.workers.len() ==> (#[trigger] self.workers[i]).stage is Done
    }

    /// What holds of contending workers at every moment: no two are inside
    /// together; the lock is held exactly while one is inside; a worker that
    /// has read the counter still knows its value; and the counter is where
    /// it started plus what the workers have added.
    pub open spec fn sound(self, counter: int, amounts: Seq<int>) -> bool {
        &&& self.workers.len() == amounts.len()
        &&& forall|i: int|
            0 <= i < self.workers.len() ==> (#[trigger] self.workers[i]).amount == amounts[i]
        &&& forall|i: int, j: int|
            0 <= i < self.workers.len() && 0 <= j < self.workers.len() && (
            #[trigger] self.workers[i]).inside() && (#[trigger] self.workers[j]).inside() ==> i
                == j
        &&& self.lock.held <==> exists|i: int|
            0 <= i < self.workers.len() && (#[trigger] self.workers[i]).inside()
        &&& forall|i: int|
            0 <= i < self.workers.len() && (#[trigger] self.workers[i]).stage is Loaded
                ==> self.workers[i].stage->Loaded_0 == self.lock.payload
        &&& self.lock.payload == counter + credited(self.workers)
    }
}

proof fn lemma_credited_none(workers: Seq<Worker>)
    requires
        forall|i: int| 0 <= i < workers.len() ==> (#[trigger] workers[i]).stage is Waiting,
    ensures
        credited(workers) == 0,
    decreases workers.len(),
{
    if workers.len() > 0 {
        lemma_credited_none(workers.drop_last());
    }
}

proof fn lemma_credited_all(workers: Seq<Worker>, amounts: Seq<int>)
    requires
        workers.len() == amounts.len(),
        forall|i: int| 0 <= i < workers.len() ==> (#[trigger] workers[i]).stage is Done,
        forall|i: int| 0 <= i < workers.len() ==> (#[trigger] workers[i]).amount == amounts[i],
    ensures
        credited(workers) == total(amounts),
    decreases workers.len(),
{
    if workers.len() > 0 {
        lemma_credited_all(workers.drop_last(), amounts.drop_last());
    }
}

proof fn lemma_credited_update(workers: Seq<Worker>, who: int, worker: Worker)
    requires
        0 <= who < workers.len(),
    ensures
        credited(workers.update(who, worker)) == credited(workers) - workers[who].credit()
            + worker.credit(),
    decreases workers.len(),
{
    let updated = workers.update(who, worker);
    if who == workers.len() - 1 {
        assert(updated.drop_last() =~= workers.drop_last());
    } else {
        lemma_credited_update(workers.drop_last(), who, worker);
        assert(updated.drop_last() =~= workers.drop_last().update(who, worker));
    }
}

proof fn lemma_step_keeps_sound(state: Contention, who: int, counter: int, amounts: Seq<int>)
    requires
        state.sound(counter, amounts),
    ensures
        state.step(who).sound(counter, amounts),
{
    let next = state.step(who);
    if 0 <= who < state.workers.len() {
        let worker = state.workers[who];
        match worker.stage {
            Stage::Waiting => {
                if !state.lock.held {
                    lemma_credited_update(state.workers, who, next.workers[who]);
                    assert(next.workers[who].inside());
                    assert forall|i: int, j: int|
                        0 <= i < next.workers.len() && 0 <= j < next.workers.len() && (
                        #[trigger] next.workers[i]).inside() && (
                        #[trigger] next.workers[j]).inside() implies i == j by {
                        if i != who {
                            assert(state.workers[i].inside());
                        }
                        if j != who {
                            assert(state.workers[j].inside());
                        }
                    }
                    assert forall|i: int|
                        0 <= i < next.workers.len() && (
                        #[trigger] next.workers[i]).stage is Loaded implies next.workers[i].stage->Loaded_0
                        == next.lock.payload by {
                        assert(state.workers[i].inside());
                    }
                }
            },
            Stage::Holding | Stage::Loaded(_) => {
                lemma_credited_update(state.workers, who, next.workers[who]);
                assert(worker.inside());
                assert(next.workers[who].inside());
                assert forall|i: int, j: int|
                    0 <= i < next.workers.len() && 0 <= j < next.workers.len() && (
                    #[trigger] next.workers[i]).inside() && (
                    #[trigger] next.workers[j]).inside() implies i == j by {
                    assert(state.workers[i].inside());
                    assert(state.workers[j].inside());
                }
                assert forall|i: int|
                    0 <= i < next.workers.len() && (
                    #[trigger] next.workers[i]).stage is Loaded implies next.workers[i].stage->Loaded_0
                    == next.lock.payload by {
                    if i != who {
                        assert(state.workers[i].inside());
                    }
                }
            },
            Stage::Stored => {
                lemma_credited_update(state.workers, who, next.workers[who]);
                assert(worker.inside());
                assert forall|i: int|
                    0 <= i < next.workers.len() implies !(#[trigger] next.workers[i]).inside() by {
                    if i != who {
                        if state.workers[i].inside() {
                            assert(i == who);
                        }
                    }
                }
            },
            Stage::Done => {},
        }
    }
}

/// The state of contending workers is sound at the start and stays so under
/// every schedule.
pub proof fn lemma_run_is_sound(counter: int, amounts: Seq<int>, schedule: Seq<int>)
    ensures
        Contention::start(counter, amounts).run(schedule).sound(counter, amounts),
    decreases schedule.len(),
{
    let start = Contention::start(counter, amounts);
    if schedule.len() == 0 {
        lemma_credited_none(start.workers);
    } else {
        lemma_run_is_sound(counter, amounts, schedule.drop_last());
        lemma_step_keeps_sound(
            start.run(schedule.drop_last()),
            schedule.last(),
            counter,
            amounts,
        );
    }
}

/// Mutual exclusion: however the steps of the workers interleave, no two
/// workers are ever in their critical sections together.
pub proof fn lemma_mutual_exclusion(
    counter: int,
    amounts: Seq<int>,
    schedule: Seq<int>,
    i: int,
    j: int,
)
    requires
        0 <= i < amounts.len(),
        0 <= j < amounts.len(),
        i != j,
    ensures
        !(Contention::start(counter, amounts).run(schedule).workers[i].inside()
            && Contention::start(counter, amounts).run(schedule).workers[j].inside()),
{
    lemma_run_is_sound(counter, amounts, schedule);
}

/// No lost update: however the steps of the workers interleave, once every
/// worker is done the counter has grown by exactly the sum of the amounts,
/// and the lock is free.
pub proof fn lemma_no_lost_update(counter: int, amounts: Seq<int>, schedule: Seq<int>)
    requires
        Contention::start(counter, amounts).run(schedule).all_done(),
    ensures
        Contention::start(counter, amounts).run(schedule).lock == LockState::free(
            counter + total(amounts),
        ),
{
    lemma_run_is_sound(counter, amounts, schedule);
    let end = Contention::start(counter, amounts).run(schedule);
    lemma_credited_all(end.workers, amounts);
}

} // verus!
