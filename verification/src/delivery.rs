//! Delivery of values from worker threads to the UI thread.
//!
//! A value that arrives off the UI thread is not pushed on at once. It is put
//! into a one-shot task on the UI thread's idle queue. When the loop reaches
//! the task, the task hands the value out and asks not to be run again.
//! Tasks run in the order in which they were queued. A queue that is torn
//! down drops what it still holds, and what is handed to it afterwards.

use crate::affinity::ThreadTag;
use std::collections::VecDeque;
use vstd::prelude::*;

verus! {

/// What one run of an idle task yields.
#[derive(Debug)]
pub struct RunOutcome<T> {
    /// The value to push into the output stream, if the task still held one.
    pub emitted: Option<T>,
    /// Whether the task asks to be run again. A delivery task never does.
    pub again: bool,
}

/// A task that delivers one value, once.
#[derive(Debug)]
pub struct IdleTask<T> {
    slot: Option<T>,
}

impl<T> View for IdleTask<T> {
    type V = Option<T>;

    closed spec fn view(&self) -> Option<T> {
        self.slot
    }
}

impl<T> IdleTask<T> {
    /// A task that holds `value` until it is run.
    pub fn new(value: T) -> (task: Self)
        ensures
            task@ == Some(value),
    {
        IdleTask { slot: Some(value) }
    }

    /// Runs the task: hands out the value it holds, keeps nothing, and asks
    /// to be removed from the queue. A second run hands out nothing.
    pub fn run(&mut self) -> (outcome: RunOutcome<T>)
        ensures
            outcome.emitted == old(self)@,
            !outcome.again,
            final(self)@ is None,
    {
        RunOutcome { emitted: self.slot.take(), again: false }
    }
}

/// The queue after `value` was handed to it.
pub open spec fn after_submit<T>(pending: Seq<T>, open: bool, value: T) -> Seq<T> {
    if open {
        pending.push(value)
    } else {
        pending
    }
}

/// What the next dispatch delivers.
pub open spec fn next_delivery<T>(pending: Seq<T>) -> Option<T> {
    if pending.len() > 0 {
        Some(pending[0])
    } else {
        None
    }
}

/// The queue after one dispatch.
pub open spec fn after_dispatch<T>(pending: Seq<T>) -> Seq<T> {
    if pending.len() > 0 {
        pending.subrange(1, pending.len() as int)
    } else {
        pending
    }
}

/// The queue after `count` dispatches.
pub open spec fn after_dispatches<T>(pending: Seq<T>, count: nat) -> Seq<T>
    decreases count,
{
    if count == 0 {
        pending
    } else {
        after_dispatches(after_dispatch(pending), (count - 1) as nat)
    }
}

/// The idle queue of the UI thread, holding the deliveries that are still to
/// be made, oldest first.
pub struct MainQueue<T> {
    owner: ThreadTag,
    open: bool,
    tasks: VecDeque<IdleTask<T>>,
}

impl<T> View for MainQueue<T> {
    type V = Seq<T>;

    /// The values still to be delivered, in the order of their submission.
    closed spec fn view(&self) -> Seq<T> {
        Seq::new(self.tasks@.len(), |i: int| self.tasks@[i]@->0)
    }
}

impl<T> MainQueue<T> {
    #[verifier::type_invariant]
    spec fn every_task_is_loaded(&self) -> bool {
        forall|i: int| 0 <= i < self.tasks@.len() ==> (#[trigger] self.tasks@[i])@ is Some
    }

    /// The UI thread, which alone runs the tasks.
    pub closed spec fn owner(&self) -> ThreadTag {
        self.owner
    }

    /// Whether the queue still takes and runs tasks.
    pub closed spec fn is_open(&self) -> bool {
        self.open
    }

    /// The empty queue of the UI thread `owner`.
    pub fn new(owner: ThreadTag) -> (queue: Self)
        ensures
            queue@ == Seq::<T>::empty(),
            queue.owner() == owner,
            queue.is_open(),
    {
        MainQueue { owner, open: true, tasks: VecDeque::new() }
    }

    /// The UI thread, which alone runs the tasks.
    pub fn owner_tag(&self) -> (owner: ThreadTag)
        ensures
            owner == self.owner(),
    {
        self.owner
    }

    /// Whether the queue has not been torn down.
    pub fn accepts(&self) -> (open: bool)
        ensures
            open == self.is_open(),
    {
        self.open
    }

    /// Number of deliveries still to be made.
    pub fn pending(&self) -> (count: usize)
        ensures
            count == self@.len(),
    {
        self.tasks.len()
    }

    /// Schedules the delivery of `value` on the UI thread, behind everything
    /// that is already queued. Any thread may call this. Returns whether the
    /// value was queued: a queue that was torn down drops it.
    pub fn to_main_thread(&mut self, value: T) -> (queued: bool)
        ensures
            queued == old(self).is_open(),
            final(self)@ == after_submit(old(self)@, old(self).is_open(), value),
            final(self).owner() == old(self).owner(),
            final(self).is_open() == old(self).is_open(),
    {
        proof {
            use_type_invariant(&*self);
        }
        if self.open {
            // The tasks are taken out while they change and put back after,
            // so that the queue never holds a half-made change.
            let mut tasks: VecDeque<IdleTask<T>> = VecDeque::new();
            std::mem::swap(&mut self.tasks, &mut tasks);
            tasks.push_back(IdleTask::new(value));
            std::mem::swap(&mut self.tasks, &mut tasks);
            assert(self@ =~= old(self)@.push(value));
            true
        } else {
            false
        }
    }

    /// Runs the oldest task, on the UI thread: hands out its value and
    /// removes it from the queue. Hands out nothing when the queue is empty.
    pub fn dispatch(&mut self, caller: ThreadTag) -> (delivered: Option<T>)
        requires
            caller == old(self).owner(),
        ensures
            delivered == next_delivery(old(self)@),
            final(self)@ == after_dispatch(old(self)@),
            final(self).owner() == old(self).owner(),
            final(self).is_open() == old(self).is_open(),
    {
        proof {
            use_type_invariant(&*self);
        }
        let mut tasks: VecDeque<IdleTask<T>> = VecDeque::new();
        std::mem::swap(&mut self.tasks, &mut tasks);
        let first = tasks.pop_front();
        std::mem::swap(&mut self.tasks, &mut tasks);
        match first {
            Some(mut task) => {
                let outcome = task.run();
                assert(self@ =~= old(self)@.subrange(1, old(self)@.len() as int));
                outcome.emitted
            },
            None => None,
        }
    }

    /// Runs every queued task, on the UI thread, and returns what they
    /// delivered, oldest first.
    pub fn drain(&mut self, caller: ThreadTag) -> (delivered: Vec<T>)
        requires
            caller == old(self).owner(),
        ensures
            delivered@ == old(self)@,
            final(self)@ == Seq::<T>::empty(),
            final(self).owner() == old(self).owner(),
            final(self).is_open() == old(self).is_open(),
    {
        let mut delivered: Vec<T> = Vec::new();
        loop
            invariant
                caller == self.owner(),
                self.owner() == old(self).owner(),
                self.is_open() == old(self).is_open(),
                delivered@ + self@ == old(self)@,
            ensures
                self@.len() == 0,
            decreases self@.len(),
        {
            let ghost before = self@;
            match self.dispatch(caller) {
                Some(value) => {
                    delivered.push(value);
                    assert(delivered@ + self@ =~= old(self)@) by {
                        assert(before =~= seq![value] + self@);
                    }
                },
                None => {
                    break ;
                },
            }
        }
        assert(delivered@ =~= old(self)@);
        delivered
    }

    /// Tears the queue down: what it holds is dropped without being
    /// delivered, and so is everything handed to it from now on.
    pub fn teardown(&mut self)
        ensures
            final(self)@ == Seq::<T>::empty(),
            !final(self).is_open(),
            final(self).owner() == old(self).owner(),
    {
        let mut dropped: VecDeque<IdleTask<T>> = VecDeque::new();
        std::mem::swap(&mut self.tasks, &mut dropped);
        self.open = false;
    }
}

/// After `count` dispatches the queue holds what it held, less its first
/// `count` values, and the dispatch that comes next delivers the value at
/// position `count`.
pub proof fn law_dispatch_is_first_in_first_out<T>(pending: Seq<T>, count: nat)
    ensures
        count <= pending.len() ==> after_dispatches(pending, count) == pending.subrange(
            count as int,
            pending.len() as int,
        ),
        count < pending.len() ==> next_delivery(after_dispatches(pending, count)) == Some(
            pending[count as int],
        ),
        count >= pending.len() ==> after_dispatches(pending, count) == Seq::<T>::empty(),
        count >= pending.len() ==> next_delivery(after_dispatches(pending, count)) is None,
    decreases count,
{
    if count == 0 {
        assert(pending.subrange(0, pending.len() as int) =~= pending);
        if pending.len() == 0 {
            assert(pending =~= Seq::<T>::empty());
        }
    } else {
        let rest = after_dispatch(pending);
        law_dispatch_is_first_in_first_out(rest, (count - 1) as nat);
        if pending.len() == 0 {
            assert(pending =~= Seq::<T>::empty());
        } else if count <= pending.len() {
            assert(rest.subrange(count - 1, rest.len() as int) =~= pending.subrange(
                count as int,
                pending.len() as int,
            ));
        }
    }
}

/// A value handed to an open queue that holds `ahead` is delivered exactly
/// once: by the dispatch that follows the delivery of everything in `ahead`,
/// and by no other. Before it, the dispatches deliver `ahead` in order; after
/// it, the queue holds only what was submitted later.
pub proof fn law_delivered_once_in_turn<T>(ahead: Seq<T>, value: T, behind: Seq<T>)
    ensures
        forall|n: nat|
            n < ahead.len() ==> next_delivery(
                #[trigger] after_dispatches(after_submit(ahead, true, value) + behind, n),
            ) == Some(ahead[n as int]),
        next_delivery(
            after_dispatches(after_submit(ahead, true, value) + behind, ahead.len()),
        ) == Some(value),
        after_dispatches(
            after_submit(ahead, true, value) + behind,
            (ahead.len() + 1) as nat,
        ) == behind,
{
    let queue = after_submit(ahead, true, value) + behind;
    assert forall|n: nat| n < ahead.len() implies next_delivery(
        #[trigger] after_dispatches(queue, n),
    ) == Some(ahead[n as int]) by {
        law_dispatch_is_first_in_first_out(queue, n);
    }
    law_dispatch_is_first_in_first_out(queue, ahead.len());
    law_dispatch_is_first_in_first_out(queue, (ahead.len() + 1) as nat);
    assert(queue.subrange(ahead.len() as int + 1, queue.len() as int) =~= behind);
}

/// A value handed to a queue that was torn down is never delivered: the
/// queue stays empty.
pub proof fn law_torn_down_queue_drops<T>(value: T, count: nat)
    ensures
        after_dispatches(after_submit(Seq::<T>::empty(), false, value), count) == Seq::<
            T,
        >::empty(),
        next_delivery(after_dispatches(after_submit(Seq::<T>::empty(), false, value), count))
            is None,
{
    law_dispatch_is_first_in_first_out(Seq::<T>::empty(), count);
}

} // verus!
