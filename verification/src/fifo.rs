//! The FIFO scheduler: a cooperative policy that runs the ready tasks in the
//! order in which they became ready.

use crate::table::{released, retained, TaskTable, DANGLING};
use core::marker::PhantomData;
use heapless::mpmc::MpMcQueue;
use vstd::prelude::*;

verus! {

/// The number of tasks that the ready queue of a `FifoScheduler` holds.
pub const FIFO_CAPACITY: usize = 64;

/// A task as the FIFO scheduler sees it: it keeps no state of its own for it.
#[derive(Debug)]
pub struct FifoTask<T> {
    inner: T,
}

impl<T> View for FifoTask<T> {
    type V = T;

    closed spec fn view(&self) -> T {
        self.inner
    }
}

impl<T> FifoTask<T> {
    /// Wraps the task `inner`.
    pub fn new(inner: T) -> (r: Self)
        ensures
            r@ == inner,
    {
        FifoTask { inner }
    }

    /// The task that is wrapped.
    pub fn inner(&self) -> (r: &T)
        ensures
            *r == self@,
    {
        &self.inner
    }
}

/// A capability to a task of the FIFO scheduler: the number of the task's
/// slot in the table. Each capability stands for one unit of the task's
/// strong count, so it is neither copied nor forgotten: `clone` makes
/// another and `drop` gives one up.
#[derive(Debug)]
pub struct FiFoTaskRef<T> {
    slot: usize,
    kind: PhantomData<T>,
}

/// A handle to a task that does not count towards its strong count.
#[derive(Debug)]
pub struct WeakFiFoTaskRef<T> {
    slot: usize,
    kind: PhantomData<T>,
}

impl<T> FiFoTaskRef<T> {
    /// The slot that the capability points to.
    pub closed spec fn spec_slot(&self) -> usize {
        self.slot
    }

    /// A capability to the task in slot `inner`. The count of the task is
    /// left alone: the caller accounts for the capability.
    pub fn new(inner: usize) -> (r: Self)
        ensures
            r.slot() == inner,
    {
        FiFoTaskRef { slot: inner, kind: PhantomData }
    }

    /// The slot that the capability points to.
    #[verifier::when_used_as_spec(spec_slot)]
    pub fn slot(&self) -> (r: usize)
        ensures
            r == self.slot(),
    {
        self.slot
    }

    /// Whether both capabilities point to the same task.
    pub fn ptr_eq(&self, other: &Self) -> (r: bool)
        ensures
            r == (self.slot() == other.slot()),
    {
        self.slot == other.slot
    }

    /// The number of capabilities that keep the task alive.
    pub fn strong_count(&self, tasks: &TaskTable<FifoTask<T>>) -> (r: usize)
        requires
            tasks.is_live(self.slot()),
        ensures
            r == tasks.strong(self.slot()),
    {
        tasks.strong_count(self.slot)
    }

    /// A handle to the same task that does not keep it alive.
    pub fn weak_clone(&self) -> (r: WeakFiFoTaskRef<T>)
        ensures
            r.slot() == self.slot(),
    {
        WeakFiFoTaskRef { slot: self.slot, kind: PhantomData }
    }

    /// Whether this is the dangling capability, which points to no task.
    pub fn is_empty(&self) -> (r: bool)
        ensures
            r == (self.slot() == DANGLING),
    {
        self.slot == DANGLING
    }

    /// One more capability to the same task: its strong count rises by one.
    pub fn clone(&self, tasks: &mut TaskTable<FifoTask<T>>) -> (r: Self)
        requires
            old(tasks).is_live(self.slot()),
            old(tasks).strong(self.slot()) < usize::MAX,
        ensures
            r.slot() == self.slot(),
            final(tasks)@ == retained(old(tasks)@, self.slot()),
            final(tasks).strong(self.slot()) == old(tasks).strong(self.slot()) + 1,
            old(tasks).wf() ==> final(tasks).wf(),
    {
        tasks.retain(self.slot);
        FiFoTaskRef { slot: self.slot, kind: PhantomData }
    }

    /// Gives the capability up: the strong count of its task falls by one,
    /// and the task leaves the table with its last capability.
    pub fn drop(self, tasks: &mut TaskTable<FifoTask<T>>)
        ensures
            final(tasks)@ == released(old(tasks)@, self.slot()),
            old(tasks).wf() ==> final(tasks).wf(),
    {
        let _ = tasks.release(self.slot);
    }

    /// The task that the capability points to.
    pub fn deref<'a>(&self, tasks: &'a TaskTable<FifoTask<T>>) -> (r: &'a FifoTask<T>)
        requires
            tasks.is_live(self.slot()),
        ensures
            *r == tasks.task(self.slot()),
    {
        tasks.get(self.slot)
    }
}

impl<T> WeakFiFoTaskRef<T> {
    /// The slot that the handle points to.
    pub closed spec fn spec_slot(&self) -> usize {
        self.slot
    }

    /// A weak handle to the task in slot `inner`.
    pub fn new(inner: usize) -> (r: Self)
        ensures
            r.slot() == inner,
    {
        WeakFiFoTaskRef { slot: inner, kind: PhantomData }
    }

    /// The slot that the handle points to.
    #[verifier::when_used_as_spec(spec_slot)]
    pub fn slot(&self) -> (r: usize)
        ensures
            r == self.slot(),
    {
        self.slot
    }

    /// The task that the handle points to, which must still be in the table.
    pub fn deref<'a>(&self, tasks: &'a TaskTable<FifoTask<T>>) -> (r: &'a FifoTask<T>)
        requires
            tasks.is_live(self.slot()),
        ensures
            *r == tasks.task(self.slot()),
    {
        tasks.get(self.slot)
    }
}

/// `heapless::mpmc::MpMcQueue`, carried as an opaque value.
#[verifier::external_type_specification]
#[verifier::external_body]
#[verifier::reject_recursive_types(T)]
pub struct ExMpMcQueue<T, const N: usize>(MpMcQueue<T, N>);

/// The items that a queue of `heapless` holds, the next one to leave first.
pub uninterp spec fn ring_items(queue: MpMcQueue<usize, 64>) -> Seq<usize>;

/// `MpMcQueue::new`: a queue that holds nothing.
#[verifier::external_body]
fn ring_new() -> (queue: MpMcQueue<usize, 64>)
    ensures
        ring_items(queue) == Seq::<usize>::empty(),
{
    MpMcQueue::new()
}

/// `MpMcQueue::enqueue`: `item` goes to the end of the queue; a queue that
/// holds as many items as it has cells stays as it is and hands `item` back.
/// The wrapper asks for the queue alone, so that no other call can come
/// between.
#[verifier::external_body]
fn ring_enqueue(queue: &mut MpMcQueue<usize, 64>, item: usize) -> (r: Result<(), usize>)
    ensures
        r.is_ok() == (ring_items(*old(queue)).len() < 64),
        r matches Err(back) ==> back == item,
        ring_items(*final(queue)) == (if r.is_ok() {
            ring_items(*old(queue)).push(item)
        } else {
            ring_items(*old(queue))
        }),
{
    queue.enqueue(item)
}

/// `MpMcQueue::dequeue`: the item at the front leaves the queue; an empty
/// queue stays as it is and gives `None`. The wrapper asks for the queue
/// alone, so that no other call can come between.
#[verifier::external_body]
fn ring_dequeue(queue: &mut MpMcQueue<usize, 64>) -> (r: Option<usize>)
    ensures
        r == (if ring_items(*old(queue)).len() > 0 {
            Some(ring_items(*old(queue))[0])
        } else {
            None
        }),
        ring_items(*final(queue)) == (if ring_items(*old(queue)).len() > 0 {
            ring_items(*old(queue)).drop_first()
        } else {
            ring_items(*old(queue))
        }),
{
    queue.dequeue()
}

/// The ready queue after `slot` is added: at the end, or not at all where
/// the queue is full.
pub open spec fn fifo_added(ready: Seq<usize>, slot: usize) -> Seq<usize> {
    if ready.len() < FIFO_CAPACITY {
        ready.push(slot)
    } else {
        ready
    }
}

/// The ready queue after each slot of `slots` is added in turn.
pub open spec fn fifo_added_all(ready: Seq<usize>, slots: Seq<usize>) -> Seq<usize>
    decreases slots.len(),
{
    if slots.len() == 0 {
        ready
    } else {
        fifo_added_all(fifo_added(ready, slots[0]), slots.drop_first())
    }
}

/// The slot that is picked from the ready queue, if any.
pub open spec fn fifo_picked(ready: Seq<usize>) -> Option<usize> {
    if ready.len() > 0 {
        Some(ready[0])
    } else {
        None
    }
}

/// The ready queue after one pick.
pub open spec fn fifo_rest(ready: Seq<usize>) -> Seq<usize> {
    if ready.len() > 0 {
        ready.drop_first()
    } else {
        ready
    }
}

/// The ready queue after `n` picks.
pub open spec fn fifo_rest_n(ready: Seq<usize>, n: nat) -> Seq<usize>
    decreases n,
{
    if n == 0 {
        ready
    } else {
        fifo_rest_n(fifo_rest(ready), (n - 1) as nat)
    }
}

/// Tasks that are added while the queue has room stand behind the tasks
/// that were ready before, in the order in which they were added.
pub proof fn lemma_fifo_added_all(ready: Seq<usize>, slots: Seq<usize>)
    requires
        ready.len() + slots.len() <= FIFO_CAPACITY,
    ensures
        fifo_added_all(ready, slots) == ready + slots,
    decreases slots.len(),
{
    if slots.len() > 0 {
        lemma_fifo_added_all(fifo_added(ready, slots[0]), slots.drop_first());
        assert(ready.push(slots[0]) + slots.drop_first() =~= ready + slots);
    } else {
        assert(ready + slots =~= ready);
    }
}

/// After `n` picks the first `n` ready tasks are gone, and the next pick
/// yields the task that stood at place `n`.
pub proof fn lemma_fifo_rest_n(ready: Seq<usize>, n: nat)
    requires
        n <= ready.len(),
    ensures
        fifo_rest_n(ready, n) == ready.subrange(n as int, ready.len() as int),
        n < ready.len() ==> fifo_picked(fifo_rest_n(ready, n)) == Some(ready[n as int]),
    decreases n,
{
    if n > 0 {
        lemma_fifo_rest_n(ready.drop_first(), (n - 1) as nat);
        assert(ready.drop_first().subrange(n - 1, ready.len() - 1) =~= ready.subrange(
            n as int,
            ready.len() as int,
        ));
    } else {
        assert(ready.subrange(0, ready.len() as int) =~= ready);
    }
}

/// First in, first out: when tasks are added to an empty scheduler with no
/// pick in between, and no more of them than it has room for, the picks
/// that follow yield them in the order in which they were added.
pub proof fn lemma_fifo_order(slots: Seq<usize>, n: nat)
    requires
        slots.len() <= FIFO_CAPACITY,
        n < slots.len(),
    ensures
        fifo_picked(fifo_rest_n(fifo_added_all(Seq::<usize>::empty(), slots), n)) == Some(
            slots[n as int],
        ),
{
    lemma_fifo_added_all(Seq::<usize>::empty(), slots);
    assert(Seq::<usize>::empty() + slots =~= slots);
    lemma_fifo_rest_n(slots, n);
}

/// The FIFO scheduler: a bounded queue of the capabilities of the ready
/// tasks, in the order in which they became ready.
pub struct FifoScheduler<T> {
    ready_queue: MpMcQueue<usize, 64>,
    kind: PhantomData<T>,
}

impl<T> FifoScheduler<T> {
    /// The slots of the ready tasks, the next one to run first.
    pub closed spec fn ready(&self) -> Seq<usize> {
        ring_items(self.ready_queue)
    }

    /// A scheduler with no ready task.
    pub fn new() -> (r: Self)
        ensures
            r.ready() == Seq::<usize>::empty(),
    {
        FifoScheduler { ready_queue: ring_new(), kind: PhantomData }
    }

    /// The name of the policy.
    pub fn scheduler_name() -> (r: &'static str)
        ensures
            r@ == "FIFO"@,
    {
        "FIFO"
    }

    /// Nothing to set up: the scheduler stays as it is.
    pub fn init(&mut self)
        ensures
            final(self).ready() == old(self).ready(),
    {
    }

    /// Makes `task` ready: it goes to the end of the ready queue. A full
    /// queue stays as it is, and the capability is given up.
    pub fn add_task(&mut self, tasks: &mut TaskTable<FifoTask<T>>, task: FiFoTaskRef<T>)
        ensures
            final(self).ready() == fifo_added(old(self).ready(), task.slot()),
            old(self).ready().len() < FIFO_CAPACITY ==> final(tasks)@ == old(tasks)@,
            old(self).ready().len() >= FIFO_CAPACITY ==> final(tasks)@ == released(
                old(tasks)@,
                task.slot(),
            ),
            old(tasks).wf() ==> final(tasks).wf(),
    {
        match ring_enqueue(&mut self.ready_queue, task.slot) {
            Ok(()) => {},
            Err(_) => {
                task.drop(tasks);
            },
        }
    }

    /// Takes the task at the front out of the ready queue, or returns `None`
    /// where no task is ready.
    pub fn pick_next_task(&mut self) -> (r: Option<FiFoTaskRef<T>>)
        ensures
            final(self).ready() == fifo_rest(old(self).ready()),
            r.is_some() == fifo_picked(old(self).ready()).is_some(),
            r.is_some() ==> r.unwrap().slot() == fifo_picked(old(self).ready()).unwrap(),
    {
        match ring_dequeue(&mut self.ready_queue) {
            Some(slot) => Some(FiFoTaskRef { slot, kind: PhantomData }),
            None => None,
        }
    }

    /// Makes the task that ran last ready again: it goes to the end of the
    /// ready queue, whatever it ran for. A full queue stays as it is, and
    /// the capability is given up.
    pub fn put_prev_task(
        &mut self,
        tasks: &mut TaskTable<FifoTask<T>>,
        prev: FiFoTaskRef<T>,
        _preempt: bool,
    )
        ensures
            final(self).ready() == fifo_added(old(self).ready(), prev.slot()),
            old(self).ready().len() < FIFO_CAPACITY ==> final(tasks)@ == old(tasks)@,
            old(self).ready().len() >= FIFO_CAPACITY ==> final(tasks)@ == released(
                old(tasks)@,
                prev.slot(),
            ),
            old(tasks).wf() ==> final(tasks).wf(),
    {
        self.add_task(tasks, prev);
    }

    /// A tick never asks for another task to run: the policy is cooperative.
    pub fn task_tick(&self, _current: &FiFoTaskRef<T>) -> (r: bool)
        ensures
            !r,
    {
        false
    }

    /// The policy knows no priorities: every value is refused.
    pub fn set_priority(&self, _task: &FiFoTaskRef<T>, _prio: isize) -> (r: bool)
        ensures
            !r,
    {
        false
    }
}

} // verus!
