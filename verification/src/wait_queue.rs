//! Wait queues: the tasks that are blocked until another task notifies them,
//! in the order in which they blocked.
//!
//! A waiter is the handle of a task together with the number under which the
//! task-management layer knows the task; the queue finds a task again by
//! that number and never looks into the handle. The queue decides who waits
//! and who wakes; the blocking reschedule itself, and the making runnable of
//! a woken task, are the caller's part: the functions here say what is to be
//! done and the caller does it.

use std::collections::VecDeque;
use vstd::prelude::*;

verus! {

/// What is to be done for a task that a notify took out of a wait queue: its
/// in-wait-queue flag is cleared and it is made runnable again, with a
/// reschedule of the notifying CPU where `resched` is set.
#[derive(Debug)]
pub struct Wakeup<T> {
    /// The number of the task.
    pub id: usize,
    /// The handle of the task, as it was queued.
    pub task: T,
    pub resched: bool,
}

/// What a task that asked to wait does next.
#[derive(Clone, Copy, Debug, PartialEq, Eq, Structural)]
pub enum WaitStep {
    /// The task stands in the queue: it is marked as in a wait queue and
    /// blocks until it is woken.
    Block,
    /// The task goes on without blocking.
    Proceed,
}

/// What is to be done for a task that has resumed from a wait.
#[derive(Clone, Copy, Debug, PartialEq, Eq, Structural)]
pub struct CancelActions {
    /// The in-wait-queue flag of the task is cleared.
    pub clear_in_wait_queue: bool,
    /// The timer ticket of the task is marked as expired.
    pub expire_timer_ticket: bool,
}

/// The waiters of `s` other than those of the task `id`, in their order.
pub open spec fn without<T>(s: Seq<(usize, T)>, id: usize) -> Seq<(usize, T)>
    decreases s.len(),
{
    if s.len() == 0 {
        s
    } else if s.last().0 == id {
        without(s.drop_last(), id)
    } else {
        without(s.drop_last(), id).push(s.last())
    }
}

/// Whether a waiter of the task `id` stands in `s`.
pub open spec fn waits<T>(s: Seq<(usize, T)>, id: usize) -> bool {
    exists|i: int| 0 <= i < s.len() && (#[trigger] s[i]).0 == id
}

/// The first place at or after `from` where a waiter of the task `id`
/// stands in `s`, or the length of `s` where none does.
pub open spec fn position<T>(s: Seq<(usize, T)>, id: usize, from: int) -> int
    decreases s.len() - from,
{
    if from < 0 || from >= s.len() {
        s.len() as int
    } else if s[from].0 == id {
        from
    } else {
        position(s, id, from + 1)
    }
}

/// The number of tasks that a requeue of at most `count` moves out of a
/// queue of `len` tasks.
pub open spec fn moved(count: usize, len: nat) -> nat {
    if count <= len {
        count as nat
    } else {
        len
    }
}

/// The wakeups for the waiters of `s`, in their order.
pub open spec fn wakeups<T>(s: Seq<(usize, T)>, resched: bool) -> Seq<Wakeup<T>> {
    Seq::new(s.len(), |i: int| Wakeup { id: s[i].0, task: s[i].1, resched })
}

/// The place that `position` finds lies within `from..=s.len()`; a waiter of
/// the task stands at it where it lies within `s`, and at no place from
/// `from` up to it.
pub proof fn lemma_position<T>(s: Seq<(usize, T)>, id: usize, from: int)
    requires
        0 <= from <= s.len(),
    ensures
        from <= position(s, id, from) <= s.len(),
        position(s, id, from) < s.len() ==> s[position(s, id, from)].0 == id,
        forall|i: int| from <= i < position(s, id, from) ==> (#[trigger] s[i]).0 != id,
        position(s, id, from) < s.len() <==> waits(s.subrange(from, s.len() as int), id),
    decreases s.len() - from,
{
    let tail = s.subrange(from, s.len() as int);
    if from < s.len() {
        if s[from].0 != id {
            lemma_position(s, id, from + 1);
            let rest = s.subrange(from + 1, s.len() as int);
            if waits(rest, id) {
                let i = choose|i: int| 0 <= i < rest.len() && (#[trigger] rest[i]).0 == id;
                assert(tail[i + 1].0 == id);
            }
            if waits(tail, id) {
                let i = choose|i: int| 0 <= i < tail.len() && (#[trigger] tail[i]).0 == id;
                assert(rest[i - 1].0 == id);
            }
        } else {
            assert(tail[0].0 == id);
        }
    }
}

/// `without` keeps the waiters of the other tasks, all of them and in their
/// order, and none of the task `id`.
pub proof fn lemma_without<T>(s: Seq<(usize, T)>, id: usize)
    ensures
        !waits(without(s, id), id),
        without(s, id).len() <= s.len(),
        forall|w: (usize, T)|
            w.0 != id ==> (#[trigger] without(s, id).contains(w) <==> s.contains(w)),
        !waits(s, id) ==> without(s, id) == s,
    decreases s.len(),
{
    if s.len() > 0 {
        let front = s.drop_last();
        let w = without(s, id);
        let wf = without(front, id);
        lemma_without(front, id);
        assert forall|x: (usize, T)| x.0 != id implies (#[trigger] w.contains(x) <==> s.contains(
            x,
        )) by {
            if s.contains(x) {
                let i = choose|i: int| 0 <= i < s.len() && s[i] == x;
                if i < s.len() - 1 {
                    assert(front[i] == x);
                    assert(front.contains(x));
                    assert(wf.contains(x));
                    let j = choose|j: int| 0 <= j < wf.len() && wf[j] == x;
                    assert(w[j] == x);
                } else {
                    assert(w[w.len() - 1] == x);
                }
                assert(w.contains(x));
            }
            if w.contains(x) {
                let j = choose|j: int| 0 <= j < w.len() && w[j] == x;
                if j < wf.len() {
                    assert(wf[j] == x);
                    assert(wf.contains(x));
                    assert(front.contains(x));
                    let i = choose|i: int| 0 <= i < front.len() && front[i] == x;
                    assert(s[i] == x);
                } else {
                    assert(s[s.len() - 1] == x);
                }
                assert(s.contains(x));
            }
        }
        if waits(w, id) {
            let j = choose|j: int| 0 <= j < w.len() && (#[trigger] w[j]).0 == id;
            if j < wf.len() {
                assert(wf[j].0 == id);
                assert(waits(wf, id));
            }
        }
        if !waits(s, id) {
            assert(s[s.len() - 1].0 != id);
            assert forall|i: int| 0 <= i < front.len() implies (#[trigger] front[i]).0 != id by {
                assert(s[i] == front[i]);
            }
            assert(!waits(front, id));
            assert(w =~= s);
        }
    }
}

/// A queue of blocked tasks, the one that blocked first at the front.
pub struct WaitQueue<T> {
    queue: VecDeque<(usize, T)>,
}

impl<T> View for WaitQueue<T> {
    type V = Seq<(usize, T)>;

    closed spec fn view(&self) -> Seq<(usize, T)> {
        self.queue@
    }
}

/// The wakeup of one task: its flag is cleared and it is made runnable.
fn unblock_one_task<T>(id: usize, task: T, resched: bool) -> (r: Wakeup<T>)
    ensures
        r == (Wakeup { id, task, resched }),
{
    Wakeup { id, task, resched }
}

impl<T> WaitQueue<T> {
    /// An empty wait queue.
    pub fn new() -> (r: Self)
        ensures
            r@ == Seq::<(usize, T)>::empty(),
    {
        WaitQueue { queue: VecDeque::new() }
    }

    /// An empty wait queue with room for at least `capacity` tasks.
    pub fn with_capacity(capacity: usize) -> (r: Self)
        ensures
            r@ == Seq::<(usize, T)>::empty(),
    {
        WaitQueue { queue: VecDeque::with_capacity(capacity) }
    }

    /// The number of tasks in the queue.
    pub fn len(&self) -> (r: usize)
        ensures
            r == self@.len(),
    {
        self.queue.len()
    }

    /// Whether no task is in the queue.
    pub fn is_empty(&self) -> (r: bool)
        ensures
            r == (self@.len() == 0),
    {
        self.queue.len() == 0
    }

    /// Reconciles a task that has resumed with the queue. A task that is
    /// still marked as in a wait queue was not woken by a notify: it is taken
    /// out of the queue wherever it stands, and its flag is to be cleared.
    /// With `from_timer_list` its timer ticket is to be marked as expired.
    pub fn cancel_events(&mut self, curr: usize, in_wait_queue: bool, from_timer_list: bool) -> (r:
        CancelActions)
        ensures
            r == (CancelActions {
                clear_in_wait_queue: in_wait_queue,
                expire_timer_ticket: from_timer_list,
            }),
            in_wait_queue ==> final(self)@ == without(old(self)@, curr),
            !in_wait_queue ==> final(self)@ == old(self)@,
    {
        if in_wait_queue {
            let n: usize = self.queue.len();
            let mut kept: VecDeque<(usize, T)> = VecDeque::with_capacity(n);
            let mut i: usize = 0;
            while i < n
                invariant
                    n == old(self).queue@.len(),
                    0 <= i <= n,
                    self.queue@ == old(self).queue@.subrange(i as int, n as int),
                    kept@ == without(old(self).queue@.subrange(0, i as int), curr),
                decreases n - i,
            {
                proof {
                    let before = old(self).queue@;
                    assert(before.subrange(0, i + 1).drop_last() =~= before.subrange(0, i as int));
                }
                match self.queue.pop_front() {
                    Some(waiter) => {
                        if waiter.0 != curr {
                            kept.push_back(waiter);
                        }
                    },
                    None => {},
                }
                assert(self.queue@ =~= old(self).queue@.subrange(i + 1, n as int));
                i = i + 1;
            }
            proof {
                assert(old(self).queue@.subrange(0, n as int) =~= old(self).queue@);
            }
            self.queue = kept;
        }
        CancelActions { clear_in_wait_queue: in_wait_queue, expire_timer_ticket: from_timer_list }
    }

    /// The task `id` asks to wait until it is notified: its handle `curr`
    /// goes to the end of the queue, and the task blocks.
    pub fn wait(&mut self, id: usize, curr: T) -> (r: WaitStep)
        ensures
            r == WaitStep::Block,
            final(self)@ == old(self)@.push((id, curr)),
            waits(final(self)@, id),
    {
        self.queue.push_back((id, curr));
        assert(self.queue@[self.queue@.len() - 1].0 == id);
        WaitStep::Block
    }

    /// The task `id` asks to wait until a condition holds, and `condition`
    /// says whether it holds now. Where it does the task goes on and the
    /// queue stays as it is; where it does not its handle `curr` goes to the
    /// end of the queue and the task blocks, and asks again when it has been
    /// woken.
    pub fn wait_until(&mut self, id: usize, curr: T, condition: bool) -> (r: WaitStep)
        ensures
            condition ==> r == WaitStep::Proceed && final(self)@ == old(self)@,
            !condition ==> r == WaitStep::Block && final(self)@ == old(self)@.push((id, curr)),
    {
        if condition {
            WaitStep::Proceed
        } else {
            self.queue.push_back((id, curr));
            WaitStep::Block
        }
    }

    /// Wakes the task at the front of the queue, if there is one.
    pub fn notify_one(&mut self, resched: bool) -> (r: Option<Wakeup<T>>)
        ensures
            old(self)@.len() == 0 ==> r.is_none() && final(self)@ == old(self)@,
            old(self)@.len() > 0 ==> r == Some(
                Wakeup { id: old(self)@[0].0, task: old(self)@[0].1, resched },
            ) && final(self)@ == old(self)@.drop_first(),
    {
        match self.queue.pop_front() {
            Some(waiter) => {
                let ghost before = old(self).queue@;
                assert(before.subrange(1, before.len() as int) =~= before.drop_first());
                Some(unblock_one_task(waiter.0, waiter.1, resched))
            },
            None => None,
        }
    }

    /// Wakes every task in the queue, from the front to the back.
    pub fn notify_all(&mut self, resched: bool) -> (r: Vec<Wakeup<T>>)
        ensures
            final(self)@ == Seq::<(usize, T)>::empty(),
            r@ == wakeups(old(self)@, resched),
    {
        let mut woken: Vec<Wakeup<T>> = Vec::new();
        loop
            invariant
                woken@.len() + self@.len() == old(self)@.len(),
                woken@ == wakeups(old(self)@.subrange(0, woken@.len() as int), resched),
                self@ == old(self)@.subrange(woken@.len() as int, old(self)@.len() as int),
            ensures
                self@.len() == 0,
                woken@.len() == old(self)@.len(),
                woken@ == wakeups(old(self)@.subrange(0, woken@.len() as int), resched),
            decreases self@.len(),
        {
            let ghost k = woken@.len() as int;
            match self.notify_one(resched) {
                Some(w) => {
                    woken.push(w);
                    assert(woken@ =~= wakeups(old(self)@.subrange(0, k + 1), resched));
                    assert(self@ =~= old(self)@.subrange(k + 1, old(self)@.len() as int));
                },
                None => {
                    break ;
                },
            }
        }
        assert(old(self)@.subrange(0, old(self)@.len() as int) =~= old(self)@);
        assert(self@ =~= Seq::<(usize, T)>::empty());
        woken
    }

    /// Wakes the task `id` where it stands in the queue: its waiter is taken
    /// out at the first place where one stands. A queue without it stays as
    /// it is.
    pub fn notify_task(&mut self, resched: bool, id: usize) -> (r: Option<Wakeup<T>>)
        ensures
            !waits(old(self)@, id) ==> r.is_none() && final(self)@ == old(self)@,
            waits(old(self)@, id) ==> r == Some(
                Wakeup { id, task: old(self)@[position(old(self)@, id, 0)].1, resched },
            ) && final(self)@ == old(self)@.remove(position(old(self)@, id, 0)),
    {
        let n: usize = self.queue.len();
        let mut i: usize = 0;
        while i < n && self.queue[i].0 != id
            invariant
                n == self.queue@.len(),
                self.queue@ == old(self).queue@,
                0 <= i <= n,
                position(self.queue@, id, 0) == position(self.queue@, id, i as int),
            decreases n - i,
        {
            i = i + 1;
        }
        proof {
            lemma_position(self.queue@, id, 0);
            assert(self.queue@.subrange(0, n as int) =~= self.queue@);
        }
        if i < n {
            match self.queue.remove(i) {
                Some(waiter) => Some(unblock_one_task(id, waiter.1, resched)),
                None => None,
            }
        } else {
            None
        }
    }

    /// Moves up to `count` tasks from the front of this queue to the end of
    /// `target`, in their order and without waking them. Returns the number
    /// of tasks moved: `count`, or all there are where they are fewer.
    pub fn requeue(&mut self, count: usize, target: &mut WaitQueue<T>) -> (r: usize)
        ensures
            r == moved(count, old(self)@.len()),
            final(self)@ == old(self)@.subrange(r as int, old(self)@.len() as int),
            final(target)@ == old(target)@ + old(self)@.subrange(0, r as int),
            final(self)@.len() + final(target)@.len() == old(self)@.len() + old(target)@.len(),
    {
        let n: usize = self.queue.len();
        let count: usize = if count <= n {
            count
        } else {
            n
        };
        let mut i: usize = 0;
        while i < count
            invariant
                count <= old(self)@.len(),
                0 <= i <= count,
                self@ == old(self)@.subrange(i as int, old(self)@.len() as int),
                target@ == old(target)@ + old(self)@.subrange(0, i as int),
            decreases count - i,
        {
            match self.queue.pop_front() {
                Some(waiter) => {
                    target.queue.push_back(waiter);
                },
                None => {},
            }
            assert(self@ =~= old(self)@.subrange(i + 1, old(self)@.len() as int));
            assert(target@ =~= old(target)@ + old(self)@.subrange(0, i + 1));
            i = i + 1;
        }
        count
    }
}

} // verus!
