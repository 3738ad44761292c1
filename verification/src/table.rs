//! The task table: the store that capabilities point into.
//!
//! A task lives in a slot of the table together with its strong count, the
//! number of capabilities that keep it alive. A capability is the number of a
//! slot; cloning one raises the count, dropping one lowers it, and the slot is
//! vacated when the count would reach zero.

use vstd::prelude::*;

verus! {

/// The slot number that no task ever occupies: the dangling capability.
pub const DANGLING: usize = usize::MAX;

/// An occupied slot: a task and the number of capabilities that keep it alive.
#[derive(Debug)]
pub struct Entry<T> {
    pub task: T,
    pub strong: usize,
}

/// A table of reference-counted tasks, indexed by slot number.
pub struct TaskTable<T> {
    slots: Vec<Option<Entry<T>>>,
}

/// Whether `slot` holds a task in the table state `s`.
pub open spec fn live<T>(s: Seq<Option<Entry<T>>>, slot: usize) -> bool {
    slot < s.len() && s[slot as int].is_some()
}

/// Whether every occupied slot of `s` is kept alive by at least one capability.
pub open spec fn counted<T>(s: Seq<Option<Entry<T>>>) -> bool {
    forall|i: int| 0 <= i < s.len() && (#[trigger] s[i]).is_some() ==> s[i].unwrap().strong >= 1
}

/// The table state after the task in `slot` is replaced by `task`.
pub open spec fn with_task<T>(s: Seq<Option<Entry<T>>>, slot: usize, task: T) -> Seq<
    Option<Entry<T>>,
> {
    s.update(slot as int, Some(Entry { task, strong: s[slot as int].unwrap().strong }))
}

/// The table state after one more capability to `slot` comes into being.
/// Nothing changes when the slot is vacant or its count cannot grow.
pub open spec fn retained<T>(s: Seq<Option<Entry<T>>>, slot: usize) -> Seq<Option<Entry<T>>> {
    if live(s, slot) && s[slot as int].unwrap().strong < usize::MAX {
        let e = s[slot as int].unwrap();
        s.update(slot as int, Some(Entry { task: e.task, strong: (e.strong + 1) as usize }))
    } else {
        s
    }
}

/// The table state after one capability to `slot` is given up: the count
/// falls by one, and the slot is vacated when this was the last capability.
/// Nothing changes when the slot is vacant already.
pub open spec fn released<T>(s: Seq<Option<Entry<T>>>, slot: usize) -> Seq<Option<Entry<T>>> {
    if !live(s, slot) {
        s
    } else if s[slot as int].unwrap().strong > 1 {
        let e = s[slot as int].unwrap();
        s.update(slot as int, Some(Entry { task: e.task, strong: (e.strong - 1) as usize }))
    } else {
        s.update(slot as int, None)
    }
}

/// The task that leaves the table when one capability to `slot` is given up.
pub open spec fn freed<T>(s: Seq<Option<Entry<T>>>, slot: usize) -> Option<T> {
    if live(s, slot) && s[slot as int].unwrap().strong <= 1 {
        Some(s[slot as int].unwrap().task)
    } else {
        None
    }
}

/// The first vacant slot of `s` at or after `from`, or the length of `s`.
pub open spec fn vacant_from<T>(s: Seq<Option<Entry<T>>>, from: int) -> int
    decreases s.len() - from,
{
    if from < 0 || from >= s.len() {
        s.len() as int
    } else if s[from].is_none() {
        from
    } else {
        vacant_from(s, from + 1)
    }
}

/// The table state after `task` is stored in the first vacant slot with a
/// count of one.
pub open spec fn stored<T>(s: Seq<Option<Entry<T>>>, task: T) -> Seq<Option<Entry<T>>> {
    let slot = vacant_from(s, 0);
    if slot < s.len() {
        s.update(slot, Some(Entry { task, strong: 1 }))
    } else {
        s.push(Some(Entry { task, strong: 1 }))
    }
}

/// `retained` applied `n` times.
pub open spec fn retained_n<T>(s: Seq<Option<Entry<T>>>, slot: usize, n: nat) -> Seq<
    Option<Entry<T>>,
>
    decreases n,
{
    if n == 0 {
        s
    } else {
        retained(retained_n(s, slot, (n - 1) as nat), slot)
    }
}

/// `released` applied `n` times.
pub open spec fn released_n<T>(s: Seq<Option<Entry<T>>>, slot: usize, n: nat) -> Seq<
    Option<Entry<T>>,
>
    decreases n,
{
    if n == 0 {
        s
    } else {
        released_n(released(s, slot), slot, (n - 1) as nat)
    }
}

impl<T> View for TaskTable<T> {
    type V = Seq<Option<Entry<T>>>;

    closed spec fn view(&self) -> Seq<Option<Entry<T>>> {
        self.slots@
    }
}

impl<T> TaskTable<T> {
    /// No occupied slot has a count of zero.
    pub open spec fn wf(&self) -> bool {
        counted(self@)
    }

    /// Whether `slot` holds a task.
    pub open spec fn is_live(&self, slot: usize) -> bool {
        live(self@, slot)
    }

    /// The task in `slot`.
    pub open spec fn task(&self, slot: usize) -> T
        recommends
            self.is_live(slot),
    {
        self@[slot as int].unwrap().task
    }

    /// The number of capabilities that keep the task in `slot` alive.
    pub open spec fn strong(&self, slot: usize) -> usize
        recommends
            self.is_live(slot),
    {
        self@[slot as int].unwrap().strong
    }

    /// An empty table.
    pub fn new() -> (r: Self)
        ensures
            r@ == Seq::<Option<Entry<T>>>::empty(),
            r.wf(),
    {
        TaskTable { slots: Vec::new() }
    }

    /// The number of slots, vacant ones included.
    pub fn len(&self) -> (r: usize)
        ensures
            r == self@.len(),
    {
        self.slots.len()
    }

    /// Whether `slot` holds a task.
    pub fn contains(&self, slot: usize) -> (r: bool)
        ensures
            r == self.is_live(slot),
    {
        if slot < self.slots.len() {
            self.slots[slot].is_some()
        } else {
            false
        }
    }

    /// Stores `task` in the first vacant slot, or in a new slot at the end
    /// when none is vacant, with a count of one. Returns the slot.
    pub fn insert(&mut self, task: T) -> (slot: usize)
        ensures
            slot == vacant_from(old(self)@, 0),
            final(self)@ == stored(old(self)@, task),
            old(self).wf() ==> final(self).wf(),
            !old(self).is_live(slot),
            final(self).is_live(slot),
            final(self).task(slot) == task,
            final(self).strong(slot) == 1,
    {
        let n: usize = self.slots.len();
        let mut i: usize = 0;
        while i < n && self.slots[i].is_some()
            invariant
                n == self.slots@.len(),
                self.slots@ == old(self).slots@,
                0 <= i <= n,
                vacant_from(self.slots@, 0) == vacant_from(self.slots@, i as int),
            decreases n - i,
        {
            i = i + 1;
        }
        let entry = Some(Entry { task, strong: 1 });
        if i < n {
            self.slots[i] = entry;
        } else {
            self.slots.push(entry);
        }
        i
    }

    /// The task in `slot`.
    pub fn get(&self, slot: usize) -> (r: &T)
        requires
            self.is_live(slot),
        ensures
            *r == self.task(slot),
    {
        match &self.slots[slot] {
            Some(e) => &e.task,
            None => vstd::pervasive::unreached(),
        }
    }

    /// The task in `slot`, to be changed in place. The count stays as it is.
    pub fn get_mut(&mut self, slot: usize) -> (r: &mut T)
        requires
            old(self).is_live(slot),
        ensures
            *r == old(self).task(slot),
            final(self)@ == with_task(old(self)@, slot, *final(r)),
    {
        match &mut self.slots[slot] {
            Some(e) => &mut e.task,
            None => vstd::pervasive::unreached(),
        }
    }

    /// The strong count of the task in `slot`.
    pub fn strong_count(&self, slot: usize) -> (r: usize)
        requires
            self.is_live(slot),
        ensures
            r == self.strong(slot),
            self.wf() ==> r >= 1,
    {
        match &self.slots[slot] {
            Some(e) => e.strong,
            None => 0,
        }
    }

    /// Counts one more capability to `slot`.
    pub fn retain(&mut self, slot: usize)
        requires
            old(self).is_live(slot),
            old(self).strong(slot) < usize::MAX,
        ensures
            final(self)@ == retained(old(self)@, slot),
            old(self).wf() ==> final(self).wf(),
    {
        match &mut self.slots[slot] {
            Some(e) => {
                e.strong = e.strong + 1;
            },
            None => {},
        }
    }

    /// Gives up one capability to `slot`. When it was the last one the slot
    /// is vacated and its task handed back; a vacant slot is left alone.
    pub fn release(&mut self, slot: usize) -> (r: Option<T>)
        ensures
            final(self)@ == released(old(self)@, slot),
            r == freed(old(self)@, slot),
            old(self).wf() ==> final(self).wf(),
    {
        if slot >= self.slots.len() {
            return None;
        }
        let last: bool = match &self.slots[slot] {
            Some(e) => e.strong <= 1,
            None => false,
        };
        if last {
            let taken = self.slots[slot].take();
            match taken {
                Some(e) => Some(e.task),
                None => None,
            }
        } else {
            match &mut self.slots[slot] {
                Some(e) => {
                    e.strong = e.strong - 1;
                },
                None => {},
            }
            None
        }
    }
}

/// A retained slot is live, holds the same task, and counts one more.
pub proof fn lemma_retained<T>(s: Seq<Option<Entry<T>>>, slot: usize)
    requires
        live(s, slot),
        s[slot as int].unwrap().strong < usize::MAX,
    ensures
        live(retained(s, slot), slot),
        retained(s, slot).len() == s.len(),
        retained(s, slot)[slot as int].unwrap().task == s[slot as int].unwrap().task,
        retained(s, slot)[slot as int].unwrap().strong == s[slot as int].unwrap().strong + 1,
        forall|i: int| 0 <= i < s.len() && i != slot ==> retained(s, slot)[i] == s[i],
        counted(s) ==> counted(retained(s, slot)),
{
}

/// Giving up a capability right after making one leaves the table as it was.
pub proof fn lemma_release_undoes_retain<T>(s: Seq<Option<Entry<T>>>, slot: usize)
    requires
        counted(s),
        live(s, slot),
        s[slot as int].unwrap().strong < usize::MAX,
    ensures
        released(retained(s, slot), slot) == s,
{
    assert(released(retained(s, slot), slot) =~= s);
}

/// After `n` more capabilities to a live slot the count is `n` higher, and
/// the task and every other slot are as before.
pub proof fn lemma_retained_n<T>(s: Seq<Option<Entry<T>>>, slot: usize, n: nat)
    requires
        counted(s),
        live(s, slot),
        s[slot as int].unwrap().strong + n <= usize::MAX,
    ensures
        counted(retained_n(s, slot, n)),
        live(retained_n(s, slot, n), slot),
        retained_n(s, slot, n).len() == s.len(),
        retained_n(s, slot, n)[slot as int].unwrap().task == s[slot as int].unwrap().task,
        retained_n(s, slot, n)[slot as int].unwrap().strong == s[slot as int].unwrap().strong + n,
        forall|i: int| 0 <= i < s.len() && i != slot ==> retained_n(s, slot, n)[i] == s[i],
    decreases n,
{
    if n > 0 {
        lemma_retained_n(s, slot, (n - 1) as nat);
        lemma_retained(retained_n(s, slot, (n - 1) as nat), slot);
    }
}

/// Cloning a capability `n` times and dropping `n` capabilities to the same
/// task returns the table, and with it the strong count, to what it was.
pub proof fn lemma_clone_drop_round_trip<T>(s: Seq<Option<Entry<T>>>, slot: usize, n: nat)
    requires
        counted(s),
        live(s, slot),
        s[slot as int].unwrap().strong + n <= usize::MAX,
    ensures
        released_n(retained_n(s, slot, n), slot, n) == s,
    decreases n,
{
    if n > 0 {
        let before = retained_n(s, slot, (n - 1) as nat);
        lemma_retained_n(s, slot, (n - 1) as nat);
        lemma_release_undoes_retain(before, slot);
        lemma_clone_drop_round_trip(s, slot, (n - 1) as nat);
    }
}

/// The slot that `stored` fills was vacant, lies within the table or right
/// at its end, and no slot before it was vacant.
pub proof fn lemma_vacant_from<T>(s: Seq<Option<Entry<T>>>, from: int)
    requires
        0 <= from <= s.len(),
    ensures
        from <= vacant_from(s, from) <= s.len(),
        vacant_from(s, from) < s.len() ==> s[vacant_from(s, from)].is_none(),
        forall|i: int| from <= i < vacant_from(s, from) ==> (#[trigger] s[i]).is_some(),
    decreases s.len() - from,
{
    if from < s.len() && s[from].is_some() {
        lemma_vacant_from(s, from + 1);
    }
}

} // verus!
