//! The completely fair scheduler: tasks are picked in ascending order of
//! their virtual runtime, which grows with every tick at a rate set by the
//! task's nice value.

use crate::ordered::{
    ascending, inserted, key_le, lemma_inserted, lemma_upper_bound, upper_bound, Key, OrderedQueue,
};
use crate::table::{live, released, retained, Entry, TaskTable, DANGLING};
use core::marker::PhantomData;
use crossbeam::atomic::AtomicCell;
use vstd::prelude::*;

verus! {

/// The highest nice value.
pub const NICE_RANGE_POS: usize = 19;

/// The lowest nice value, negated.
pub const NICE_RANGE_NEG: usize = 20;

/// The weight of the neutral nice value, zero.
pub const NEUTRAL_WEIGHT: isize = 1024;

/// The weights of the nice values `0..=19`, by nice value.
pub const NICE2WEIGHT_POS: [isize; 20] = [
    1024, 820, 655, 526, 423, 335, 272, 215, 172, 137, 110, 87, 70, 56, 45, 36, 29, 23, 18, 15,
];

/// The weights of the nice values `0..=-20`, by negated nice value.
pub const NICE2WEIGHT_NEG: [isize; 21] = [
    1024, 1277, 1586, 1991, 2501, 3121, 3906, 4904, 6100, 7620, 9548, 11916, 14949, 18705, 23254,
    29154, 36291, 46273, 56483, 71755, 88761,
];

/// Whether `nice` is a nice value: `-20..=19`.
pub open spec fn valid_nice(nice: int) -> bool {
    -20 <= nice <= 19
}

/// The weight of a nice value, looked up in the two tables.
pub open spec fn weight_of(nice: int) -> int
    recommends
        valid_nice(nice),
{
    if nice >= 0 {
        NICE2WEIGHT_POS@[nice] as int
    } else {
        NICE2WEIGHT_NEG@[-nice] as int
    }
}

/// The quotient of `a` by a positive `b`, rounded towards zero.
pub open spec fn trunc_div(a: int, b: int) -> int
    recommends
        b > 0,
{
    if a >= 0 {
        a / b
    } else {
        -((-a) / b)
    }
}

/// The virtual runtime that `delta` ticks amount to at weight `weight`.
pub open spec fn scaled(delta: int, weight: int) -> int
    recommends
        weight > 0,
{
    trunc_div(delta * 1024, weight)
}

/// The effective virtual runtime of a task: its baseline plus the ticks
/// since, taken as they are at nice zero and scaled by the weight otherwise.
pub open spec fn effective_vruntime(init_vruntime: int, delta: int, nice: int) -> int
    recommends
        valid_nice(nice),
{
    if nice == 0 {
        init_vruntime + delta
    } else {
        init_vruntime + scaled(delta, weight_of(nice))
    }
}

/// Whether the effective virtual runtime can be computed in `isize`.
pub open spec fn vruntime_fits(init_vruntime: int, delta: int, nice: int) -> bool {
    if nice == 0 {
        isize::MIN <= init_vruntime + delta <= isize::MAX
    } else {
        &&& isize::MIN <= delta * 1024 <= isize::MAX
        &&& isize::MIN <= init_vruntime + scaled(delta, weight_of(nice)) <= isize::MAX
    }
}

/// The integer after `x` in `isize`, wrapping at the upper end.
pub open spec fn wrapping_next(x: int) -> int {
    if x >= isize::MAX {
        isize::MIN as int
    } else {
        x + 1
    }
}

/// The weights of the nice values, one by one.
pub proof fn lemma_weights()
    ensures
        weight_of(0) == 1024,
        weight_of(1) == 820,
        weight_of(2) == 655,
        weight_of(3) == 526,
        weight_of(4) == 423,
        weight_of(5) == 335,
        weight_of(6) == 272,
        weight_of(7) == 215,
        weight_of(8) == 172,
        weight_of(9) == 137,
        weight_of(10) == 110,
        weight_of(11) == 87,
        weight_of(12) == 70,
        weight_of(13) == 56,
        weight_of(14) == 45,
        weight_of(15) == 36,
        weight_of(16) == 29,
        weight_of(17) == 23,
        weight_of(18) == 18,
        weight_of(19) == 15,
        weight_of(-1) == 1277,
        weight_of(-2) == 1586,
        weight_of(-3) == 1991,
        weight_of(-4) == 2501,
        weight_of(-5) == 3121,
        weight_of(-6) == 3906,
        weight_of(-7) == 4904,
        weight_of(-8) == 6100,
        weight_of(-9) == 7620,
        weight_of(-10) == 9548,
        weight_of(-11) == 11916,
        weight_of(-12) == 14949,
        weight_of(-13) == 18705,
        weight_of(-14) == 23254,
        weight_of(-15) == 29154,
        weight_of(-16) == 36291,
        weight_of(-17) == 46273,
        weight_of(-18) == 56483,
        weight_of(-19) == 71755,
        weight_of(-20) == 88761,
{
}

/// The weight falls as the nice value rises.
pub proof fn lemma_weight_decreasing(low: int, high: int)
    requires
        valid_nice(low),
        valid_nice(high),
        low < high,
    ensures
        weight_of(low) > weight_of(high),
{
    lemma_weights();
}

/// Below nice zero the weight is above the neutral weight, and above nice
/// zero it is below it.
pub proof fn lemma_weight_sides(nice: int)
    requires
        valid_nice(nice),
    ensures
        nice < 0 ==> weight_of(nice) > 1024,
        nice > 0 ==> 0 < weight_of(nice) < 1024,
        nice == 0 ==> weight_of(nice) == 1024,
{
    lemma_weights();
}

/// A task below nice zero runs up virtual runtime strictly slower than a
/// task at nice zero does over the same ticks.
pub proof fn lemma_negative_nice_slower(init_vruntime: int, delta: int, nice: int)
    requires
        -20 <= nice < 0,
        delta >= 1,
    ensures
        effective_vruntime(init_vruntime, delta, nice) < effective_vruntime(
            init_vruntime,
            delta,
            0,
        ),
{
    lemma_weight_sides(nice);
    let w = weight_of(nice);
    assert((delta * 1024) / w < delta) by (nonlinear_arith)
        requires
            w > 1024,
            delta >= 1,
    ;
}

/// A task above nice zero never runs up virtual runtime slower than a task
/// at nice zero does over the same ticks, and strictly faster once the
/// ticks outweigh the rounding.
pub proof fn lemma_positive_nice_faster(init_vruntime: int, delta: int, nice: int)
    requires
        0 < nice <= 19,
        delta >= 1,
    ensures
        effective_vruntime(init_vruntime, delta, nice) >= effective_vruntime(
            init_vruntime,
            delta,
            0,
        ),
        delta * (1024 - weight_of(nice)) >= weight_of(nice) ==> effective_vruntime(
            init_vruntime,
            delta,
            nice,
        ) > effective_vruntime(init_vruntime, delta, 0),
{
    lemma_weight_sides(nice);
    let w = weight_of(nice);
    assert((delta * 1024) / w >= delta) by (nonlinear_arith)
        requires
            0 < w < 1024,
            delta >= 1,
    ;
    if delta * (1024 - w) >= w {
        assert((delta * 1024) / w > delta) by (nonlinear_arith)
            requires
                0 < w < 1024,
                delta >= 1,
                delta * (1024 - w) >= w,
        ;
    }
}

/// Over the same ticks a task at nice -5 runs up strictly less virtual
/// runtime than a task at nice zero, and a task at nice 5 strictly more.
pub proof fn lemma_weight_scaling(init_vruntime: int, delta: int)
    requires
        delta >= 1,
    ensures
        effective_vruntime(init_vruntime, delta, -5) < effective_vruntime(init_vruntime, delta, 0),
        effective_vruntime(init_vruntime, delta, 0) < effective_vruntime(init_vruntime, delta, 5),
{
    lemma_weights();
    lemma_negative_nice_slower(init_vruntime, delta, -5);
    lemma_positive_nice_faster(init_vruntime, delta, 5);
}

/// Moving the baseline leaves the effective virtual runtime as it is.
pub proof fn lemma_rebaselined<T>(state: CFSTaskView<T>)
    requires
        valid_nice(state.nice),
    ensures
        state.rebaselined().vruntime() == state.vruntime(),
{
    lemma_weight_sides(state.nice);
}

/// The distance between the least and the greatest virtual runtime among
/// the ready tasks.
pub open spec fn spread<V>(ready: Seq<(Key, V)>) -> int
    recommends
        ascending(ready),
{
    if ready.len() == 0 {
        0
    } else {
        ready.last().0.0 - ready[0].0.0
    }
}

/// The ready queue after one cycle: the task at the front is picked, runs
/// up `run` of virtual runtime, and is put back under the id `id`.
pub open spec fn after_cycle<V>(ready: Seq<(Key, V)>, run: int, id: isize) -> Seq<(Key, V)>
    recommends
        ready.len() > 0,
{
    inserted(ready.drop_first(), ((ready[0].0.0 + run) as isize, id), ready[0].1)
}

/// Fairness: a cycle of pick, run and put back keeps every task ready, and
/// the virtual runtimes of the ready tasks no further apart than they were
/// or than the picked task ran, whichever is more.
pub proof fn lemma_fair_cycle<V>(ready: Seq<(Key, V)>, run: int, id: isize)
    requires
        ascending(ready),
        ready.len() > 0,
        run >= 0,
        ready[0].0.0 + run <= isize::MAX,
    ensures
        ascending(after_cycle(ready, run, id)),
        after_cycle(ready, run, id).len() == ready.len(),
        spread(after_cycle(ready, run, id)) <= spread(ready) || spread(after_cycle(ready, run, id))
            <= run,
        after_cycle(ready, run, id)[0].0.0 >= ready[0].0.0,
{
    let rest = ready.drop_first();
    let key = ((ready[0].0.0 + run) as isize, id);
    let p = upper_bound(rest, key, 0);
    assert forall|i: int, j: int| 0 <= i <= j < rest.len() implies key_le(
        #[trigger] rest[i].0,
        #[trigger] rest[j].0,
    ) by {
        assert(key_le(ready[i + 1].0, ready[j + 1].0));
    }
    lemma_inserted(rest, key, ready[0].1);
    lemma_upper_bound(rest, key, 0);
    let next = after_cycle(ready, run, id);
    if rest.len() > 0 {
        assert(key_le(ready[0].0, ready[1].0));
        assert(key_le(ready[0].0, ready[ready.len() - 1].0));
        assert(rest[0] == ready[1]);
        assert(rest.last() == ready.last());
    }
}

/// Alternation: of two ready tasks, the one that ran stands behind the
/// other afterwards, unless its new key still comes before the other's.
pub proof fn lemma_fair_alternation<V>(ready: Seq<(Key, V)>, run: int, id: isize)
    requires
        ascending(ready),
        ready.len() == 2,
        run >= 0,
        ready[0].0.0 + run <= isize::MAX,
        key_le(ready[1].0, ((ready[0].0.0 + run) as isize, id)),
    ensures
        after_cycle(ready, run, id)[0] == ready[1],
        after_cycle(ready, run, id)[1] == (((ready[0].0.0 + run) as isize, id), ready[0].1),
{
    let rest = ready.drop_first();
    let key = ((ready[0].0.0 + run) as isize, id);
    assert(rest[0] == ready[1]);
    assert(upper_bound(rest, key, 0) == upper_bound(rest, key, 1));
    assert(upper_bound(rest, key, 1) == 1);
}

/// The scheduling state of a task, as mathematical integers.
pub struct CFSTaskView<T> {
    pub inner: T,
    pub init_vruntime: int,
    pub delta: int,
    pub nice: int,
    pub id: int,
}

impl<T> CFSTaskView<T> {
    /// The effective virtual runtime in this state.
    pub open spec fn vruntime(self) -> int {
        effective_vruntime(self.init_vruntime, self.delta, self.nice)
    }

    /// Whether the effective virtual runtime can be computed in `isize`.
    pub open spec fn fits(self) -> bool {
        vruntime_fits(self.init_vruntime, self.delta, self.nice)
    }

    /// This state with the baseline moved to the effective virtual runtime and
    /// no ticks since.
    pub open spec fn rebaselined(self) -> Self {
        CFSTaskView { init_vruntime: self.vruntime(), delta: 0, ..self }
    }
}

/// A task with the state that the completely fair scheduler keeps for it.
#[derive(Debug)]
pub struct CFSTask<T> {
    inner: T,
    init_vruntime: isize,
    delta: isize,
    nice: isize,
    id: isize,
}

impl<T> View for CFSTask<T> {
    type V = CFSTaskView<T>;

    closed spec fn view(&self) -> CFSTaskView<T> {
        CFSTaskView {
            inner: self.inner,
            init_vruntime: self.init_vruntime as int,
            delta: self.delta as int,
            nice: self.nice as int,
            id: self.id as int,
        }
    }
}

impl<T> CFSTask<T> {
    /// The nice value is one of `-20..=19`.
    #[verifier::type_invariant]
    spec fn wf(&self) -> bool {
        valid_nice(self.nice as int)
    }

    /// A task at nice zero with no virtual runtime.
    pub fn new(inner: T) -> (r: Self)
        ensures
            r@ == (CFSTaskView { inner, init_vruntime: 0, delta: 0, nice: 0, id: 0 }),
    {
        CFSTask { inner, init_vruntime: 0, delta: 0, nice: 0, id: 0 }
    }

    /// The weight of the task's nice value.
    pub fn get_weight(&self) -> (r: isize)
        ensures
            r == weight_of(self@.nice),
            15 <= r <= 88761,
            valid_nice(self@.nice),
    {
        proof {
            use_type_invariant(self);
        }
        let nice: isize = self.nice;
        if nice >= 0 {
            NICE2WEIGHT_POS[nice as usize]
        } else {
            NICE2WEIGHT_NEG[(-nice) as usize]
        }
    }

    /// The tie-break key of the task.
    pub fn get_id(&self) -> (r: isize)
        ensures
            r == self@.id,
    {
        self.id
    }

    /// The nice value of the task.
    pub fn get_nice(&self) -> (r: isize)
        ensures
            r == self@.nice,
            valid_nice(r as int),
    {
        proof {
            use_type_invariant(self);
        }
        self.nice
    }

    /// The effective virtual runtime of the task.
    pub fn get_vruntime(&self) -> (r: isize)
        requires
            self@.fits(),
        ensures
            r == self@.vruntime(),
    {
        if self.nice == 0 {
            self.init_vruntime + self.delta
        } else {
            let weight: isize = self.get_weight();
            self.init_vruntime + self.delta * 1024 / weight
        }
    }

    /// Whether `get_vruntime` can be called: the computation stays in `isize`.
    pub fn vruntime_in_range(&self) -> (r: bool)
        ensures
            r == self@.fits(),
    {
        if self.nice == 0 {
            self.init_vruntime.checked_add(self.delta).is_some()
        } else {
            let weight: isize = self.get_weight();
            match self.delta.checked_mul(1024) {
                Some(m) => self.init_vruntime.checked_add(m / weight).is_some(),
                None => false,
            }
        }
    }

    /// Whether `get_vruntime` can be called after one more tick.
    pub fn vruntime_in_range_after_tick(&self) -> (r: bool)
        ensures
            r == (CFSTaskView { delta: wrapping_next(self@.delta), ..self@ }).fits(),
    {
        let delta: isize = self.delta.wrapping_add(1);
        if self.nice == 0 {
            self.init_vruntime.checked_add(delta).is_some()
        } else {
            let weight: isize = self.get_weight();
            match delta.checked_mul(1024) {
                Some(m) => self.init_vruntime.checked_add(m / weight).is_some(),
                None => false,
            }
        }
    }

    /// Sets the baseline of the virtual runtime.
    pub fn set_vruntime(&mut self, v: isize)
        ensures
            final(self)@ == (CFSTaskView { init_vruntime: v as int, ..old(self)@ }),
    {
        proof {
            use_type_invariant(&*self);
        }
        self.init_vruntime = v;
    }

    /// Moves the baseline to the effective virtual runtime and forgets the
    /// ticks since, so that the effective virtual runtime stays what it is.
    pub fn rebaseline(&mut self)
        requires
            old(self)@.fits(),
        ensures
            final(self)@ == old(self)@.rebaselined(),
            final(self)@.vruntime() == old(self)@.vruntime(),
            final(self)@.fits(),
    {
        proof {
            use_type_invariant(&*self);
            lemma_rebaselined(self@);
        }
        let current: isize = self.get_vruntime();
        self.init_vruntime = current;
        self.delta = 0;
    }

    /// Gives the task the nice value `nice`. The virtual runtime run up so
    /// far becomes the baseline, so that the new weight counts from now on.
    pub fn set_priority(&mut self, nice: isize)
        requires
            old(self)@.fits(),
            valid_nice(nice as int),
        ensures
            final(self)@ == (CFSTaskView { nice: nice as int, ..old(self)@.rebaselined() }),
    {
        self.rebaseline();
        self.nice = nice;
    }

    /// Sets the tie-break key of the task.
    pub fn set_id(&mut self, id: isize)
        ensures
            final(self)@ == (CFSTaskView { id: id as int, ..old(self)@ }),
    {
        proof {
            use_type_invariant(&*self);
        }
        self.id = id;
    }

    /// Counts one tick of run time, wrapping at the end of `isize`.
    pub fn task_tick(&mut self)
        ensures
            final(self)@ == (CFSTaskView { delta: wrapping_next(old(self)@.delta), ..old(self)@ }),
    {
        proof {
            use_type_invariant(&*self);
        }
        self.delta = self.delta.wrapping_add(1);
    }

    /// The task that this state is kept for.
    pub fn inner(&self) -> (r: &T)
        ensures
            *r == self@.inner,
    {
        &self.inner
    }
}

/// A capability to a task of the completely fair scheduler: the number of
/// the task's slot in the table. Each capability stands for one unit of the
/// task's strong count, so it is neither copied nor forgotten: `clone` makes
/// another and `drop` gives one up.
#[derive(Debug)]
pub struct CFSTaskRef<T> {
    slot: usize,
    kind: PhantomData<T>,
}

/// A handle to a task that does not count towards its strong count.
#[derive(Debug)]
pub struct WeakCFSTaskRef<T> {
    slot: usize,
    kind: PhantomData<T>,
}

impl<T> CFSTaskRef<T> {
    /// The slot that the capability points to.
    pub closed spec fn spec_slot(&self) -> usize {
        self.slot
    }

    /// A capability to the task in slot `inner`. The count of the task is
    /// left alone: the caller accounts for the capability.
    pub fn new(inner: usize) -> (r: Self)
        ensures
            r.slot() == inner,
    {
        CFSTaskRef { slot: inner, kind: PhantomData }
    }

    /// The slot that the capability points to.
    #[verifier::when_used_as_spec(spec_slot)]
    pub fn slot(&self) -> (r: usize)
        ensures
            r == self.slot(),
    {
        self.slot
    }

    /// Whether both capabilities point to the same task.
    pub fn ptr_eq(&self, other: &Self) -> (r: bool)
        ensures
            r == (self.slot() == other.slot()),
    {
        self.slot == other.slot
    }

    /// The number of capabilities that keep the task alive.
    pub fn strong_count(&self, tasks: &TaskTable<CFSTask<T>>) -> (r: usize)
        requires
            tasks.is_live(self.slot()),
        ensures
            r == tasks.strong(self.slot()),
    {
        tasks.strong_count(self.slot)
    }

    /// A handle to the same task that does not keep it alive.
    pub fn weak_clone(&self) -> (r: WeakCFSTaskRef<T>)
        ensures
            r.slot() == self.slot(),
    {
        WeakCFSTaskRef { slot: self.slot, kind: PhantomData }
    }

    /// Whether this is the dangling capability, which points to no task.
    pub fn is_empty(&self) -> (r: bool)
        ensures
            r == (self.slot() == DANGLING),
    {
        self.slot == DANGLING
    }

    /// One more capability to the same task: its strong count rises by one.
    pub fn clone(&self, tasks: &mut TaskTable<CFSTask<T>>) -> (r: Self)
        requires
            old(tasks).is_live(self.slot()),
            old(tasks).strong(self.slot()) < usize::MAX,
        ensures
            r.slot() == self.slot(),
            final(tasks)@ == retained(old(tasks)@, self.slot()),
            final(tasks).strong(self.slot()) == old(tasks).strong(self.slot()) + 1,
            old(tasks).wf() ==> final(tasks).wf(),
    {
        tasks.retain(self.slot);
        CFSTaskRef { slot: self.slot, kind: PhantomData }
    }

    /// Gives the capability up: the strong count of its task falls by one,
    /// and the task leaves the table with its last capability.
    pub fn drop(self, tasks: &mut TaskTable<CFSTask<T>>)
        ensures
            final(tasks)@ == released(old(tasks)@, self.slot()),
            old(tasks).wf() ==> final(tasks).wf(),
    {
        let _ = tasks.release(self.slot);
    }

    /// The task that the capability points to.
    pub fn deref<'a>(&self, tasks: &'a TaskTable<CFSTask<T>>) -> (r: &'a CFSTask<T>)
        requires
            tasks.is_live(self.slot()),
        ensures
            *r == tasks.task(self.slot()),
    {
        tasks.get(self.slot)
    }
}

impl<T> WeakCFSTaskRef<T> {
    /// The slot that the handle points to.
    pub closed spec fn spec_slot(&self) -> usize {
        self.slot
    }

    /// A weak handle to the task in slot `inner`.
    pub fn new(inner: usize) -> (r: Self)
        ensures
            r.slot() == inner,
    {
        WeakCFSTaskRef { slot: inner, kind: PhantomData }
    }

    /// The slot that the handle points to.
    #[verifier::when_used_as_spec(spec_slot)]
    pub fn slot(&self) -> (r: usize)
        ensures
            r == self.slot(),
    {
        self.slot
    }

    /// The task that the handle points to, which must still be in the table.
    pub fn deref<'a>(&self, tasks: &'a TaskTable<CFSTask<T>>) -> (r: &'a CFSTask<T>)
        requires
            tasks.is_live(self.slot()),
        ensures
            *r == tasks.task(self.slot()),
    {
        tasks.get(self.slot)
    }
}

/// The table `after` is the table `before` but for the task in `slot`, which
/// is now in the state `state`. Its strong count is as before.
pub open spec fn task_changed<T>(
    before: Seq<Option<Entry<CFSTask<T>>>>,
    after: Seq<Option<Entry<CFSTask<T>>>>,
    slot: usize,
    state: CFSTaskView<T>,
) -> bool {
    &&& live(before, slot)
    &&& live(after, slot)
    &&& after.len() == before.len()
    &&& forall|i: int| 0 <= i < before.len() && i != slot ==> after[i] == before[i]
    &&& after[slot as int].unwrap().strong == before[slot as int].unwrap().strong
    &&& after[slot as int].unwrap().task@ == state
}

/// The table `after` is the table `before` once the task in `slot` has come
/// into the state `state` and one capability to it has been given up.
pub open spec fn task_changed_and_released<T>(
    before: Seq<Option<Entry<CFSTask<T>>>>,
    after: Seq<Option<Entry<CFSTask<T>>>>,
    slot: usize,
    state: CFSTaskView<T>,
) -> bool {
    &&& live(before, slot)
    &&& after.len() == before.len()
    &&& forall|i: int| 0 <= i < before.len() && i != slot ==> after[i] == before[i]
    &&& if before[slot as int].unwrap().strong > 1 {
        &&& live(after, slot)
        &&& after[slot as int].unwrap().strong == before[slot as int].unwrap().strong - 1
        &&& after[slot as int].unwrap().task@ == state
    } else {
        after[slot as int].is_none()
    }
}

/// The least virtual runtime among the entries of a ready queue, if any.
pub open spec fn least_vruntime<V>(ready: Seq<(Key, V)>) -> Option<isize> {
    if ready.len() > 0 {
        Some(ready[0].0.0)
    } else {
        None
    }
}

/// `crossbeam::atomic::AtomicCell`, carried as an opaque value.
#[verifier::external_type_specification]
#[verifier::external_body]
#[verifier::reject_recursive_types(T)]
pub struct ExAtomicCell<T>(AtomicCell<T>);

/// The value that a cell of `crossbeam` holds: the one last stored in it.
pub uninterp spec fn cell_value(cell: AtomicCell<Option<isize>>) -> Option<isize>;

/// `AtomicCell::new`: a cell that holds `value`.
#[verifier::external_body]
fn cell_new(value: Option<isize>) -> (cell: AtomicCell<Option<isize>>)
    ensures
        cell_value(cell) == value,
{
    AtomicCell::new(value)
}

/// `AtomicCell::load`: the value that the cell holds.
#[verifier::external_body]
fn cell_load(cell: &AtomicCell<Option<isize>>) -> (value: Option<isize>)
    ensures
        value == cell_value(*cell),
{
    cell.load()
}

/// `AtomicCell::store`: the cell holds `value` from now on. The wrapper asks
/// for the cell alone, so that no other store can come between.
#[verifier::external_body]
fn cell_store(cell: &mut AtomicCell<Option<isize>>, value: Option<isize>)
    ensures
        cell_value(*final(cell)) == value,
{
    cell.store(value)
}

/// The completely fair scheduler: a ready queue in ascending order of
/// `(virtual runtime, id)`, the floor that new tasks start from, and the
/// counter that ids come from.
pub struct CFScheduler<T, const CAPACITY: usize> {
    ready_queue: OrderedQueue<CFSTaskRef<T>, CAPACITY>,
    min_vruntime: AtomicCell<Option<isize>>,
    id_pool: isize,
}

impl<T, const CAPACITY: usize> CFScheduler<T, CAPACITY> {
    /// The ready tasks under their keys, the next one to run first.
    pub closed spec fn ready(&self) -> Seq<(Key, CFSTaskRef<T>)> {
        self.ready_queue@
    }

    /// The floor: the virtual runtime that the next new task starts from.
    pub closed spec fn floor(&self) -> Option<isize> {
        cell_value(self.min_vruntime)
    }

    /// The id that the next task to enter the ready queue gets.
    pub closed spec fn next_id(&self) -> isize {
        self.id_pool
    }

    /// The baseline that a task added now would get: the floor, or zero
    /// where there is none yet.
    pub open spec fn entry_vruntime(&self) -> isize {
        match self.floor() {
            Some(v) => v,
            None => 0,
        }
    }

    /// A scheduler with no ready task, no floor, and ids from zero.
    pub fn new() -> (r: Self)
        ensures
            r.ready() == Seq::<(Key, CFSTaskRef<T>)>::empty(),
            r.floor() == None::<isize>,
            r.next_id() == 0,
    {
        CFScheduler { ready_queue: OrderedQueue::new(), min_vruntime: cell_new(None), id_pool: 0 }
    }

    /// The name of the policy.
    pub fn scheduler_name() -> (r: &'static str)
        ensures
            r@ == "Completely Fair"@,
    {
        "Completely Fair"
    }

    /// Nothing to set up: the scheduler stays as it is.
    pub fn init(&mut self)
        ensures
            final(self).ready() == old(self).ready(),
            final(self).floor() == old(self).floor(),
            final(self).next_id() == old(self).next_id(),
    {
    }

    /// The number of ready tasks.
    pub fn len(&self) -> (r: usize)
        ensures
            r == self.ready().len(),
            r <= CAPACITY,
    {
        self.ready_queue.len()
    }

    /// The floor: the virtual runtime that the next new task starts from.
    pub fn min_vruntime(&self) -> (r: Option<isize>)
        ensures
            r == self.floor(),
    {
        cell_load(&self.min_vruntime)
    }

    /// Hands out the next id; the counter wraps at the end of `isize`.
    fn fresh_id(&mut self) -> (id: isize)
        ensures
            id == old(self).next_id(),
            final(self).next_id() == wrapping_next(old(self).next_id() as int),
            final(self).ready() == old(self).ready(),
            final(self).floor() == old(self).floor(),
    {
        let id: isize = self.id_pool;
        self.id_pool = id.wrapping_add(1);
        id
    }

    /// Puts `task` into the ready queue under `key`. A full queue stays as
    /// it is, and the capability is given up.
    fn enqueue(&mut self, tasks: &mut TaskTable<CFSTask<T>>, key: Key, task: CFSTaskRef<T>)
        ensures
            ascending(final(self).ready()),
            final(self).next_id() == old(self).next_id(),
            final(self).floor() == old(self).floor(),
            old(self).ready().len() < CAPACITY ==> final(self).ready() == inserted(
                old(self).ready(),
                key,
                task,
            ) && final(tasks)@ == old(tasks)@,
            old(self).ready().len() >= CAPACITY ==> final(self).ready() == old(self).ready()
                && final(tasks)@ == released(old(tasks)@, task.slot()),
    {
        match self.ready_queue.insert(key, task) {
            Ok(()) => {},
            Err(rejected) => {
                rejected.drop(tasks);
            },
        }
    }

    /// Makes `task` ready. Its baseline becomes the floor, or zero where no
    /// task was ever added, and it gets the next id; it enters the ready
    /// queue under `(baseline, id)`, and the floor becomes the least virtual
    /// runtime in the queue. A full queue stays as it is, and the capability
    /// is given up.
    pub fn add_task(&mut self, tasks: &mut TaskTable<CFSTask<T>>, task: CFSTaskRef<T>)
        requires
            old(tasks).is_live(task.slot()),
        ensures
            final(self).next_id() == wrapping_next(old(self).next_id() as int),
            final(self).floor() == least_vruntime(final(self).ready()),
            old(self).ready().len() < CAPACITY ==> {
                &&& final(self).ready() == inserted(
                    old(self).ready(),
                    (old(self).entry_vruntime(), old(self).next_id()),
                    task,
                )
                &&& task_changed(
                    old(tasks)@,
                    final(tasks)@,
                    task.slot(),
                    CFSTaskView {
                        init_vruntime: old(self).entry_vruntime() as int,
                        id: old(self).next_id() as int,
                        ..old(tasks).task(task.slot())@
                    },
                )
            },
            old(self).ready().len() >= CAPACITY ==> {
                &&& final(self).ready() == old(self).ready()
                &&& task_changed_and_released(
                    old(tasks)@,
                    final(tasks)@,
                    task.slot(),
                    CFSTaskView {
                        init_vruntime: old(self).entry_vruntime() as int,
                        id: old(self).next_id() as int,
                        ..old(tasks).task(task.slot())@
                    },
                )
            },
            ascending(final(self).ready()),
            old(tasks).wf() ==> final(tasks).wf(),
    {
        if cell_load(&self.min_vruntime).is_none() {
            cell_store(&mut self.min_vruntime, Some(0));
        }
        let vruntime: isize = cell_load(&self.min_vruntime).unwrap();
        let taskid: isize = self.fresh_id();
        let state = tasks.get_mut(task.slot);
        state.set_vruntime(vruntime);
        state.set_id(taskid);
        self.enqueue(tasks, (vruntime, taskid), task);
        let least: Option<isize> = match self.ready_queue.first_key_value() {
            Some((key, _)) => Some(key.0),
            None => None,
        };
        cell_store(&mut self.min_vruntime, least);
    }

    /// Takes the task with the least `(virtual runtime, id)` out of the
    /// ready queue, or returns `None` where no task is ready.
    pub fn pick_next_task(&mut self) -> (r: Option<CFSTaskRef<T>>)
        ensures
            final(self).floor() == old(self).floor(),
            final(self).next_id() == old(self).next_id(),
            old(self).ready().len() == 0 ==> r.is_none(),
            old(self).ready().len() == 0 ==> final(self).ready() == old(self).ready(),
            old(self).ready().len() > 0 ==> r == Some(old(self).ready()[0].1),
            old(self).ready().len() > 0 ==> final(self).ready() == old(self).ready().drop_first(),
            ascending(old(self).ready()),
            ascending(final(self).ready()),
            forall|i: int|
                0 <= i < old(self).ready().len() ==> key_le(
                    old(self).ready()[0].0,
                    #[trigger] old(self).ready()[i].0,
                ),
    {
        match self.ready_queue.pop_first() {
            Some((_, v)) => Some(v),
            None => None,
        }
    }

    /// Makes the task that ran last ready again. Its effective virtual
    /// runtime becomes its baseline, it gets the next id, and it enters the
    /// ready queue under `(virtual runtime, id)`. A full queue stays as it
    /// is, and the capability is given up.
    pub fn put_prev_task(
        &mut self,
        tasks: &mut TaskTable<CFSTask<T>>,
        prev: CFSTaskRef<T>,
        _preempt: bool,
    )
        requires
            old(tasks).is_live(prev.slot()),
            old(tasks).task(prev.slot())@.fits(),
        ensures
            final(self).next_id() == wrapping_next(old(self).next_id() as int),
            final(self).floor() == old(self).floor(),
            old(self).ready().len() < CAPACITY ==> {
                &&& final(self).ready() == inserted(
                    old(self).ready(),
                    (old(tasks).task(prev.slot())@.vruntime() as isize, old(self).next_id()),
                    prev,
                )
                &&& task_changed(
                    old(tasks)@,
                    final(tasks)@,
                    prev.slot(),
                    CFSTaskView {
                        id: old(self).next_id() as int,
                        ..old(tasks).task(prev.slot())@.rebaselined()
                    },
                )
            },
            old(self).ready().len() >= CAPACITY ==> {
                &&& final(self).ready() == old(self).ready()
                &&& task_changed_and_released(
                    old(tasks)@,
                    final(tasks)@,
                    prev.slot(),
                    CFSTaskView {
                        id: old(self).next_id() as int,
                        ..old(tasks).task(prev.slot())@.rebaselined()
                    },
                )
            },
            ascending(final(self).ready()),
            old(tasks).wf() ==> final(tasks).wf(),
    {
        let taskid: isize = self.fresh_id();
        let state = tasks.get_mut(prev.slot);
        state.rebaseline();
        state.set_id(taskid);
        let vruntime: isize = state.get_vruntime();
        self.enqueue(tasks, (vruntime, taskid), prev);
    }

    /// Counts one tick for the running task and says whether another task
    /// should run now: some task is ready, and there is no floor or the
    /// running task's effective virtual runtime has passed it.
    pub fn task_tick(&self, tasks: &mut TaskTable<CFSTask<T>>, current: &CFSTaskRef<T>) -> (r:
        bool)
        requires
            old(tasks).is_live(current.slot()),
            self.ready().len() > 0 && self.floor().is_some() ==> (CFSTaskView {
                delta: wrapping_next(old(tasks).task(current.slot())@.delta),
                ..old(tasks).task(current.slot())@
            }).fits(),
        ensures
            task_changed(
                old(tasks)@,
                final(tasks)@,
                current.slot(),
                CFSTaskView {
                    delta: wrapping_next(old(tasks).task(current.slot())@.delta),
                    ..old(tasks).task(current.slot())@
                },
            ),
            r == (self.ready().len() > 0 && (self.floor().is_none() || final(tasks).task(
                current.slot(),
            )@.vruntime() > self.floor().unwrap())),
            old(tasks).wf() ==> final(tasks).wf(),
    {
        let state = tasks.get_mut(current.slot);
        state.task_tick();
        if self.ready_queue.is_empty() {
            return false;
        }
        match cell_load(&self.min_vruntime) {
            None => true,
            Some(floor) => tasks.get(current.slot).get_vruntime() > floor,
        }
    }

    /// Gives `task` the nice value `prio` where that is one of `-20..=19`:
    /// the virtual runtime run up so far becomes the baseline and the new
    /// weight counts from now on. Any other value is refused and nothing
    /// changes.
    pub fn set_priority(
        &self,
        tasks: &mut TaskTable<CFSTask<T>>,
        task: &CFSTaskRef<T>,
        prio: isize,
    ) -> (r: bool)
        requires
            old(tasks).is_live(task.slot()),
            valid_nice(prio as int) ==> old(tasks).task(task.slot())@.fits(),
        ensures
            r == valid_nice(prio as int),
            r ==> task_changed(
                old(tasks)@,
                final(tasks)@,
                task.slot(),
                CFSTaskView { nice: prio as int, ..old(tasks).task(task.slot())@.rebaselined() },
            ),
            !r ==> final(tasks)@ == old(tasks)@,
            old(tasks).wf() ==> final(tasks).wf(),
    {
        if -20 <= prio && prio <= 19 {
            let state = tasks.get_mut(task.slot);
            state.set_priority(prio);
            true
        } else {
            false
        }
    }
}

} // verus!
