//! A bounded queue that hands out its entries in ascending order of their
//! keys. A key is a pair of integers, compared by the first and then by the
//! second; entries with equal keys leave in the order in which they came.

use vstd::prelude::*;

verus! {

/// The key of an entry: compared by the first part, then by the second.
pub type Key = (isize, isize);

/// Whether key `a` comes before key `b` or equals it.
pub open spec fn key_le(a: Key, b: Key) -> bool {
    a.0 < b.0 || (a.0 == b.0 && a.1 <= b.1)
}

/// Whether the keys of `s` never fall from one entry to the next.
pub open spec fn ascending<V>(s: Seq<(Key, V)>) -> bool {
    forall|i: int, j: int| 0 <= i <= j < s.len() ==> key_le(#[trigger] s[i].0, #[trigger] s[j].0)
}

/// The first position at or after `from` whose key comes after `key`, or the
/// length of `s`: where an entry with `key` goes, behind its equals.
pub open spec fn upper_bound<V>(s: Seq<(Key, V)>, key: Key, from: int) -> int
    decreases s.len() - from,
{
    if from < 0 || from >= s.len() {
        s.len() as int
    } else if key_le(s[from].0, key) {
        upper_bound(s, key, from + 1)
    } else {
        from
    }
}

/// The entries after `(key, value)` has taken its place among them.
pub open spec fn inserted<V>(s: Seq<(Key, V)>, key: Key, value: V) -> Seq<(Key, V)> {
    s.insert(upper_bound(s, key, 0), (key, value))
}

/// The place that `upper_bound` finds lies within `from..=s.len()`; every
/// key from `from` up to it is at most `key`, and the key at it is not.
pub proof fn lemma_upper_bound<V>(s: Seq<(Key, V)>, key: Key, from: int)
    requires
        0 <= from <= s.len(),
    ensures
        from <= upper_bound(s, key, from) <= s.len(),
        forall|i: int| from <= i < upper_bound(s, key, from) ==> key_le(#[trigger] s[i].0, key),
        upper_bound(s, key, from) < s.len() ==> !key_le(s[upper_bound(s, key, from)].0, key),
    decreases s.len() - from,
{
    if from < s.len() && key_le(s[from].0, key) {
        lemma_upper_bound(s, key, from + 1);
    }
}

/// Inserting keeps the keys in ascending order, adds one entry, and leaves
/// the new entry behind every entry whose key is at most its own.
pub proof fn lemma_inserted<V>(s: Seq<(Key, V)>, key: Key, value: V)
    requires
        ascending(s),
    ensures
        ascending(inserted(s, key, value)),
        inserted(s, key, value).len() == s.len() + 1,
        inserted(s, key, value)[upper_bound(s, key, 0)] == (key, value),
        inserted(s, key, value).to_multiset() == s.to_multiset().insert((key, value)),
{
    let p = upper_bound(s, key, 0);
    let t = inserted(s, key, value);
    lemma_upper_bound(s, key, 0);
    assert forall|i: int, j: int| 0 <= i <= j < t.len() implies key_le(
        #[trigger] t[i].0,
        #[trigger] t[j].0,
    ) by {
        if i < p && j > p {
            assert(key_le(s[i].0, key));
            assert(key_le(s[p].0, s[j - 1].0));
        } else if i == p && j > p {
            assert(key_le(s[p].0, s[j - 1].0));
        } else if i > p {
            assert(key_le(s[i - 1].0, s[j - 1].0));
        } else if j < p {
            assert(key_le(s[i].0, s[j].0));
        } else if j == p && i < p {
            assert(key_le(s[i].0, key));
        }
    }
    vstd::seq_lib::to_multiset_insert(s, p, (key, value));
}

/// A queue of at most `CAPACITY` entries, kept in ascending order of key.
pub struct OrderedQueue<V, const CAPACITY: usize> {
    entries: Vec<(Key, V)>,
}

impl<V, const CAPACITY: usize> View for OrderedQueue<V, CAPACITY> {
    type V = Seq<(Key, V)>;

    closed spec fn view(&self) -> Seq<(Key, V)> {
        self.entries@
    }
}

impl<V, const CAPACITY: usize> OrderedQueue<V, CAPACITY> {
    /// The entries are in ascending order of key and at most `CAPACITY`.
    #[verifier::type_invariant]
    spec fn wf(&self) -> bool {
        &&& ascending(self.entries@)
        &&& self.entries@.len() <= CAPACITY
    }

    /// An empty queue.
    pub fn new() -> (r: Self)
        ensures
            r@ == Seq::<(Key, V)>::empty(),
    {
        OrderedQueue { entries: Vec::new() }
    }

    /// The number of entries.
    pub fn len(&self) -> (r: usize)
        ensures
            r == self@.len(),
            r <= CAPACITY,
    {
        proof {
            use_type_invariant(self);
        }
        self.entries.len()
    }

    /// Whether the queue holds no entry.
    pub fn is_empty(&self) -> (r: bool)
        ensures
            r == (self@.len() == 0),
    {
        self.entries.len() == 0
    }

    /// The least key and its value, without taking them out.
    pub fn first_key_value(&self) -> (r: Option<(Key, &V)>)
        ensures
            self@.len() == 0 ==> r.is_none(),
            self@.len() > 0 ==> r.is_some() && r.unwrap().0 == self@[0].0 && *r.unwrap().1
                == self@[0].1,
            ascending(self@),
    {
        proof {
            use_type_invariant(self);
        }
        if self.entries.len() == 0 {
            None
        } else {
            let first = &self.entries[0];
            Some((first.0, &first.1))
        }
    }

    /// Puts `value` into the queue under `key`, behind the entries whose key
    /// is at most `key`. A full queue stays as it is and hands `value` back.
    pub fn insert(&mut self, key: Key, value: V) -> (r: Result<(), V>)
        ensures
            ascending(old(self)@),
            ascending(final(self)@),
            old(self)@.len() < CAPACITY ==> r.is_ok() && final(self)@ == inserted(
                old(self)@,
                key,
                value,
            ),
            old(self)@.len() >= CAPACITY ==> r == Err::<(), V>(value),
            old(self)@.len() >= CAPACITY ==> final(self)@ == old(self)@,
    {
        proof {
            use_type_invariant(&*self);
        }
        let n: usize = self.entries.len();
        if n >= CAPACITY {
            return Err(value);
        }
        let mut i: usize = 0;
        while i < n && (self.entries[i].0.0 < key.0 || (self.entries[i].0.0 == key.0
            && self.entries[i].0.1 <= key.1))
            invariant
                n == self.entries@.len(),
                self.entries@ == old(self).entries@,
                0 <= i <= n,
                upper_bound(self.entries@, key, 0) == upper_bound(self.entries@, key, i as int),
            decreases n - i,
        {
            i = i + 1;
        }
        proof {
            lemma_inserted(self.entries@, key, value);
        }
        // The entries are taken out while they change, so that the queue is
        // in order whenever it can be seen.
        let mut entries: Vec<(Key, V)> = Vec::new();
        core::mem::swap(&mut self.entries, &mut entries);
        entries.insert(i, (key, value));
        self.entries = entries;
        Ok(())
    }

    /// Takes out the entry with the least key, the earliest among equals.
    pub fn pop_first(&mut self) -> (r: Option<(Key, V)>)
        ensures
            ascending(old(self)@),
            ascending(final(self)@),
            old(self)@.len() == 0 ==> r.is_none() && final(self)@ == old(self)@,
            old(self)@.len() > 0 ==> r == Some(old(self)@[0]),
            old(self)@.len() > 0 ==> final(self)@ == old(self)@.drop_first(),
    {
        proof {
            use_type_invariant(&*self);
        }
        if self.entries.len() == 0 {
            None
        } else {
            proof {
                lemma_drop_first_ascending(self.entries@);
            }
            // The entries are taken out while they change, so that the
            // queue is in order whenever it can be seen.
            let mut entries: Vec<(Key, V)> = Vec::new();
            core::mem::swap(&mut self.entries, &mut entries);
            let first = entries.remove(0);
            assert(entries@ =~= old(self).entries@.drop_first());
            self.entries = entries;
            Some(first)
        }
    }
}

/// A queue in ascending order stays so when its front leaves.
pub proof fn lemma_drop_first_ascending<V>(s: Seq<(Key, V)>)
    requires
        ascending(s),
        s.len() > 0,
    ensures
        ascending(s.drop_first()),
{
    let t = s.drop_first();
    assert forall|i: int, j: int| 0 <= i <= j < t.len() implies key_le(
        #[trigger] t[i].0,
        #[trigger] t[j].0,
    ) by {
        assert(key_le(s[i + 1].0, s[j + 1].0));
    }
}

/// The front of a queue in ascending order holds a least key.
pub proof fn lemma_front_is_least<V>(s: Seq<(Key, V)>, i: int)
    requires
        ascending(s),
        0 <= i < s.len(),
    ensures
        key_le(s[0].0, s[i].0),
{
}

} // verus!
