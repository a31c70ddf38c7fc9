//! Bounded output history kept by stateful indicators: the most recent
//! outputs, read back from the latest one.

use vstd::prelude::*;

verus! {

/// The most recent `capacity` values pushed, in a ring.
pub struct RingHistory<T> {
    capacity: usize,
    buffer: Vec<T>,
    next: usize,
    kept: Ghost<Seq<T>>,
}

/// What a history of `capacity` keeps of `values`: the last `capacity` of them.
pub open spec fn last_values<T>(values: Seq<T>, capacity: nat) -> Seq<T> {
    if values.len() <= capacity {
        values
    } else {
        values.subrange(values.len() - capacity, values.len() as int)
    }
}

impl<T: Copy> RingHistory<T> {
    /// The ring holds the kept values, oldest at `next` once it is full.
    pub closed spec fn wf(&self) -> bool {
        &&& self.buffer@.len() <= self.capacity
        &&& self.kept@.len() == self.buffer@.len()
        &&& self.buffer@.len() < self.capacity ==> {
            &&& self.next == 0
            &&& self.buffer@ =~= self.kept@
        }
        &&& self.buffer@.len() == self.capacity && self.capacity > 0 ==> {
            &&& self.next < self.capacity
            &&& forall|j: int|
                0 <= j < self.capacity ==> #[trigger] self.buffer@[(self.next + j) % (self.capacity as int)]
                    == self.kept@[j]
        }
    }

    /// The values currently kept, oldest first.
    pub closed spec fn kept(&self) -> Seq<T> {
        self.kept@
    }

    /// How many values are kept at most.
    pub closed spec fn spec_capacity(&self) -> nat {
        self.capacity as nat
    }

    /// An empty history keeping at most `capacity` values.
    pub fn new(capacity: usize) -> (r: Self)
        ensures
            r.wf(),
            r.spec_capacity() == capacity,
            r.kept() == Seq::<T>::empty(),
    {
        RingHistory { capacity, buffer: Vec::new(), next: 0, kept: Ghost(Seq::empty()) }
    }

    /// How many values are kept at most.
    pub fn capacity(&self) -> (r: usize)
        ensures
            r == self.spec_capacity(),
    {
        self.capacity
    }

    /// How many values are kept.
    pub fn len(&self) -> (r: usize)
        requires
            self.wf(),
        ensures
            r == self.kept().len(),
    {
        self.buffer.len()
    }

    /// Forget every kept value.
    pub fn clear(&mut self)
        ensures
            final(self).wf(),
            final(self).spec_capacity() == old(self).spec_capacity(),
            final(self).kept() == Seq::<T>::empty(),
    {
        self.buffer = Vec::new();
        self.next = 0;
        self.kept = Ghost(Seq::empty());
    }

    /// Record a new latest value, dropping the oldest when full.
    pub fn push(&mut self, value: T)
        requires
            old(self).wf(),
        ensures
            final(self).wf(),
            final(self).spec_capacity() == old(self).spec_capacity(),
            final(self).kept() == last_values(old(self).kept().push(value), old(self).spec_capacity()),
    {
        let ghost k = self.kept@;
        let cap = self.capacity;
        if cap == 0 {
            proof {
                assert(k.push(value).subrange(1, 1) =~= Seq::<T>::empty());
            }
            return;
        }
        if self.buffer.len() < cap {
            self.buffer.push(value);
            self.kept = Ghost(k.push(value));
            proof {
                if self.buffer@.len() == cap {
                    assert forall|j: int| 0 <= j < cap implies #[trigger] self.buffer@[(self.next + j) % (
                    cap as int)] == self.kept@[j] by {
                        assert((0 + j) % (cap as int) == j) by (nonlinear_arith)
                            requires
                                0 <= j < cap,
                        ;
                    }
                }
            }
        } else {
            let c = self.next;
            self.buffer.set(c, value);
            let next = if c + 1 == cap {
                0
            } else {
                c + 1
            };
            self.next = next;
            let ghost nk = k.push(value).subrange(1, (k.len() + 1) as int);
            self.kept = Ghost(nk);
            proof {
                assert forall|j: int| 0 <= j < cap implies #[trigger] self.buffer@[(next + j) % (cap as int)]
                    == nk[j] by {
                    let pos = (next + j) % (cap as int);
                    if j < cap - 1 {
                        assert(pos == (c + (j + 1)) % (cap as int)) by (nonlinear_arith)
                            requires
                                0 <= c < cap,
                                0 <= j < cap - 1,
                                next == (if c + 1 == cap { 0 } else { c + 1 }),
                                pos == (next + j) % (cap as int),
                        ;
                        assert(pos != c) by (nonlinear_arith)
                            requires
                                0 <= c < cap,
                                0 <= j < cap - 1,
                                pos == (c + (j + 1)) % (cap as int),
                        ;
                        assert(old(self).buffer@[(c + (j + 1)) % (cap as int)] == k[j + 1]);
                    } else {
                        assert(pos == c) by (nonlinear_arith)
                            requires
                                0 <= c < cap,
                                j == cap - 1,
                                next == (if c + 1 == cap { 0 } else { c + 1 }),
                                pos == (next + j) % (cap as int),
                        ;
                    }
                }
            }
        }
    }

    /// The value pushed `index_from_latest` pushes before the latest one, if still kept.
    pub fn get(&self, index_from_latest: usize) -> (r: Option<T>)
        requires
            self.wf(),
        ensures
            index_from_latest < self.kept().len() ==> r == Some(
                self.kept()[self.kept().len() - 1 - index_from_latest],
            ),
            index_from_latest >= self.kept().len() ==> r is None,
    {
        let len = self.buffer.len();
        if index_from_latest >= len {
            return None;
        }
        let j = len - 1 - index_from_latest;
        if len < self.capacity {
            Some(self.buffer[j])
        } else {
            let cap = self.capacity;
            let pos = if j < cap - self.next {
                self.next + j
            } else {
                j - (cap - self.next)
            };
            proof {
                assert(pos == (self.next + j) % (cap as int)) by (nonlinear_arith)
                    requires
                        0 <= j < cap,
                        0 <= self.next < cap,
                        pos == (if j < cap - self.next { self.next + j } else { j - (cap - self.next) }),
                ;
            }
            Some(self.buffer[pos])
        }
    }

    /// The latest value pushed, if any is kept.
    pub fn latest(&self) -> (r: Option<T>)
        requires
            self.wf(),
        ensures
            self.kept().len() > 0 ==> r == Some(self.kept().last()),
            self.kept().len() == 0 ==> r is None,
    {
        self.get(0)
    }
}

/// Reading back from a history: after pushing `values` into an empty
/// history, the value `i` steps before the latest is `values[len - 1 - i]`
/// for every `i` below the capacity (and below the number pushed).
pub proof fn lemma_history_reads_back<T>(values: Seq<T>, capacity: nat, i: int)
    requires
        0 <= i < capacity,
        i < values.len(),
    ensures
        ({
            let kept = last_values(values, capacity);
            &&& i < kept.len()
            &&& kept[kept.len() - 1 - i] == values[values.len() - 1 - i]
        }),
{
}

/// The values kept after pushing `values` one by one into an empty history.
pub open spec fn kept_after<T>(values: Seq<T>, capacity: nat) -> Seq<T>
    decreases values.len(),
{
    if values.len() == 0 {
        Seq::empty()
    } else {
        last_values(kept_after(values.drop_last(), capacity).push(values.last()), capacity)
    }
}

/// Pushing values one at a time keeps exactly the last `capacity` of them.
pub proof fn lemma_kept_after<T>(values: Seq<T>, capacity: nat)
    ensures
        kept_after(values, capacity) == last_values(values, capacity),
    decreases values.len(),
{
    if values.len() > 0 {
        lemma_kept_after(values.drop_last(), capacity);
        let prev = last_values(values.drop_last(), capacity);
        let pushed = prev.push(values.last());
        if values.len() <= capacity {
            assert(values.drop_last().push(values.last()) =~= values);
        } else {
            assert(last_values(pushed, capacity) =~= last_values(values, capacity));
        }
    }
}

} // verus!
