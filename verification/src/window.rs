//! A fixed-length lag window: the ring of the most recent `period` samples
//! that lagging streams (momentum, rate of change, lag) read from.

use vstd::prelude::*;

verus! {

/// The ring buffer of the last `period` samples pushed.
pub struct LagWindow<T> {
    period: usize,
    buffer: Vec<T>,
    len: usize,
    cursor: usize,
    history: Ghost<Seq<T>>,
}

impl<T: Copy> LagWindow<T> {
    /// The ring holds the last `period` samples of the history, oldest at `cursor`.
    pub closed spec fn wf(&self) -> bool {
        &&& self.period >= 1
        &&& self.len <= self.period
        &&& self.buffer@.len() == self.len
        &&& self.cursor < self.period
        &&& self.len < self.period ==> {
            &&& self.history@.len() == self.len
            &&& self.cursor == 0
            &&& self.buffer@ =~= self.history@
        }
        &&& self.len == self.period ==> {
            &&& self.history@.len() >= self.period
            &&& forall|j: int|
                0 <= j < self.period ==> #[trigger] self.buffer@[(self.cursor + j) % (self.period as int)]
                    == self.history@[self.history@.len() - self.period + j]
        }
    }

    /// Every sample pushed so far, oldest first.
    pub closed spec fn history(&self) -> Seq<T> {
        self.history@
    }

    /// The lag distance.
    pub closed spec fn period(&self) -> nat {
        self.period as nat
    }

    /// An empty window for lag distance `period`.
    pub fn new(period: usize) -> (r: Self)
        requires
            period >= 1,
        ensures
            r.wf(),
            r.period() == period,
            r.history() == Seq::<T>::empty(),
    {
        LagWindow { period, buffer: Vec::new(), len: 0, cursor: 0, history: Ghost(Seq::empty()) }
    }

    /// Push a sample and return the one pushed `period` samples before it, if any.
    pub fn push(&mut self, sample: T) -> (r: Option<T>)
        requires
            old(self).wf(),
        ensures
            final(self).wf(),
            final(self).period() == old(self).period(),
            final(self).history() == old(self).history().push(sample),
            old(self).history().len() >= old(self).period() ==> r == Some(
                old(self).history()[old(self).history().len() - old(self).period()],
            ),
            old(self).history().len() < old(self).period() ==> r is None,
    {
        let ghost h = self.history@;
        let p = self.period;
        if self.len < p {
            self.buffer.push(sample);
            self.len = self.len + 1;
            self.history = Ghost(h.push(sample));
            proof {
                if self.len == p {
                    assert forall|j: int| 0 <= j < p implies #[trigger] self.buffer@[(self.cursor + j) % (
                    p as int)] == self.history@[self.history@.len() - p + j] by {
                        assert((0 + j) % (p as int) == j) by (nonlinear_arith)
                            requires
                                0 <= j < p,
                        ;
                    }
                }
            }
            None
        } else {
            let c = self.cursor;
            let lagged = self.buffer[c];
            proof {
                assert((c + 0) % (p as int) == c) by (nonlinear_arith)
                    requires
                        0 <= c < p,
                ;
            }
            self.buffer.set(c, sample);
            let next = if c + 1 == p {
                0
            } else {
                c + 1
            };
            self.cursor = next;
            self.history = Ghost(h.push(sample));
            proof {
                let nh = self.history@;
                assert forall|j: int| 0 <= j < p implies #[trigger] self.buffer@[(next + j) % (p as int)]
                    == nh[nh.len() - p + j] by {
                    let pos = (next + j) % (p as int);
                    if j < p - 1 {
                        assert(pos == (c + (j + 1)) % (p as int)) by (nonlinear_arith)
                            requires
                                0 <= c < p,
                                0 <= j < p - 1,
                                next == (if c + 1 == p { 0 } else { c + 1 }),
                                pos == (next + j) % (p as int),
                        ;
                        assert(pos != c) by (nonlinear_arith)
                            requires
                                0 <= c < p,
                                0 <= j < p - 1,
                                pos == (c + (j + 1)) % (p as int),
                        ;
                        assert(old(self).buffer@[(c + (j + 1)) % (p as int)] == h[h.len() - p + (j + 1)]);
                    } else {
                        assert(pos == c) by (nonlinear_arith)
                            requires
                                0 <= c < p,
                                j == p - 1,
                                next == (if c + 1 == p { 0 } else { c + 1 }),
                                pos == (next + j) % (p as int),
                        ;
                    }
                }
            }
            Some(lagged)
        }
    }
}

} // verus!
