//! Linear Decay, Exponential Decay and Lag: metadata and lookbacks.
//!
//! The lag indicator also has a batch form and a stream form over any copyable
//! sample type.

use vstd::prelude::*;

use crate::types::{IndicatorCategory, IndicatorMetadata};
use crate::indicator::spec_output_len;
use crate::window::LagWindow;

verus! {

/// Linear Decay.
#[derive(Debug, Clone, Copy)]
pub struct Decay;

impl Decay {
    /// Static metadata for this indicator.
    pub fn metadata(&self) -> (r: &'static IndicatorMetadata)
        ensures
            r.describes(
                "decay"@,
                "Linear Decay"@,
                IndicatorCategory::Math,
                seq!["real"@],
                seq!["period"@],
                seq!["decay"@],
            ),
    {
        &IndicatorMetadata {
            name: "decay",
            full_name: "Linear Decay",
            category: IndicatorCategory::Math,
            input_names: &["real"],
            option_names: &["period"],
            output_names: &["decay"],
        }
    }

    /// Leading samples consumed before the first output.
    pub fn lookback(&self) -> (r: usize)
        ensures
            r == 0,
    {
        0
    }
}

/// Exponential Decay.
#[derive(Debug, Clone, Copy)]
pub struct EDecay;

impl EDecay {
    /// Static metadata for this indicator.
    pub fn metadata(&self) -> (r: &'static IndicatorMetadata)
        ensures
            r.describes(
                "edecay"@,
                "Exponential Decay"@,
                IndicatorCategory::Math,
                seq!["real"@],
                seq!["period"@],
                seq!["edecay"@],
            ),
    {
        &IndicatorMetadata {
            name: "edecay",
            full_name: "Exponential Decay",
            category: IndicatorCategory::Math,
            input_names: &["real"],
            option_names: &["period"],
            output_names: &["edecay"],
        }
    }

    /// Leading samples consumed before the first output.
    pub fn lookback(&self) -> (r: usize)
        ensures
            r == 0,
    {
        0
    }
}

/// Lag.
#[derive(Debug, Clone, Copy)]
pub struct Lag;

impl Lag {
    /// Static metadata for this indicator.
    pub fn metadata(&self) -> (r: &'static IndicatorMetadata)
        ensures
            r.describes(
                "lag"@,
                "Lag"@,
                IndicatorCategory::Math,
                seq!["real"@],
                seq!["period"@],
                seq!["lag"@],
            ),
    {
        &IndicatorMetadata {
            name: "lag",
            full_name: "Lag",
            category: IndicatorCategory::Math,
            input_names: &["real"],
            option_names: &["period"],
            output_names: &["lag"],
        }
    }

    /// Leading samples consumed before the first output, for validated options.
    pub fn lookback(&self, period: usize) -> (r: usize)
        ensures
            r == period,
    {
        period
    }

    /// The input delayed by `period` samples: the first `input.len() - period`
    /// samples (all of them when `period` is zero, none when the input is not
    /// longer than `period`).
    pub fn run<T: Copy>(&self, input: &[T], period: usize) -> (r: Vec<T>)
        ensures
            r@ == lagged_batch(input@, period as nat),
    {
        let n = input.len();
        let out_len = if n >= period {
            n - period
        } else {
            0
        };
        let mut output: Vec<T> = Vec::new();
        let mut i: usize = 0;
        while i < out_len
            invariant
                out_len <= n == input@.len(),
                out_len == lagged_batch(input@, period as nat).len(),
                0 <= i <= out_len,
                output@ =~= input@.subrange(0, i as int),
            decreases out_len - i,
        {
            output.push(input[i]);
            i = i + 1;
        }
        output
    }

    /// A stream that emits each sample `period` samples after it was fed.
    pub fn create_stream<T: Copy>(&self, period: usize) -> (r: LagStream<T>)
        ensures
            r.wf(),
            r.period() == period,
            r.seen() == Seq::<T>::empty(),
    {
        LagStream::new(period)
    }
}

/// Count of leading samples dropped from a series of `len` samples by a lag of `period`.
pub open spec fn lag_cut(len: nat, period: nat) -> nat {
    if len >= period {
        (len - period) as nat
    } else {
        0
    }
}

/// The batch output of the lag indicator over a whole series.
pub open spec fn lagged_batch<T>(input: Seq<T>, period: nat) -> Seq<T> {
    input.subrange(0, lag_cut(input.len(), period) as int)
}

/// What a lag stream emits when the samples it has seen grow from the first
/// `before` entries of `seen` to all of them.
pub open spec fn lagged_span<T>(seen: Seq<T>, period: nat, before: nat) -> Seq<T> {
    seen.subrange(lag_cut(before, period) as int, lag_cut(seen.len(), period) as int)
}

/// Incremental lag: each fed sample comes back out `period` samples later.
pub struct LagStream<T> {
    period: usize,
    window: LagWindow<T>,
    progress: usize,
    seen: Ghost<Seq<T>>,
}

impl<T: Copy> LagStream<T> {
    /// The window holds the history of the stream, when the lag is not zero.
    pub closed spec fn wf(&self) -> bool {
        &&& self.progress == self.seen@.len()
        &&& self.window.wf()
        &&& self.period >= 1 ==> {
            &&& self.window.period() == self.period
            &&& self.window.history() == self.seen@
        }
    }

    /// Every sample fed so far.
    pub closed spec fn seen(&self) -> Seq<T> {
        self.seen@
    }

    /// The lag distance.
    pub closed spec fn period(&self) -> nat {
        self.period as nat
    }

    /// A fresh stream.
    pub fn new(period: usize) -> (r: Self)
        ensures
            r.wf(),
            r.period() == period,
            r.seen() == Seq::<T>::empty(),
    {
        let width = if period == 0 {
            1
        } else {
            period
        };
        LagStream { period, window: LagWindow::new(width), progress: 0, seen: Ghost(Seq::empty()) }
    }

    /// Static metadata for the stream implementation.
    pub fn metadata(&self) -> (r: &'static IndicatorMetadata)
        ensures
            r.describes(
                "lag"@,
                "Lag"@,
                IndicatorCategory::Math,
                seq!["real"@],
                seq!["period"@],
                seq!["lag"@],
            ),
    {
        Lag.metadata()
    }

    /// How many samples have been processed so far.
    pub fn progress(&self) -> (r: usize)
        requires
            self.wf(),
        ensures
            r == self.seen().len(),
    {
        self.progress
    }

    /// Feed samples and return the ones that come out of the lag.
    pub fn feed(&mut self, input: &[T]) -> (r: Vec<T>)
        requires
            old(self).wf(),
            old(self).seen().len() + input@.len() <= usize::MAX,
        ensures
            final(self).wf(),
            final(self).period() == old(self).period(),
            final(self).seen() == old(self).seen() + input@,
            r@ == lagged_span(final(self).seen(), old(self).period(), old(self).seen().len()),
            r@.len() <= input@.len(),
    {
        let ghost before = self.seen@;
        let mut output: Vec<T> = Vec::new();
        let mut i: usize = 0;
        while i < input.len()
            invariant
                self.wf(),
                self.period == old(self).period,
                before == old(self).seen@,
                before.len() + input@.len() <= usize::MAX,
                0 <= i <= input@.len(),
                self.seen@ == before + input@.subrange(0, i as int),
                output@ == lagged_span(self.seen@, self.period as nat, before.len()),
            decreases input@.len() - i,
        {
            let sample = input[i];
            let ghost prev = self.seen@;
            if self.period == 0 {
                output.push(sample);
            } else {
                match self.window.push(sample) {
                    Some(lagged) => output.push(lagged),
                    None => {},
                }
            }
            self.progress = self.progress + 1;
            self.seen = Ghost(prev.push(sample));
            proof {
                assert(input@.subrange(0, i + 1) =~= input@.subrange(0, i as int).push(sample));
                let p = self.period as nat;
                let s = self.seen@;
                let lo = lag_cut(before.len(), p) as int;
                if prev.len() >= p {
                    assert(lag_cut(s.len(), p) == lag_cut(prev.len(), p) + 1);
                    assert(s.subrange(lo, lag_cut(s.len(), p) as int) =~= prev.subrange(lo, lag_cut(prev.len(), p) as int).push(
                        s[lag_cut(prev.len(), p) as int],
                    ));
                } else {
                    assert(lag_cut(s.len(), p) == lag_cut(prev.len(), p));
                    assert(s.subrange(lo, lag_cut(s.len(), p) as int) =~= prev.subrange(lo, lag_cut(prev.len(), p) as int));
                }
            }
            i = i + 1;
        }
        proof {
            assert(input@.subrange(0, input@.len() as int) =~= input@);
            assert(self.seen@.len() == before.len() + input@.len());
        }
        output
    }
}

/// The lag's batch output has as many rows as the input has beyond the
/// lookback: `input.len() - period`, or none.
pub proof fn lemma_lag_output_len<T>(input: Seq<T>, period: nat)
    ensures
        lagged_batch(input, period).len() == spec_output_len(input.len() as int, period as int),
{
}

/// Feeding a fresh lag stream in two chunks emits exactly the batch lag of
/// the whole series: the stream and batch paths agree.
pub proof fn lemma_lag_stream_matches_batch<T>(period: nat, first: Seq<T>, second: Seq<T>)
    ensures
        lagged_span(first, period, 0) + lagged_span(first + second, period, first.len())
            == lagged_batch(first + second, period),
{
    let whole = first + second;
    let a = lag_cut(first.len(), period) as int;
    assert(lagged_span(first, period, 0) =~= whole.subrange(0, a));
    assert(whole.subrange(0, a) + whole.subrange(a, lag_cut(whole.len(), period) as int)
        =~= lagged_batch(whole, period));
}

} // verus!
