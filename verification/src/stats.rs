//! Rolling-window CPU statistics.
//!
//! `Stats` owns a bounded FIFO window of CPU-utilisation samples (fixed-point
//! hundredths of a percent). `update` appends a sample and evicts the oldest
//! one when the window is full; `average_cpu` is the mean of the whole
//! window; `cpu_trend` is the mean of the five most recent samples minus the
//! oldest retained sample, available only once more than ten samples are
//! held.

use vstd::prelude::*;

use std::collections::VecDeque;

verus! {

/// Number of samples the trend must exceed before it is reported.
pub const TREND_MIN_SAMPLES: usize = 10;

/// Number of most recent samples averaged for the trend.
pub const TREND_RECENT_SAMPLES: usize = 5;

/// Sum of all samples in a window, as an unbounded integer.
pub open spec fn sum_of(s: Seq<u32>) -> int
    decreases s.len(),
{
    if s.len() == 0 {
        0
    } else {
        sum_of(s.drop_last()) + s.last()
    }
}

/// One window transition: append `sample`, then drop the oldest sample if
/// the window would exceed `cap`.
pub open spec fn push_evict(w: Seq<u32>, cap: nat, sample: u32) -> Seq<u32> {
    let pushed = w.push(sample);
    if pushed.len() <= cap {
        pushed
    } else {
        pushed.subrange(1, pushed.len() as int)
    }
}

/// The window contents after feeding every element of `samples`, in order,
/// into an initially empty window of capacity `cap`.
pub open spec fn window_after(samples: Seq<u32>, cap: nat) -> Seq<u32>
    decreases samples.len(),
{
    if samples.len() == 0 {
        Seq::empty()
    } else {
        push_evict(window_after(samples.drop_last(), cap), cap, samples.last())
    }
}

/// Rolling window of CPU samples with a fixed capacity.
#[derive(Clone)]
pub struct Stats {
    cpu_history: VecDeque<u32>,
    capacity: usize,
}

impl Stats {
    /// The samples currently held, oldest first.
    pub closed spec fn history(&self) -> Seq<u32> {
        self.cpu_history@
    }

    /// The fixed capacity the window was created with.
    pub closed spec fn cap(&self) -> nat {
        self.capacity as nat
    }

    /// The window never holds more samples than its capacity.
    pub open spec fn wf(&self) -> bool {
        self.history().len() <= self.cap()
    }

    /// An empty window of capacity `capacity`.
    pub fn new(capacity: usize) -> (s: Stats)
        ensures
            s.wf(),
            s.history() == Seq::<u32>::empty(),
            s.cap() == capacity,
    {
        Stats { cpu_history: VecDeque::with_capacity(capacity), capacity }
    }

    /// Append a sample; evict the oldest one if the window is full.
    pub fn update(&mut self, cpu_usage: u32)
        requires
            old(self).wf(),
        ensures
            final(self).wf(),
            final(self).cap() == old(self).cap(),
            final(self).history() == push_evict(old(self).history(), old(self).cap(), cpu_usage),
    {
        self.cpu_history.push_back(cpu_usage);
        if self.cpu_history.len() > self.capacity {
            self.cpu_history.pop_front();
        }
        proof {
            assert(self.history() =~= push_evict(old(self).history(), old(self).cap(), cpu_usage));
        }
    }

    /// Mean of all samples in the window (integer division), or `None` when
    /// the window is empty.
    pub fn average_cpu(&self) -> (r: Option<u32>)
        requires
            self.wf(),
        ensures
            self.history().len() == 0 ==> r is None,
            self.history().len() > 0 ==> r == Some(
                (sum_of(self.history()) / self.history().len() as int) as u32,
            ),
    {
        let n = self.cpu_history.len();
        if n == 0 {
            return None;
        }
        let mut sum: u128 = 0;
        let mut i: usize = 0;
        while i < n
            invariant
                n == self.history().len(),
                0 <= i <= n,
                sum == sum_of(self.history().take(i as int)),
                sum <= i * 0xffff_ffffu128,
            decreases n - i,
        {
            proof {
                assert(self.history().take(i + 1).drop_last() =~= self.history().take(i as int));
                assert(self.history().take(i + 1).last() == self.history()[i as int]);
            }
            sum = sum + self.cpu_history[i] as u128;
            i = i + 1;
        }
        proof {
            assert(self.history().take(n as int) =~= self.history());
            assert(sum / (n as u128) <= 0xffff_ffffu128) by (nonlinear_arith)
                requires
                    sum <= n * 0xffff_ffffu128,
                    n >= 1,
            ;
        }
        Some((sum / (n as u128)) as u32)
    }

    /// Short-term trend: the mean of the five most recent samples minus the
    /// oldest retained sample. Reported only when the window holds strictly
    /// more than ten samples.
    pub fn cpu_trend(&self) -> (r: Option<i64>)
        requires
            self.wf(),
        ensures
            self.history().len() <= TREND_MIN_SAMPLES ==> r is None,
            self.history().len() > TREND_MIN_SAMPLES ==> r == Some(
                (sum_of(
                    self.history().subrange(
                        self.history().len() - TREND_RECENT_SAMPLES,
                        self.history().len() as int,
                    ),
                ) / TREND_RECENT_SAMPLES as int - self.history()[0]) as i64,
            ),
    {
        let n = self.cpu_history.len();
        if n <= TREND_MIN_SAMPLES {
            return None;
        }
        let ghost recent = self.history().subrange(
            n - TREND_RECENT_SAMPLES,
            self.history().len() as int,
        );
        let mut sum: u64 = 0;
        let mut i: usize = n - TREND_RECENT_SAMPLES;
        while i < n
            invariant
                n == self.history().len(),
                TREND_RECENT_SAMPLES < n,
                recent == self.history().subrange(n - TREND_RECENT_SAMPLES, n as int),
                n - TREND_RECENT_SAMPLES <= i <= n,
                sum == sum_of(recent.take(i - (n - TREND_RECENT_SAMPLES))),
                sum <= (i - (n - TREND_RECENT_SAMPLES)) * 0xffff_ffffu64,
            decreases n - i,
        {
            proof {
                let k = i - (n - TREND_RECENT_SAMPLES);
                assert(recent.take(k + 1).drop_last() =~= recent.take(k as int));
                assert(recent.take(k + 1).last() == self.history()[i as int]);
            }
            sum = sum + self.cpu_history[i] as u64;
            i = i + 1;
        }
        proof {
            assert(recent.take(TREND_RECENT_SAMPLES as int) =~= recent);
        }
        let recent_avg = sum / TREND_RECENT_SAMPLES as u64;
        let oldest = self.cpu_history[0];
        Some(recent_avg as i64 - oldest as i64)
    }

    /// Read access to the samples currently held, oldest first.
    pub fn cpu_history(&self) -> (r: &VecDeque<u32>)
        ensures
            r@ == self.history(),
    {
        &self.cpu_history
    }
}

/// One more sample folds into the window exactly as `update` transitions
/// it: a run of `update` calls starting from `new` leaves the window at
/// `window_after` of the samples fed so far.
pub proof fn lemma_window_after_snoc(samples: Seq<u32>, cap: nat, sample: u32)
    ensures
        window_after(samples.push(sample), cap) == push_evict(
            window_after(samples, cap),
            cap,
            sample,
        ),
{
    assert(samples.push(sample).drop_last() =~= samples);
}

/// Window bound: feeding any sequence of samples into an empty window of
/// capacity `cap` leaves exactly the last `min(samples.len(), cap)` samples,
/// in insertion order.
pub proof fn lemma_window_bound(samples: Seq<u32>, cap: nat)
    ensures
        window_after(samples, cap).len() == vstd::math::min(samples.len() as int, cap as int),
        window_after(samples, cap) =~= samples.subrange(
            samples.len() - vstd::math::min(samples.len() as int, cap as int),
            samples.len() as int,
        ),
    decreases samples.len(),
{
    if samples.len() == 0 {
    } else {
        let prev = samples.drop_last();
        lemma_window_bound(prev, cap);
        let m = vstd::math::min(prev.len() as int, cap as int);
        assert(window_after(prev, cap) =~= prev.subrange(prev.len() - m, prev.len() as int));
        assert(forall|i: int| 0 <= i < prev.len() ==> prev[i] == samples[i]);
    }
}

} // verus!
