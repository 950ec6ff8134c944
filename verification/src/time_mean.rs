//! A windowed arithmetic mean of hash work over a fixed trailing interval.
//!
//! Each accounted solution inserts one weighted sample (its kilo-hash
//! equivalent at a timestamp); measuring at an instant averages the samples
//! that fall inside the trailing window ending at that instant over the
//! window's length, giving a rate in kilo-hashes per second.

use vstd::prelude::*;
use vstd::arithmetic::mul::lemma_mul_inequality;

verus! {

/// One weighted sample: the kilo-hash equivalent of one accounted solution,
/// recorded at a timestamp in whole seconds.
#[derive(Clone, Copy, PartialEq, Eq, Structural, Debug)]
pub struct Sample {
    pub kilo_hashes: u64,
    pub at_secs: u64,
}

/// The mathematical state of a windowed mean: the fixed interval it measures
/// over and the samples inserted so far, oldest first.
#[verifier::ext_equal]
pub ghost struct MeanView {
    pub interval_secs: u64,
    pub samples: Seq<Sample>,
}

/// Whether a sample recorded at `s.at_secs` still counts toward a measurement
/// taken at `now_secs`, for a window of `interval_secs`.
pub open spec fn in_window(s: Sample, interval_secs: u64, now_secs: u64) -> bool {
    s.at_secs + interval_secs > now_secs
}

/// The total kilo-hashes of the samples inside the trailing window ending at
/// `now_secs`.
pub open spec fn window_sum(samples: Seq<Sample>, interval_secs: u64, now_secs: u64) -> int
    decreases samples.len(),
{
    if samples.len() == 0 {
        0
    } else {
        window_sum(samples.drop_last(), interval_secs, now_secs) + if in_window(
            samples.last(),
            interval_secs,
            now_secs,
        ) {
            samples.last().kilo_hashes as int
        } else {
            0
        }
    }
}

/// The measured rate at `now_secs`, in whole kilo-hashes per second: the
/// windowed sum averaged over the window's length.
pub open spec fn mean_rate(m: MeanView, now_secs: u64) -> int {
    window_sum(m.samples, m.interval_secs, now_secs) / (m.interval_secs as int)
}

/// The samples still worth keeping at `now_secs`: the sequence with its
/// leading run of aged-out samples removed. Under the intended non-decreasing
/// insertion timestamps, every aged-out sample sits in that leading run, so
/// this retains exactly the samples inside the window ending at `now_secs`.
pub open spec fn drop_aged(samples: Seq<Sample>, interval_secs: u64, now_secs: u64) -> Seq<
    Sample,
>
    decreases samples.len(),
{
    if samples.len() > 0 && !in_window(samples.first(), interval_secs, now_secs) {
        drop_aged(samples.drop_first(), interval_secs, now_secs)
    } else {
        samples
    }
}

/// A trailing-window mean of hash work over a fixed interval: older samples
/// age out of the window. Samples are only ever appended; a measurement never
/// mutates.
#[derive(Debug)]
pub struct WindowedTimeMean {
    interval_secs: u64,
    samples: Vec<Sample>,
}

impl View for WindowedTimeMean {
    type V = MeanView;

    closed spec fn view(&self) -> MeanView {
        MeanView { interval_secs: self.interval_secs, samples: self.samples@ }
    }
}

impl WindowedTimeMean {
    /// Well-formed means a non-empty window, so that averaging over its
    /// length is defined.
    pub open spec fn wf(&self) -> bool {
        self@.interval_secs > 0
    }

    /// An empty mean measuring over a window of `interval_secs`.
    pub fn new(interval_secs: u64) -> (r: Self)
        requires
            interval_secs > 0,
        ensures
            r@ == (MeanView { interval_secs, samples: Seq::<Sample>::empty() }),
            r.wf(),
    {
        let r = WindowedTimeMean { interval_secs, samples: Vec::new() };
        proof {
            assert(r@ =~= MeanView { interval_secs, samples: Seq::<Sample>::empty() });
        }
        r
    }

    /// The fixed window this instance measures over, in whole seconds.
    pub fn interval(&self) -> (r: u64)
        ensures
            r == self@.interval_secs,
    {
        self.interval_secs
    }

    /// Records a weighted sample at `at_secs`. Safe to call repeatedly; the
    /// window is unchanged, the sample is appended, and the leading run of
    /// samples that have already aged out of the window ending at `at_secs`
    /// is discarded, so storage stays bounded under non-decreasing
    /// timestamps.
    #[verifier::loop_isolation(false)]
    pub fn insert(&mut self, kilo_hashes: u64, at_secs: u64)
        ensures
            final(self)@.interval_secs == old(self)@.interval_secs,
            final(self)@.samples == drop_aged(
                old(self)@.samples,
                old(self)@.interval_secs,
                at_secs,
            ).push(Sample { kilo_hashes, at_secs }),
    {
        while self.samples.len() > 0 && (self.samples[0].at_secs as u128) + (
        self.interval_secs as u128) <= (at_secs as u128)
            invariant
                self@.interval_secs == old(self)@.interval_secs,
                drop_aged(self@.samples, self@.interval_secs, at_secs) == drop_aged(
                    old(self)@.samples,
                    old(self)@.interval_secs,
                    at_secs,
                ),
            decreases self.samples@.len(),
        {
            proof {
                assert(!in_window(self.samples@.first(), self.interval_secs, at_secs));
                assert(self.samples@.remove(0) =~= self.samples@.drop_first());
            }
            let _aged = self.samples.remove(0);
        }
        self.samples.push(Sample { kilo_hashes, at_secs });
    }

    /// The current mean at `at_secs`: the kilo-hashes of the samples inside
    /// the trailing window, averaged over the window's length. Non-negative,
    /// and free of side effects.
    #[verifier::loop_isolation(false)]
    pub fn measure(&self, now_secs: u64) -> (r: u128)
        requires
            self.wf(),
        ensures
            r == mean_rate(self@, now_secs),
    {
        let ghost s = self@.samples;
        let mut sum: u128 = 0;
        let mut i: usize = 0;
        while i < self.samples.len()
            invariant
                i <= s.len(),
                sum == window_sum(s.take(i as int), self.interval_secs, now_secs),
                sum <= (i as int) * (u64::MAX as int),
            decreases s.len() - i,
        {
            let sample = self.samples[i];
            proof {
                assert(s.take(i + 1).drop_last() =~= s.take(i as int));
                assert(s.take(i + 1).last() == s[i as int]);
                lemma_mul_inequality(i + 1, s.len() as int, u64::MAX as int);
                lemma_mul_inequality(s.len() as int, u64::MAX as int, u64::MAX as int);
                assert((u64::MAX as int) * (u64::MAX as int) <= u128::MAX as int);
            }
            if (sample.at_secs as u128) + (self.interval_secs as u128) > (now_secs as u128) {
                sum = sum + (sample.kilo_hashes as u128);
            }
            i = i + 1;
        }
        proof {
            assert(s.take(s.len() as int) =~= s);
        }
        sum / (self.interval_secs as u128)
    }
}

impl Clone for WindowedTimeMean {
    /// An independent copy with the same window and the same samples.
    fn clone(&self) -> (r: Self)
        ensures
            r@ == self@,
    {
        let mut samples: Vec<Sample> = Vec::new();
        let mut i: usize = 0;
        while i < self.samples.len()
            invariant
                i <= self.samples@.len(),
                samples@ == self.samples@.take(i as int),
            decreases self.samples@.len() - i,
        {
            samples.push(self.samples[i]);
            proof {
                assert(samples@ =~= self.samples@.take(i + 1));
            }
            i = i + 1;
        }
        proof {
            assert(samples@ =~= self.samples@);
        }
        let r = WindowedTimeMean { interval_secs: self.interval_secs, samples };
        proof {
            assert(r@ =~= self@);
        }
        r
    }
}

} // verus!
