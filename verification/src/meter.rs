//! The atomic unit of accounting: a solution counter, a cumulative share
//! total, and one windowed mean per configured measurement interval.
//!
//! A [`Meter`] is mutated through [`Meter::account_solution`] and read through
//! [`Meter::take_snapshot`], which returns an independent point-in-time copy.
//! A [`MeterSnapshot`] offers unit-converted hash-rate accessors over any of
//! the intervals the meter was configured with. The surrounding application
//! serializes concurrent accounting against one meter with a lock of its
//! choosing; each call here is one short critical section's worth of work.

use vstd::prelude::*;
use vstd::arithmetic::div_mod::lemma_div_is_ordered;
use crate::difficulty::{wrap_add_u128, Shares, Target};
use crate::hashes::HashesUnit;
use crate::time_mean::{drop_aged, mean_rate, MeanView, Sample, WindowedTimeMean};

verus! {

/// The mathematical state of one meter: how many solutions were accounted,
/// the cumulative difficulty-weighted share total, and the state of every
/// configured windowed mean.
#[verifier::ext_equal]
pub ghost struct MeterView {
    pub solutions: u64,
    pub shares: Shares,
    pub time_means: Seq<MeanView>,
}

impl MeterView {
    /// Every configured interval is non-empty, so every rate is defined, and
    /// the intervals are pairwise distinct: one mean per distinct interval.
    pub open spec fn wf(self) -> bool {
        &&& forall|i: int|
            0 <= i < self.time_means.len() ==> self.time_means[i].interval_secs > 0
        &&& forall|i: int, j: int|
            0 <= i < j < self.time_means.len() ==> self.time_means[i].interval_secs
                != self.time_means[j].interval_secs
    }

    /// Whether a mean over `interval_secs` was configured.
    pub open spec fn has_interval(self, interval_secs: u64) -> bool {
        exists|i: int|
            0 <= i < self.time_means.len() && self.time_means[i].interval_secs == interval_secs
    }
}

/// The first configured mean measuring over `interval_secs`; a fresh empty
/// mean when none is (callers rule that case out).
pub open spec fn lookup_mean(means: Seq<MeanView>, interval_secs: u64) -> MeanView
    decreases means.len(),
{
    if means.len() == 0 {
        MeanView { interval_secs, samples: Seq::<Sample>::empty() }
    } else if means.first().interval_secs == interval_secs {
        means.first()
    } else {
        lookup_mean(means.drop_first(), interval_secs)
    }
}

/// The measured rate of a meter state over the configured interval
/// `interval_secs`, at `now_secs`, in whole kilo-hashes per second.
pub open spec fn kilo_rate(v: MeterView, interval_secs: u64, now_secs: u64) -> int {
    mean_rate(lookup_mean(v.time_means, interval_secs), now_secs)
}

/// A freshly constructed meter over the given intervals: zero counters and
/// one empty mean per interval.
pub open spec fn meter_init(intervals: Seq<u64>) -> MeterView {
    MeterView {
        solutions: 0,
        shares: Shares { total: 0 },
        time_means: intervals.map_values(
            |iv: u64| MeanView { interval_secs: iv, samples: Seq::<Sample>::empty() },
        ),
    }
}

/// `s + 1` as a `u64` counter that wraps on overflow (the accepted numeric
/// limitation of the solution counter).
pub open spec fn wrap_inc_u64(s: u64) -> u64 {
    if s == u64::MAX {
        0
    } else {
        (s + 1) as u64
    }
}

/// One mean after one accounted solution: the same window, the leading run of
/// samples aged out of the window ending at `at_secs` discarded, and the
/// target's kilo-hash equivalent appended as a sample at `at_secs`.
pub open spec fn stepped_mean(m: MeanView, target: Target, at_secs: u64) -> MeanView {
    MeanView {
        interval_secs: m.interval_secs,
        samples: drop_aged(m.samples, m.interval_secs, at_secs).push(
            Sample { kilo_hashes: target.kilo_hashes(), at_secs },
        ),
    }
}

/// One meter state after accounting one solution that met `target` at
/// `at_secs`: the solution counter steps by one (wrapping), the target's
/// difficulty is folded into the share total, and every configured mean
/// receives the target's kilo-hash equivalent as a sample.
pub open spec fn meter_step(v: MeterView, target: Target, at_secs: u64) -> MeterView {
    MeterView {
        solutions: wrap_inc_u64(v.solutions),
        shares: Shares { total: wrap_add_u128(v.shares.total, target.difficulty as u128) },
        time_means: v.time_means.map_values(|m: MeanView| stepped_mean(m, target, at_secs)),
    }
}

/// An immutable point-in-time copy of a meter's state, independent of the
/// source meter once produced. Used purely for read-side reporting.
#[derive(Debug)]
pub struct MeterSnapshot {
    /// Number of solutions accounted from the beginning of mining.
    pub solutions: u64,
    /// All shares accounted from the beginning of mining.
    pub shares: Shares,
    /// One windowed mean of kilo-hashes per configured interval.
    time_means: Vec<WindowedTimeMean>,
}

impl View for MeterSnapshot {
    type V = MeterView;

    closed spec fn view(&self) -> MeterView {
        MeterView {
            solutions: self.solutions,
            shares: self.shares,
            time_means: self.time_means@.map_values(|m: WindowedTimeMean| m@),
        }
    }
}

impl MeterSnapshot {
    /// The first contained mean configured for exactly `interval_secs`.
    /// Looking up an interval that was never configured is a caller bug, ruled
    /// out here; the process would otherwise have to halt.
    #[verifier::loop_isolation(false)]
    fn get_time_mean(&self, interval_secs: u64) -> (r: &WindowedTimeMean)
        requires
            self@.has_interval(interval_secs),
        ensures
            r@ == lookup_mean(self@.time_means, interval_secs),
            r@.interval_secs == interval_secs,
    {
        let ghost means = self@.time_means;
        proof {
            assert(means.skip(0) =~= means);
        }
        let mut i: usize = 0;
        while i < self.time_means.len()
            invariant
                i <= means.len(),
                forall|j: int| 0 <= j < i ==> means[j].interval_secs != interval_secs,
                lookup_mean(means, interval_secs) == lookup_mean(
                    means.skip(i as int),
                    interval_secs,
                ),
            decreases means.len() - i,
        {
            if self.time_means[i].interval() == interval_secs {
                proof {
                    assert(means.skip(i as int).first() == means[i as int]);
                }
                return &self.time_means[i];
            }
            proof {
                assert(means.skip(i as int).first() == means[i as int]);
                assert(means.skip(i as int).drop_first() =~= means.skip(i as int + 1));
            }
            i = i + 1;
        }
        proof {
            let k = choose|k: int|
                0 <= k < means.len() && means[k].interval_secs == interval_secs;
            assert(false);
        }
        unreached()
    }

    /// Whether this snapshot carries a mean over exactly `interval_secs`.
    /// Callers use this to rule out the fatal unconfigured-interval lookup
    /// before asking for a rate.
    #[verifier::loop_isolation(false)]
    pub fn contains_interval(&self, interval_secs: u64) -> (r: bool)
        ensures
            r == self@.has_interval(interval_secs),
    {
        let mut i: usize = 0;
        while i < self.time_means.len()
            invariant
                i <= self.time_means@.len(),
                forall|j: int|
                    0 <= j < i ==> self@.time_means[j].interval_secs != interval_secs,
            decreases self.time_means@.len() - i,
        {
            if self.time_means[i].interval() == interval_secs {
                proof {
                    assert(self@.time_means[i as int].interval_secs == interval_secs);
                }
                return true;
            }
            i = i + 1;
        }
        false
    }

    /// The measured rate over the configured interval `interval_secs` at
    /// `now_secs`, in kilo-hashes.
    pub fn to_kilo_hashes(&self, interval_secs: u64, now_secs: u64) -> (r: HashesUnit)
        requires
            interval_secs > 0,
            self@.has_interval(interval_secs),
        ensures
            r == HashesUnit::KiloHashes(kilo_rate(self@, interval_secs, now_secs) as u128),
            0 <= kilo_rate(self@, interval_secs, now_secs) <= u128::MAX,
    {
        let mean = self.get_time_mean(interval_secs);
        HashesUnit::KiloHashes(mean.measure(now_secs))
    }

    /// The same measurement expressed in mega-hashes, rounded down.
    pub fn to_mega_hashes(&self, interval_secs: u64, now_secs: u64) -> (r: HashesUnit)
        requires
            interval_secs > 0,
            self@.has_interval(interval_secs),
        ensures
            r == HashesUnit::MegaHashes(
                (kilo_rate(self@, interval_secs, now_secs) / 1000) as u128,
            ),
    {
        let kilo = self.to_kilo_hashes(interval_secs, now_secs);
        proof {
            lemma_div_is_ordered(
                kilo_rate(self@, interval_secs, now_secs),
                u128::MAX as int,
                1000,
            );
        }
        kilo.into_mega_hashes()
    }

    /// The same measurement expressed in giga-hashes, rounded down.
    pub fn to_giga_hashes(&self, interval_secs: u64, now_secs: u64) -> (r: HashesUnit)
        requires
            interval_secs > 0,
            self@.has_interval(interval_secs),
        ensures
            r == HashesUnit::GigaHashes(
                (kilo_rate(self@, interval_secs, now_secs) / 1000000) as u128,
            ),
    {
        let kilo = self.to_kilo_hashes(interval_secs, now_secs);
        proof {
            lemma_div_is_ordered(
                kilo_rate(self@, interval_secs, now_secs),
                u128::MAX as int,
                1000000,
            );
        }
        kilo.into_giga_hashes()
    }

    /// The same measurement expressed in tera-hashes, rounded down.
    pub fn to_tera_hashes(&self, interval_secs: u64, now_secs: u64) -> (r: HashesUnit)
        requires
            interval_secs > 0,
            self@.has_interval(interval_secs),
        ensures
            r == HashesUnit::TeraHashes(
                (kilo_rate(self@, interval_secs, now_secs) / 1000000000) as u128,
            ),
    {
        let kilo = self.to_kilo_hashes(interval_secs, now_secs);
        proof {
            lemma_div_is_ordered(
                kilo_rate(self@, interval_secs, now_secs),
                u128::MAX as int,
                1000000000,
            );
        }
        kilo.into_tera_hashes()
    }

    /// The same measurement in a human-appropriate unit for display.
    pub fn to_pretty_hashes(&self, interval_secs: u64, now_secs: u64) -> (r: HashesUnit)
        requires
            interval_secs > 0,
            self@.has_interval(interval_secs),
        ensures
            r == HashesUnit::pretty_from_kilo(kilo_rate(self@, interval_secs, now_secs)),
    {
        let kilo = self.to_kilo_hashes(interval_secs, now_secs);
        kilo.into_pretty_hashes()
    }
}

impl Clone for MeterSnapshot {
    /// An independent copy of the whole snapshot state.
    fn clone(&self) -> (r: Self)
        ensures
            r@ == self@,
    {
        let mut time_means: Vec<WindowedTimeMean> = Vec::new();
        let mut i: usize = 0;
        while i < self.time_means.len()
            invariant
                i <= self.time_means@.len(),
                time_means@.len() == i,
                forall|j: int| 0 <= j < i ==> time_means@[j]@ == self.time_means@[j]@,
            decreases self.time_means@.len() - i,
        {
            time_means.push(self.time_means[i].clone());
            i = i + 1;
        }
        let r = MeterSnapshot { solutions: self.solutions, shares: self.shares, time_means };
        proof {
            assert(r@.time_means =~= self@.time_means);
            assert(r@ =~= self@);
        }
        r
    }
}

/// The unit of concurrent accounting: one meter's mutable state. The
/// surrounding application guards each meter with one exclusive lock held for
/// the duration of a single call here, never across anything else.
#[derive(Debug)]
pub struct Meter {
    inner: MeterSnapshot,
}

impl View for Meter {
    type V = MeterView;

    closed spec fn view(&self) -> MeterView {
        self.inner@
    }
}

impl Meter {
    /// Well-formed means every configured interval is non-empty.
    pub open spec fn wf(&self) -> bool {
        self@.wf()
    }

    /// A fresh meter with one empty windowed mean per given interval and both
    /// counters at zero. The intervals must be pairwise distinct (the set of
    /// means is keyed by interval) and non-empty.
    #[verifier::loop_isolation(false)]
    pub fn new(intervals: &Vec<u64>) -> (r: Self)
        requires
            forall|i: int| 0 <= i < intervals@.len() ==> intervals@[i] > 0,
            forall|i: int, j: int|
                0 <= i < j < intervals@.len() ==> intervals@[i] != intervals@[j],
        ensures
            r@ == meter_init(intervals@),
            r.wf(),
    {
        let mut time_means: Vec<WindowedTimeMean> = Vec::new();
        let mut i: usize = 0;
        while i < intervals.len()
            invariant
                i <= intervals@.len(),
                time_means@.len() == i,
                forall|j: int|
                    0 <= j < i ==> time_means@[j]@ == (MeanView {
                        interval_secs: intervals@[j],
                        samples: Seq::<Sample>::empty(),
                    }),
            decreases intervals@.len() - i,
        {
            time_means.push(WindowedTimeMean::new(intervals[i]));
            i = i + 1;
        }
        let r = Meter {
            inner: MeterSnapshot { solutions: 0, shares: Shares { total: 0 }, time_means },
        };
        proof {
            assert(r@.time_means =~= meter_init(intervals@).time_means);
            assert(r@ =~= meter_init(intervals@));
        }
        r
    }

    /// A consistent point-in-time copy of the whole state. The copy is
    /// independent: later accounting against this meter never changes a
    /// snapshot already returned.
    pub fn take_snapshot(&self) -> (r: MeterSnapshot)
        ensures
            r@ == self@,
    {
        self.inner.clone()
    }

    /// Accounts one solution that met `target` at `now_secs`: steps the
    /// solution counter (wrapping on overflow, the accepted limitation),
    /// folds the target into the share total, and inserts the target's
    /// kilo-hash equivalent into every configured mean.
    #[verifier::loop_isolation(false)]
    pub fn account_solution(&mut self, target: &Target, now_secs: u64)
        ensures
            final(self)@ == meter_step(old(self)@, *target, now_secs),
    {
        let kilo = Shares::new(target).into_kilo_hashes();
        let ghost means0 = self.inner.time_means@;
        let mut i: usize = 0;
        while i < self.inner.time_means.len()
            invariant
                i <= means0.len(),
                self.inner.time_means@.len() == means0.len(),
                self.inner.solutions == old(self)@.solutions,
                self.inner.shares == old(self)@.shares,
                forall|j: int|
                    0 <= j < i ==> self.inner.time_means@[j]@ == stepped_mean(
                        means0[j]@,
                        *target,
                        now_secs,
                    ),
                forall|j: int| i <= j < means0.len() ==> self.inner.time_means@[j] == means0[j],
            decreases means0.len() - i,
        {
            self.inner.time_means[i].insert(kilo, now_secs);
            i = i + 1;
        }
        self.inner.solutions = if self.inner.solutions == u64::MAX {
            0
        } else {
            self.inner.solutions + 1
        };
        self.inner.shares.account_solution(target);
        proof {
            assert(self@.time_means =~= meter_step(old(self)@, *target, now_secs).time_means);
            assert(self@ =~= meter_step(old(self)@, *target, now_secs));
        }
    }
}

/// The shared default measurement intervals, in seconds: 5 s, 1 min, 5 min,
/// 15 min and 24 h.
pub open spec fn default_intervals() -> Seq<u64> {
    seq![5u64, 60u64, 300u64, 900u64, 86400u64]
}

/// The default interval list as a vector, for threading through construction.
pub fn default_time_mean_intervals() -> (r: Vec<u64>)
    ensures
        r@ == default_intervals(),
{
    let mut r: Vec<u64> = Vec::new();
    r.push(5);
    r.push(60);
    r.push(300);
    r.push(900);
    r.push(86400);
    proof {
        assert(r@ =~= default_intervals());
    }
    r
}

impl Default for Meter {
    /// A fresh meter over the shared default interval list.
    fn default() -> (r: Self)
        ensures
            r@ == meter_init(default_intervals()),
            r.wf(),
    {
        Meter::new(&default_time_mean_intervals())
    }
}

/// A meter state after a whole sequence of accounting events, applied oldest
/// first: each event is one solution's target and timestamp.
pub open spec fn run_meter(v: MeterView, events: Seq<(Target, u64)>) -> MeterView
    decreases events.len(),
{
    if events.len() == 0 {
        v
    } else {
        meter_step(run_meter(v, events.drop_last()), events.last().0, events.last().1)
    }
}

/// A share total after a whole sequence of accounting events: each event's
/// target difficulty folded in, with the documented wrap on overflow.
pub open spec fn fold_shares(total: u128, events: Seq<(Target, u64)>) -> u128
    decreases events.len(),
{
    if events.len() == 0 {
        total
    } else {
        wrap_add_u128(fold_shares(total, events.drop_last()), events.last().0.difficulty as u128)
    }
}

/// Monotonic counting law: accounting any sequence of solutions against one
/// meter raises its solution counter by exactly the number of events, as long
/// as the counter does not reach its wrapping point, and leaves the share
/// total at exactly the fold of the events' difficulties. No update is lost.
pub proof fn lemma_monotonic_counting(v: MeterView, events: Seq<(Target, u64)>)
    requires
        v.solutions + events.len() <= u64::MAX,
    ensures
        run_meter(v, events).solutions == v.solutions + events.len(),
        run_meter(v, events).shares.total == fold_shares(v.shares.total, events),
    decreases events.len(),
{
    if events.len() > 0 {
        lemma_monotonic_counting(v, events.drop_last());
    }
}

/// Interval completeness law: a meter constructed over a list of intervals
/// carries a mean for every interval in that list, so a rate over any of them
/// can always be measured.
pub proof fn lemma_interval_completeness(intervals: Seq<u64>, interval_secs: u64)
    requires
        intervals.contains(interval_secs),
    ensures
        meter_init(intervals).has_interval(interval_secs),
{
    let k = choose|k: int| 0 <= k < intervals.len() && intervals[k] == interval_secs;
    assert(meter_init(intervals).time_means[k].interval_secs == interval_secs);
}

/// Accounting never adds or removes a configured interval, and never breaks
/// well-formedness: every rate measurable before a solution is accounted is
/// measurable after it, and no new interval appears.
pub proof fn lemma_step_preserves_intervals(
    v: MeterView,
    target: Target,
    at_secs: u64,
    interval_secs: u64,
)
    ensures
        meter_step(v, target, at_secs).has_interval(interval_secs) == v.has_interval(
            interval_secs,
        ),
        meter_step(v, target, at_secs).wf() == v.wf(),
{
    let stepped = meter_step(v, target, at_secs);
    assert(forall|i: int|
        0 <= i < v.time_means.len() ==> stepped.time_means[i].interval_secs
            == v.time_means[i].interval_secs);
    if v.has_interval(interval_secs) {
        let k = choose|k: int|
            0 <= k < v.time_means.len() && v.time_means[k].interval_secs == interval_secs;
        assert(stepped.time_means[k].interval_secs == interval_secs);
    }
    if stepped.has_interval(interval_secs) {
        let k = choose|k: int|
            0 <= k < stepped.time_means.len() && stepped.time_means[k].interval_secs
                == interval_secs;
        assert(v.time_means[k].interval_secs == interval_secs);
    }
    if v.wf() {
        assert forall|i: int| 0 <= i < stepped.time_means.len() implies stepped.time_means[
            i
        ].interval_secs > 0 by {
            assert(v.time_means[i].interval_secs > 0);
        }
    }
    if stepped.wf() {
        assert forall|i: int| 0 <= i < v.time_means.len() implies v.time_means[i].interval_secs
            > 0 by {
            assert(stepped.time_means[i].interval_secs > 0);
        }
    }
}

} // verus!
