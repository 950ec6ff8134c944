//! Difficulty targets, cumulative share totals, and solutions.
//!
//! A proof-of-work difficulty threshold is carried as its difficulty, a plain
//! `u64`. One unit of difficulty stands for 2^32 hashes of expected work, so
//! its kilo-hash equivalent is the difficulty times [`KILO_HASHES_PER_DIFF`]
//! (2^32 / 1000, in whole kilo-hashes). Conversions saturate at the
//! representable maximum; the cumulative share total wraps on overflow, a
//! documented limitation of the counters rather than an error.

use vstd::prelude::*;
use vstd::arithmetic::div_mod::{lemma_fundamental_div_mod, lemma_mod_bound};
use vstd::arithmetic::mul::lemma_mul_inequality;

verus! {

/// Kilo-hashes of expected work per unit of difficulty: 2^32 / 1000,
/// rounded down to a whole number of kilo-hashes.
pub const KILO_HASHES_PER_DIFF: u64 = 4294967;

/// `x` clamped to the largest `u64`.
pub open spec fn sat_u64(x: int) -> u64 {
    if x > u64::MAX {
        u64::MAX
    } else {
        x as u64
    }
}

/// `a + b` reduced modulo 2^128, as `u128` addition that wraps on overflow.
pub open spec fn wrap_add_u128(a: u128, b: u128) -> u128 {
    if a + b <= u128::MAX {
        (a + b) as u128
    } else {
        (a + b - u128::MAX - 1) as u128
    }
}

/// A proof-of-work difficulty threshold, carried as its difficulty.
#[derive(Clone, Copy, PartialEq, Eq, Structural, Debug)]
pub struct Target {
    pub difficulty: u64,
}

impl Target {
    /// The target whose difficulty is `difficulty`.
    pub fn from_difficulty(difficulty: u64) -> (r: Self)
        ensures
            r.difficulty == difficulty,
    {
        Target { difficulty }
    }

    /// The expected work to meet this target, in whole kilo-hashes, clamped
    /// to the largest `u64`.
    pub open spec fn kilo_hashes(self) -> u64 {
        sat_u64(self.difficulty * KILO_HASHES_PER_DIFF)
    }
}

/// A cumulative difficulty-weighted share total: each accounted solution
/// contributes the difficulty of the target it met.
#[derive(Clone, Copy, PartialEq, Eq, Structural, Debug)]
pub struct Shares {
    pub total: u128,
}

impl Shares {
    /// The share credit of one solution that met `target`.
    pub fn new(target: &Target) -> (r: Self)
        ensures
            r.total == target.difficulty,
    {
        Shares { total: target.difficulty as u128 }
    }

    /// Folds one more solution that met `target` into the total. The total
    /// wraps on overflow (an accepted limitation, as with the solution
    /// counter).
    pub fn account_solution(&mut self, target: &Target)
        ensures
            final(self).total == wrap_add_u128(old(self).total, target.difficulty as u128),
    {
        let diff = target.difficulty as u128;
        if self.total <= u128::MAX - diff {
            self.total = self.total + diff;
        } else {
            self.total = diff - (u128::MAX - self.total) - 1;
        }
    }

    /// The expected work this total stands for, in whole kilo-hashes,
    /// clamped to the largest `u64`.
    pub fn into_kilo_hashes(&self) -> (r: u64)
        ensures
            r == sat_u64(self.total * KILO_HASHES_PER_DIFF),
    {
        let cap: u128 = u128::MAX / (KILO_HASHES_PER_DIFF as u128);
        if self.total > cap {
            proof {
                lemma_mul_inequality(
                    cap as int + 1,
                    self.total as int,
                    KILO_HASHES_PER_DIFF as int,
                );
                lemma_fundamental_div_mod(u128::MAX as int, KILO_HASHES_PER_DIFF as int);
                lemma_mod_bound(u128::MAX as int, KILO_HASHES_PER_DIFF as int);
            }
            u64::MAX
        } else {
            proof {
                lemma_mul_inequality(self.total as int, cap as int, KILO_HASHES_PER_DIFF as int);
                lemma_fundamental_div_mod(u128::MAX as int, KILO_HASHES_PER_DIFF as int);
                lemma_mod_bound(u128::MAX as int, KILO_HASHES_PER_DIFF as int);
            }
            let kilo = self.total * (KILO_HASHES_PER_DIFF as u128);
            if kilo > u64::MAX as u128 {
                u64::MAX
            } else {
                kilo as u64
            }
        }
    }
}

impl Default for Shares {
    /// An empty total: no work credited yet.
    fn default() -> (r: Self)
        ensures
            r.total == 0,
    {
        Shares { total: 0 }
    }
}

/// One valid proof-of-work solution, carrying the three difficulty thresholds
/// it was produced against: the network's, the job's (pool's), and the
/// hardware backend's. The network target is the strictest and the backend
/// target the loosest.
#[derive(Clone, Copy, PartialEq, Eq, Structural, Debug)]
pub struct Solution {
    pub network_target: Target,
    pub job_target: Target,
    pub backend_target: Target,
}

impl Solution {
    /// A solution carrying the three given thresholds.
    pub fn new(network_target: Target, job_target: Target, backend_target: Target) -> (r: Self)
        ensures
            r.network_target == network_target,
            r.job_target == job_target,
            r.backend_target == backend_target,
    {
        Solution { network_target, job_target, backend_target }
    }
}

} // verus!
