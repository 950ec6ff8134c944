//! Hash-rate values tagged with a display unit.
//!
//! A rate is carried as a whole number of kilo-, mega-, giga- or tera-hashes;
//! conversions between units floor-divide or multiply by powers of 1000.

use vstd::prelude::*;
use vstd::arithmetic::div_mod::{lemma_div_denominator, lemma_div_is_ordered};

verus! {

/// A hash-rate value together with the unit it is expressed in. The payload is
/// the whole number of units (fractions are dropped when scaling up).
#[derive(Clone, Copy, PartialEq, Eq, Structural, Debug)]
pub enum HashesUnit {
    KiloHashes(u128),
    MegaHashes(u128),
    GigaHashes(u128),
    TeraHashes(u128),
}

impl HashesUnit {
    /// The exact value in kilo-hashes, as an unbounded integer.
    pub open spec fn kilo_equiv(self) -> int {
        match self {
            HashesUnit::KiloHashes(v) => v as int,
            HashesUnit::MegaHashes(v) => v * 1000,
            HashesUnit::GigaHashes(v) => v * 1000000,
            HashesUnit::TeraHashes(v) => v * 1000000000,
        }
    }

    /// The kilo-hash equivalent stays representable, so every unit conversion
    /// below is defined.
    pub open spec fn fits(self) -> bool {
        self.kilo_equiv() <= u128::MAX
    }

    /// The unit auto-selected for display: the coarsest unit in which the
    /// value is still non-zero, given its kilo-hash equivalent.
    pub open spec fn pretty_from_kilo(kilo: int) -> HashesUnit {
        if kilo < 1000 {
            HashesUnit::KiloHashes(kilo as u128)
        } else if kilo < 1000000 {
            HashesUnit::MegaHashes((kilo / 1000) as u128)
        } else if kilo < 1000000000 {
            HashesUnit::GigaHashes((kilo / 1000000) as u128)
        } else {
            HashesUnit::TeraHashes((kilo / 1000000000) as u128)
        }
    }

    /// The same rate expressed in kilo-hashes.
    pub fn into_kilo_hashes(self) -> (r: Self)
        requires
            self.fits(),
        ensures
            r == HashesUnit::KiloHashes(self.kilo_equiv() as u128),
    {
        HashesUnit::KiloHashes(self.kilo_value())
    }

    /// The same rate expressed in mega-hashes, rounded down.
    pub fn into_mega_hashes(self) -> (r: Self)
        requires
            self.fits(),
        ensures
            r == HashesUnit::MegaHashes((self.kilo_equiv() / 1000) as u128),
    {
        let kilo = self.kilo_value();
        proof {
            lemma_div_is_ordered(kilo as int, u128::MAX as int, 1000);
        }
        HashesUnit::MegaHashes(kilo / 1000)
    }

    /// The same rate expressed in giga-hashes, rounded down.
    pub fn into_giga_hashes(self) -> (r: Self)
        requires
            self.fits(),
        ensures
            r == HashesUnit::GigaHashes((self.kilo_equiv() / 1000000) as u128),
    {
        let kilo = self.kilo_value();
        proof {
            lemma_div_is_ordered(kilo as int, u128::MAX as int, 1000000);
        }
        HashesUnit::GigaHashes(kilo / 1000000)
    }

    /// The same rate expressed in tera-hashes, rounded down.
    pub fn into_tera_hashes(self) -> (r: Self)
        requires
            self.fits(),
        ensures
            r == HashesUnit::TeraHashes((self.kilo_equiv() / 1000000000) as u128),
    {
        let kilo = self.kilo_value();
        proof {
            lemma_div_is_ordered(kilo as int, u128::MAX as int, 1000000000);
        }
        HashesUnit::TeraHashes(kilo / 1000000000)
    }

    /// The same rate in a human-appropriate unit: the coarsest one in which
    /// the value remains non-zero.
    pub fn into_pretty_hashes(self) -> (r: Self)
        requires
            self.fits(),
        ensures
            r == HashesUnit::pretty_from_kilo(self.kilo_equiv()),
    {
        let kilo = self.kilo_value();
        if kilo < 1000 {
            HashesUnit::KiloHashes(kilo)
        } else if kilo < 1000000 {
            HashesUnit::MegaHashes(kilo / 1000)
        } else if kilo < 1000000000 {
            HashesUnit::GigaHashes(kilo / 1000000)
        } else {
            HashesUnit::TeraHashes(kilo / 1000000000)
        }
    }

    /// The value in kilo-hashes as one number.
    fn kilo_value(self) -> (r: u128)
        requires
            self.fits(),
        ensures
            r == self.kilo_equiv(),
    {
        match self {
            HashesUnit::KiloHashes(v) => v,
            HashesUnit::MegaHashes(v) => v * 1000,
            HashesUnit::GigaHashes(v) => v * 1000000,
            HashesUnit::TeraHashes(v) => v * 1000000000,
        }
    }
}

/// Unit scaling is a chain of floor divisions by 1000: the mega value is the
/// kilo value over 1000, the giga value is the mega value over 1000, and the
/// tera value is the giga value over 1000.
pub proof fn lemma_unit_scaling_chain(kilo: int)
    requires
        kilo >= 0,
    ensures
        kilo / 1000000 == (kilo / 1000) / 1000,
        kilo / 1000000000 == (kilo / 1000000) / 1000,
{
    lemma_div_denominator(kilo, 1000, 1000);
    lemma_div_denominator(kilo, 1000000, 1000);
}

/// Unit scaling is monotone: a larger kilo-hash value never scales to a
/// smaller mega-, giga- or tera-hash value.
pub proof fn lemma_unit_scaling_monotone(kilo1: int, kilo2: int)
    requires
        0 <= kilo1 <= kilo2,
    ensures
        kilo1 / 1000 <= kilo2 / 1000,
        kilo1 / 1000000 <= kilo2 / 1000000,
        kilo1 / 1000000000 <= kilo2 / 1000000000,
{
    lemma_div_is_ordered(kilo1, kilo2, 1000);
    lemma_div_is_ordered(kilo1, kilo2, 1000000);
    lemma_div_is_ordered(kilo1, kilo2, 1000000000);
}

} // verus!
