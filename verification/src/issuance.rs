//! How a locked deposit is divided into what a new proposal issues.

use vstd::prelude::*;

verus! {

/// The part of a locked deposit `d` that is issued as outcome units: two
/// thirds of it, rounded down.
pub open spec fn spec_burn_total(d: u64) -> int {
    (2 * d) / 3
}

/// The yes units, and equally the no units, that each of the two holders
/// (the vault and the creator) receives: half of
/// [`spec_burn_total`], rounded down.
pub open spec fn spec_per_pool(d: u64) -> int {
    spec_burn_total(d) / 2
}

/// The stable units issued for a locked deposit `d`: what is left of it
/// after [`spec_burn_total`].
pub open spec fn spec_stable_to_mint(d: u64) -> int {
    d - spec_burn_total(d)
}

/// The three amounts that a new proposal issues for one locked deposit.
#[derive(Clone, Copy, Debug, PartialEq, Eq, Structural)]
pub struct IssuanceSplit {
    /// Part of the deposit issued as outcome units.
    pub burn_total: u64,
    /// Yes units, and no units, for the vault and again for the creator.
    pub per_pool: u64,
    /// Stable units for the vault.
    pub stable_to_mint: u64,
}

impl IssuanceSplit {
    /// Whether this is the split of a locked deposit `d`.
    pub open spec fn is_split_of(&self, d: u64) -> bool {
        &&& self.burn_total == spec_burn_total(d)
        &&& self.per_pool == spec_per_pool(d)
        &&& self.stable_to_mint == spec_stable_to_mint(d)
    }

    /// Divides a locked deposit. Rounding is down and is never corrected:
    /// a deposit below three issues no outcome units at all.
    ///
    /// Nothing is created and nothing is lost between the stable part and
    /// the outcome part, the two pools never exceed the outcome part and
    /// fall short of it by at most the one unit that halving drops, and
    /// the stable units cover the outcome units handed to the creator.
    pub fn split_deposit(d: u64) -> (split: IssuanceSplit)
        ensures
            split.is_split_of(d),
            split.stable_to_mint + split.burn_total == d,
            2 * split.per_pool <= split.burn_total <= 2 * split.per_pool + 1,
            split.per_pool <= split.stable_to_mint,
            d < 3 ==> split.per_pool == 0,
    {
        let doubled: u128 = (d as u128) * 2;
        let burn_total: u64 = (doubled / 3) as u64;
        let per_pool: u64 = burn_total / 2;
        let stable_to_mint: u64 = d - burn_total;
        IssuanceSplit { burn_total, per_pool, stable_to_mint }
    }
}

} // verus!
