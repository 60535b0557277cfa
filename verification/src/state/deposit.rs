//! What a participant has locked in a market, and what of it was claimed.

use crate::errors::QuantumError;
use vstd::prelude::*;

verus! {

/// What one participant currently has locked in one market. It grows when
/// the participant deposits and shrinks only when a proposal is created
/// from it.
#[derive(Clone, Copy, Debug, PartialEq, Eq, Structural)]
pub struct DepositRecord {
    pub amount: u64,
}

impl DepositRecord {
    /// Bytes that the stored record takes.
    pub const SIZE: usize = 8 + 8;

    /// The balance after `amount` is added to a balance of `held`, or the
    /// refusal where the sum does not fit.
    pub open spec fn spec_deposit(held: u64, amount: u64) -> Result<u64, QuantumError> {
        if held + amount <= u64::MAX {
            Ok((held + amount) as u64)
        } else {
            Err(QuantumError::Overflow)
        }
    }

    /// The balance after `amount` is taken from a balance of `held`, or
    /// the refusal where the balance holds less than that.
    pub open spec fn spec_lock(held: u64, amount: u64) -> Result<u64, QuantumError> {
        if amount <= held {
            Ok((held - amount) as u64)
        } else {
            Err(QuantumError::InsufficientDeposit)
        }
    }

    /// Adds `amount` to the balance and returns the new balance. Refused
    /// with `Overflow`, and the balance kept, where the sum exceeds `u64`.
    pub fn deposit(&mut self, amount: u64) -> (new_total: Result<u64, QuantumError>)
        ensures
            new_total == Self::spec_deposit(old(self).amount, amount),
            new_total matches Ok(total) ==> final(self).amount == total,
            new_total is Err ==> *final(self) == *old(self),
    {
        match self.amount.checked_add(amount) {
            Some(total) => {
                self.amount = total;
                Ok(total)
            },
            None => Err(QuantumError::Overflow),
        }
    }

    /// Takes `amount` out of the balance and returns what remains. The
    /// balance never falls below zero: a request for more than it holds is
    /// refused with `InsufficientDeposit`, and the balance kept.
    pub fn lock(&mut self, amount: u64) -> (remaining: Result<u64, QuantumError>)
        ensures
            remaining == Self::spec_lock(old(self).amount, amount),
            remaining is Ok <==> amount <= old(self).amount,
            remaining matches Ok(rest) ==> final(self).amount == rest && rest + amount == old(
                self,
            ).amount,
            remaining is Err ==> *final(self) == *old(self),
    {
        if amount > self.amount {
            return Err(QuantumError::InsufficientDeposit);
        }
        let rest: u64 = self.amount - amount;
        self.amount = rest;
        Ok(rest)
    }
}

/// The stable units already issued to one participant against one
/// proposal.
#[derive(Clone, Copy, Debug, PartialEq, Eq, Structural)]
pub struct ClaimRecord {
    pub claimed: u64,
}

impl ClaimRecord {
    /// Bytes that the stored record takes.
    pub const SIZE: usize = 8 + 8;

    /// The stable units that a claim issues when `claimed` were issued
    /// before and the deposit balance stands at `total`, or the refusal.
    pub open spec fn spec_claim(claimed: u64, total: u64) -> Result<u64, QuantumError> {
        if total < claimed {
            Err(QuantumError::Overflow)
        } else if total == claimed {
            Err(QuantumError::NothingToClaim)
        } else {
            Ok((total - claimed) as u64)
        }
    }

    /// Catches the record up with a deposit balance of `total`: returns
    /// the difference between `total` and what was claimed before, and
    /// records `total` as claimed. The record is set to the balance, not
    /// raised by the difference, so after a successful claim it never
    /// exceeds the balance that was read.
    ///
    /// Refused, with the record kept, with `Overflow` where more was
    /// claimed before than `total`, and with `NothingToClaim` where the
    /// difference is zero: a claim never succeeds with nothing.
    pub fn claim(&mut self, total: u64) -> (minted: Result<u64, QuantumError>)
        ensures
            minted == Self::spec_claim(old(self).claimed, total),
            minted matches Ok(units) ==> units > 0 && final(self).claimed == total,
            minted is Err ==> *final(self) == *old(self),
    {
        let claimable: u64 = match total.checked_sub(self.claimed) {
            Some(difference) => difference,
            None => {
                return Err(QuantumError::Overflow);
            },
        };
        if claimable == 0 {
            return Err(QuantumError::NothingToClaim);
        }
        self.claimed = total;
        Ok(claimable)
    }
}

} // verus!
