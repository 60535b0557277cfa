//! Depositing into a market.

use crate::errors::QuantumError;
use crate::key::Key;
use crate::state::config::MarketConfig;
use crate::state::deposit::DepositRecord;
use crate::token::{Authorization, TokenInstruction, Transfer};
use vstd::prelude::*;

verus! {

/// What depositing works on.
#[derive(Clone, Debug, PartialEq, Eq)]
pub struct DepositToMarket {
    /// Who deposits.
    pub payer: Key,
    /// The token in which the market takes deposits.
    pub reward_mint: Key,
    /// Token account of `payer` from which the deposit is taken.
    pub user_token: Key,
    /// Token account of the market that holds all its deposits.
    pub market_vault: Key,
    /// The market.
    pub market: MarketConfig,
    /// The deposit of `payer` in `market`; a record that did not exist
    /// before starts at zero.
    pub deposit_record: DepositRecord,
}

impl DepositToMarket {
    /// The balance of the deposit after `amount` is added, or the refusal.
    /// The market's status is looked at first, the sum after it.
    pub open spec fn spec_outcome(&self, amount: u64) -> Result<u64, QuantumError> {
        if !self.market.status.spec_accepts_deposits() {
            Err(QuantumError::MarketClosed)
        } else {
            DepositRecord::spec_deposit(self.deposit_record.amount, amount)
        }
    }

    /// The one instruction of a deposit: `amount` units move from the
    /// depositor to the market's vault.
    pub open spec fn spec_instructions(&self, amount: u64) -> Seq<TokenInstruction> {
        seq![
            TokenInstruction::Transfer {
                accounts: Transfer {
                    from: self.user_token,
                    to: self.market_vault,
                    authority: self.payer,
                },
                authorization: Authorization::Signed,
                amount,
            },
        ]
    }

    /// The records after a deposit that raised the balance to `total`.
    /// Nothing else changes.
    pub open spec fn spec_deposited(&self, total: u64) -> DepositToMarket {
        DepositToMarket { deposit_record: DepositRecord { amount: total }, ..*self }
    }

    /// Deposits `amount` into the market: the units are to move to the
    /// market's vault, and the deposit record grows by `amount`.
    ///
    /// Refused with `MarketClosed` unless the market is open or has
    /// accepted a proposal, and with `Overflow` where the new balance
    /// exceeds `u64`. A refused call changes nothing.
    pub fn handler(&mut self, amount: u64) -> (planned: Result<
        Vec<TokenInstruction>,
        QuantumError,
    >)
        ensures
            match planned {
                Ok(plan) => {
                    &&& old(self).spec_outcome(amount) matches Ok(total)
                    &&& plan@ == old(self).spec_instructions(amount)
                    &&& *final(self) == old(self).spec_deposited(total)
                },
                Err(refusal) => {
                    &&& old(self).spec_outcome(amount) == Err::<u64, QuantumError>(refusal)
                    &&& *final(self) == *old(self)
                },
            },
    {
        if !self.market.status.accepts_deposits() {
            return Err(QuantumError::MarketClosed);
        }
        match self.deposit_record.deposit(amount) {
            Ok(_) => {},
            Err(refusal) => {
                return Err(refusal);
            },
        }
        let mut plan: Vec<TokenInstruction> = Vec::new();
        plan.push(
            TokenInstruction::Transfer {
                accounts: Transfer {
                    from: self.user_token,
                    to: self.market_vault,
                    authority: self.payer,
                },
                authorization: Authorization::Signed,
                amount,
            },
        );
        assert(plan@ =~= old(self).spec_instructions(amount));
        Ok(plan)
    }
}

} // verus!
