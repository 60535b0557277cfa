//! Deposits into a market that is kept in its flat layout.

use crate::key::Key;
use crate::state::Market;
use crate::token::Transfer;
use vstd::prelude::*;

verus! {

/// What a deposit into a [`Market`] works on.
#[derive(Clone, Debug, PartialEq, Eq)]
pub struct Deposit {
    /// The market.
    pub market: Market,
    /// Who deposits.
    pub depositor: Key,
    /// Token account of the depositor for the market's token.
    pub depositor_ata: Key,
    /// Token account in which the market holds its deposits.
    pub vault_ata: Key,
}

impl Deposit {
    /// The accounts of the transfer that brings a deposit in: from the
    /// depositor's token account to the market's vault, on the
    /// depositor's authority.
    pub fn into_transfer_to_vault_context(&self) -> (accounts: Transfer)
        ensures
            accounts == (Transfer {
                from: self.depositor_ata,
                to: self.vault_ata,
                authority: self.depositor,
            }),
    {
        Transfer { from: self.depositor_ata, to: self.vault_ata, authority: self.depositor }
    }
}

} // verus!
