//! Exchanging stable units for outcome pairs.

use crate::errors::QuantumError;
use crate::key::Key;
use crate::state::proposal::ProposalConfig;
use crate::token::{issue, Authorization, MintTo, TokenInstruction, Transfer};
use vstd::prelude::*;

verus! {

/// The bumps of the derived addresses that minting pairs uses.
#[derive(Clone, Copy, Debug, PartialEq, Eq, Structural)]
pub struct MintYesNoBumps {
    /// Of the issuance authority.
    pub proposal_auth: u8,
}

/// What exchanging stable units for outcome pairs works on.
#[derive(Clone, Debug, PartialEq, Eq)]
pub struct MintYesNo {
    /// Who gives the stable units and receives the pairs.
    pub payer: Key,
    /// The proposal whose units are exchanged; it names the token types
    /// of its yes and its no unit.
    pub proposal: ProposalConfig,
    /// The issuance authority, which owns the vault.
    pub proposal_auth: Key,
    /// Token account of `payer` for stable units.
    pub user_vusd: Key,
    /// Token account of the issuance authority for stable units.
    pub vault_vusd: Key,
    /// Token account of `payer` for yes units.
    pub user_yes: Key,
    /// Token account of `payer` for no units.
    pub user_no: Key,
}

impl MintYesNo {
    /// The instructions that exchange `amount` stable units for as many
    /// outcome pairs, in order: `amount` stable units move from the payer
    /// to the vault, then `amount` yes units and `amount` no units of the
    /// proposal are created for the payer.
    pub open spec fn spec_instructions(&self, bumps: MintYesNoBumps, amount: u64) -> Seq<
        TokenInstruction,
    > {
        seq![
            TokenInstruction::Transfer {
                accounts: Transfer {
                    from: self.user_vusd,
                    to: self.vault_vusd,
                    authority: self.payer,
                },
                authorization: Authorization::Signed,
                amount,
            },
            issue(self.proposal.yes_mint, self.user_yes, self.proposal_auth, bumps.proposal_auth, amount),
            issue(self.proposal.no_mint, self.user_no, self.proposal_auth, bumps.proposal_auth, amount),
        ]
    }

    /// Exchanges `amount` stable units for `amount` outcome pairs: one
    /// yes unit and one no unit for each stable unit, which the vault
    /// keeps as their cover. The operation is never refused here and
    /// changes no record; whether the payer holds the stable units is for
    /// the token ledger to say when it carries the instructions out.
    pub fn handler(&mut self, bumps: MintYesNoBumps, amount: u64) -> (planned: Result<
        Vec<TokenInstruction>,
        QuantumError,
    >)
        ensures
            planned matches Ok(plan) && plan@ == old(self).spec_instructions(bumps, amount),
            *final(self) == *old(self),
    {
        let authorization = Authorization::ProposalAuthority { bump: bumps.proposal_auth };
        let mut plan: Vec<TokenInstruction> = Vec::new();
        plan.push(
            TokenInstruction::Transfer {
                accounts: Transfer {
                    from: self.user_vusd,
                    to: self.vault_vusd,
                    authority: self.payer,
                },
                authorization: Authorization::Signed,
                amount,
            },
        );
        plan.push(
            TokenInstruction::MintTo {
                accounts: MintTo {
                    mint: self.proposal.yes_mint,
                    to: self.user_yes,
                    authority: self.proposal_auth,
                },
                authorization,
                amount,
            },
        );
        plan.push(
            TokenInstruction::MintTo {
                accounts: MintTo {
                    mint: self.proposal.no_mint,
                    to: self.user_no,
                    authority: self.proposal_auth,
                },
                authorization,
                amount,
            },
        );
        assert(plan@ =~= old(self).spec_instructions(bumps, amount));
        Ok(plan)
    }
}

} // verus!
