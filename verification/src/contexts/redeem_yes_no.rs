//! Exchanging outcome pairs for stable units.

use crate::errors::QuantumError;
use crate::key::Key;
use crate::state::proposal::ProposalConfig;
use crate::token::{Authorization, Burn, TokenInstruction, Transfer};
use vstd::prelude::*;

verus! {

/// The bumps of the derived addresses that redeeming uses.
#[derive(Clone, Copy, Debug, PartialEq, Eq, Structural)]
pub struct RedeemYesNoBumps {
    /// Of the issuance authority.
    pub proposal_auth: u8,
}

/// What exchanging outcome pairs for stable units works on.
#[derive(Clone, Debug, PartialEq, Eq)]
pub struct RedeemYesNo {
    /// Who redeems.
    pub payer: Key,
    /// The proposal whose units are exchanged; it names the token types
    /// of its yes and its no unit.
    pub proposal: ProposalConfig,
    /// The issuance authority, which owns the vault.
    pub proposal_auth: Key,
    /// Token account of `payer` for yes units.
    pub user_yes: Key,
    /// Token account of `payer` for no units.
    pub user_no: Key,
    /// Token account of `payer` for stable units.
    pub user_vusd: Key,
    /// Token account of the issuance authority for stable units.
    pub vault_vusd: Key,
}

impl RedeemYesNo {
    /// The instructions that exchange `amount` outcome pairs for as many
    /// stable units, in order: `amount` yes units and `amount` no units of
    /// the proposal are destroyed in the redeemer's accounts, then `amount` stable units move from
    /// the vault to the redeemer.
    pub open spec fn spec_instructions(&self, bumps: RedeemYesNoBumps, amount: u64) -> Seq<
        TokenInstruction,
    > {
        seq![
            TokenInstruction::Burn {
                accounts: Burn { mint: self.proposal.yes_mint, from: self.user_yes, authority: self.payer },
                authorization: Authorization::Signed,
                amount,
            },
            TokenInstruction::Burn {
                accounts: Burn { mint: self.proposal.no_mint, from: self.user_no, authority: self.payer },
                authorization: Authorization::Signed,
                amount,
            },
            TokenInstruction::Transfer {
                accounts: Transfer {
                    from: self.vault_vusd,
                    to: self.user_vusd,
                    authority: self.proposal_auth,
                },
                authorization: Authorization::ProposalAuthority { bump: bumps.proposal_auth },
                amount,
            },
        ]
    }

    /// Exchanges `amount` outcome pairs for `amount` stable units: one
    /// yes unit and one no unit for each stable unit. The operation is
    /// never refused here and changes no record; whether the redeemer
    /// holds the pairs and the vault holds the stable units is for the
    /// token ledger to say when it carries the instructions out.
    pub fn handler(&mut self, bumps: RedeemYesNoBumps, amount: u64) -> (planned: Result<
        Vec<TokenInstruction>,
        QuantumError,
    >)
        ensures
            planned matches Ok(plan) && plan@ == old(self).spec_instructions(bumps, amount),
            *final(self) == *old(self),
    {
        let mut plan: Vec<TokenInstruction> = Vec::new();
        plan.push(
            TokenInstruction::Burn {
                accounts: Burn { mint: self.proposal.yes_mint, from: self.user_yes, authority: self.payer },
                authorization: Authorization::Signed,
                amount,
            },
        );
        plan.push(
            TokenInstruction::Burn {
                accounts: Burn { mint: self.proposal.no_mint, from: self.user_no, authority: self.payer },
                authorization: Authorization::Signed,
                amount,
            },
        );
        plan.push(
            TokenInstruction::Transfer {
                accounts: Transfer {
                    from: self.vault_vusd,
                    to: self.user_vusd,
                    authority: self.proposal_auth,
                },
                authorization: Authorization::ProposalAuthority { bump: bumps.proposal_auth },
                amount,
            },
        );
        assert(plan@ =~= old(self).spec_instructions(bumps, amount));
        Ok(plan)
    }
}

} // verus!
