//! Claiming stable units of a proposal against a deposit.

use crate::errors::QuantumError;
use crate::key::Key;
use crate::state::config::MarketConfig;
use crate::state::deposit::{ClaimRecord, DepositRecord};
use crate::state::proposal::ProposalConfig;
use crate::token::{issue, Authorization, MintTo, TokenInstruction};
use vstd::prelude::*;

verus! {

/// The bumps of the derived addresses that claiming uses.
#[derive(Clone, Copy, Debug, PartialEq, Eq, Structural)]
pub struct ClaimForProposalBumps {
    /// Of the issuance authority.
    pub proposal_auth: u8,
}

/// What claiming works on.
#[derive(Clone, Debug, PartialEq, Eq)]
pub struct ClaimForProposal {
    /// Who claims.
    pub payer: Key,
    /// The proposal whose stable units are claimed; it names the token
    /// type of its stable unit.
    pub proposal: ProposalConfig,
    /// The market of that proposal.
    pub market: MarketConfig,
    /// The deposit of `payer` in `market`, as it stands now.
    pub deposit_record: DepositRecord,
    /// What `payer` has claimed against `proposal` so far; a record that
    /// did not exist before starts at zero.
    pub claim_record: ClaimRecord,
    /// Token account of `payer` for stable units.
    pub user_vusd: Key,
    /// The issuance authority.
    pub proposal_auth: Key,
}

impl ClaimForProposal {
    /// The stable units that the claim issues, or the refusal: the
    /// outcome of a claim of the present deposit balance on the claim
    /// record.
    pub open spec fn spec_outcome(&self) -> Result<u64, QuantumError> {
        ClaimRecord::spec_claim(self.claim_record.claimed, self.deposit_record.amount)
    }

    /// The one instruction of a claim of `minted` stable units: they are
    /// created, in the stable unit of this proposal, for the claimant.
    pub open spec fn spec_instructions(&self, bumps: ClaimForProposalBumps, minted: u64) -> Seq<
        TokenInstruction,
    > {
        seq![
            issue(self.proposal.vusd_mint, self.user_vusd, self.proposal_auth, bumps.proposal_auth, minted),
        ]
    }

    /// The records after a claim that was not refused: the claim record
    /// stands at the deposit balance. Nothing else changes; the deposit
    /// itself is not touched.
    pub open spec fn spec_claimed(&self) -> ClaimForProposal {
        ClaimForProposal {
            claim_record: ClaimRecord { claimed: self.deposit_record.amount },
            ..*self
        }
    }

    /// Issues to the claimant, in stable units of this proposal, the part
    /// of the deposit balance that was not yet claimed against this
    /// proposal, and records the whole balance as claimed.
    ///
    /// The balance is the one the deposit holds now, whatever it was when
    /// the proposal was created, and the claim record belongs to this
    /// proposal alone: what was claimed against another proposal of the
    /// same market does not count here. One balance can therefore be
    /// claimed in full against each proposal of its market.
    ///
    /// Refused with `Overflow` where more was claimed before than the
    /// deposit holds, and with `NothingToClaim` where nothing is left to
    /// claim. A refused call changes nothing.
    pub fn handler(&mut self, bumps: ClaimForProposalBumps) -> (planned: Result<
        Vec<TokenInstruction>,
        QuantumError,
    >)
        ensures
            match planned {
                Ok(plan) => {
                    &&& old(self).spec_outcome() matches Ok(minted)
                    &&& minted > 0
                    &&& plan@ == old(self).spec_instructions(bumps, minted)
                    &&& *final(self) == old(self).spec_claimed()
                },
                Err(refusal) => {
                    &&& old(self).spec_outcome() == Err::<u64, QuantumError>(refusal)
                    &&& *final(self) == *old(self)
                },
            },
    {
        let total: u64 = self.deposit_record.amount;
        let claimable: u64 = match self.claim_record.claim(total) {
            Ok(units) => units,
            Err(refusal) => {
                return Err(refusal);
            },
        };
        let mut plan: Vec<TokenInstruction> = Vec::new();
        plan.push(
            TokenInstruction::MintTo {
                accounts: MintTo {
                    mint: self.proposal.vusd_mint,
                    to: self.user_vusd,
                    authority: self.proposal_auth,
                },
                authorization: Authorization::ProposalAuthority { bump: bumps.proposal_auth },
                amount: claimable,
            },
        );
        assert(plan@ =~= old(self).spec_instructions(bumps, claimable));
        Ok(plan)
    }
}

} // verus!
