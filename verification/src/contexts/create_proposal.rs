//! Creating a proposal: a deposit is locked, and a stable unit and an
//! outcome pair are issued for it.

use crate::constants::DATA_MAX_LEN;
use crate::errors::QuantumError;
use crate::issuance::{spec_per_pool, spec_stable_to_mint, IssuanceSplit};
use crate::key::Key;
use crate::state::config::MarketConfig;
use crate::state::deposit::DepositRecord;
use crate::state::global::GlobalState;
use crate::state::proposal::ProposalConfig;
use crate::token::{issue, Authorization, MintTo, TokenInstruction};
use vstd::prelude::*;

verus! {

/// The bumps of the derived addresses that creating a proposal uses.
#[derive(Clone, Copy, Debug, PartialEq, Eq, Structural)]
pub struct CreateProposalBumps {
    /// Of the issuance authority.
    pub proposal_auth: u8,
    /// Of the new proposal record.
    pub proposal: u8,
}

/// What creating a proposal works on.
#[derive(Clone, Debug, PartialEq, Eq)]
pub struct CreateProposal {
    /// Who creates the proposal, and whose deposit is locked.
    pub payer: Key,
    /// The market in which the proposal is made.
    pub market: MarketConfig,
    /// The deposit of `payer` in `market`.
    pub user_deposit: DepositRecord,
    /// The token in which the market takes deposits.
    pub reward_mint: Key,
    /// The sequencer.
    pub global: GlobalState,
    /// Token type of the stable unit of the new proposal.
    pub vusd_mint: Key,
    /// Token type of its yes unit.
    pub yes_mint: Key,
    /// Token type of its no unit.
    pub no_mint: Key,
    /// Token account of the issuance authority for stable units.
    pub vusd_vault: Key,
    /// Token account of the issuance authority for yes units.
    pub yes_vault: Key,
    /// Token account of the issuance authority for no units.
    pub no_vault: Key,
    /// Token account of `payer` for yes units.
    pub user_yes: Key,
    /// Token account of `payer` for no units.
    pub user_no: Key,
    /// The issuance authority.
    pub proposal_auth: Key,
    /// The record of the new proposal; the operation writes it.
    pub proposal: ProposalConfig,
}

impl CreateProposal {
    /// Whether the proposal is created, and if not, why not. The deposit
    /// is looked at first, the sequencer after it.
    pub open spec fn spec_outcome(&self) -> Result<(), QuantumError> {
        if self.user_deposit.amount < self.market.min_deposit {
            Err(QuantumError::InsufficientDeposit)
        } else if self.global.next_id == u64::MAX {
            Err(QuantumError::Overflow)
        } else {
            Ok(())
        }
    }

    /// The instructions that issue for the locked deposit, in order: the
    /// stable units into the vault, then one pool of yes units and one of
    /// no units into the vault, then the same two pools to the creator.
    pub open spec fn spec_instructions(&self, bumps: CreateProposalBumps) -> Seq<
        TokenInstruction,
    > {
        let d = self.market.min_deposit;
        let auth = self.proposal_auth;
        let bump = bumps.proposal_auth;
        let stable = spec_stable_to_mint(d) as u64;
        let pool = spec_per_pool(d) as u64;
        seq![
            issue(self.vusd_mint, self.vusd_vault, auth, bump, stable),
            issue(self.yes_mint, self.yes_vault, auth, bump, pool),
            issue(self.no_mint, self.no_vault, auth, bump, pool),
            issue(self.yes_mint, self.user_yes, auth, bump, pool),
            issue(self.no_mint, self.user_no, auth, bump, pool),
        ]
    }

    /// The record of the new proposal. Its identifier is the one that the
    /// sequencer stands at, and its two pools are unset.
    pub open spec fn spec_proposal(&self, bumps: CreateProposalBumps, data: Vec<u8>, now: i64)
        -> ProposalConfig {
        ProposalConfig {
            id: self.global.next_id,
            market_id: self.market.id,
            created_at: now,
            creator: self.payer,
            vusd_mint: self.vusd_mint,
            yes_mint: self.yes_mint,
            no_mint: self.no_mint,
            yes_pool: Key::spec_unset(),
            no_pool: Key::spec_unset(),
            data,
            bump: bumps.proposal,
        }
    }

    /// The records after a proposal was created: the deposit has lost
    /// what the market asks for a proposal, the sequencer has advanced by
    /// one, and the proposal record is written. Nothing else changes.
    pub open spec fn spec_created(&self, bumps: CreateProposalBumps, data: Vec<u8>, now: i64)
        -> CreateProposal {
        CreateProposal {
            user_deposit: DepositRecord {
                amount: (self.user_deposit.amount - self.market.min_deposit) as u64,
            },
            global: GlobalState { next_id: (self.global.next_id + 1) as u64 },
            proposal: self.spec_proposal(bumps, data, now),
            ..*self
        }
    }

    /// Creates a proposal in `market` at the time `now`, with `data` as
    /// its payload.
    ///
    /// The market's least deposit is locked out of `user_deposit`; the
    /// result lists the instructions that issue for it (see
    /// [`spec_instructions`](Self::spec_instructions)); the proposal record
    /// is written under the identifier that the sequencer stands at; and
    /// the sequencer advances.
    ///
    /// Refused with `InsufficientDeposit` where the deposit holds less
    /// than the market's least deposit, else with `Overflow` where the
    /// sequencer cannot advance. A refused call changes nothing.
    pub fn handler(&mut self, bumps: CreateProposalBumps, data: Vec<u8>, now: i64) -> (planned:
        Result<Vec<TokenInstruction>, QuantumError>)
        requires
            data@.len() <= DATA_MAX_LEN,
        ensures
            match planned {
                Ok(plan) => {
                    &&& old(self).spec_outcome() is Ok
                    &&& plan@ == old(self).spec_instructions(bumps)
                    &&& *final(self) == old(self).spec_created(bumps, data, now)
                    &&& final(self).proposal.fits()
                },
                Err(refusal) => {
                    &&& old(self).spec_outcome() == Err::<(), QuantumError>(refusal)
                    &&& *final(self) == *old(self)
                },
            },
    {
        let min_d: u64 = self.market.min_deposit;
        if self.user_deposit.amount < min_d {
            return Err(QuantumError::InsufficientDeposit);
        }
        let id: u64 = match self.global.issue_id() {
            Ok(id) => id,
            Err(refusal) => {
                return Err(refusal);
            },
        };
        match self.user_deposit.lock(min_d) {
            Ok(_) => {},
            Err(refusal) => {
                return Err(refusal);
            },
        }

        let split = IssuanceSplit::split_deposit(min_d);
        let auth = self.proposal_auth;
        let authorization = Authorization::ProposalAuthority { bump: bumps.proposal_auth };

        let mut plan: Vec<TokenInstruction> = Vec::new();
        plan.push(
            TokenInstruction::MintTo {
                accounts: MintTo { mint: self.vusd_mint, to: self.vusd_vault, authority: auth },
                authorization,
                amount: split.stable_to_mint,
            },
        );
        plan.push(
            TokenInstruction::MintTo {
                accounts: MintTo { mint: self.yes_mint, to: self.yes_vault, authority: auth },
                authorization,
                amount: split.per_pool,
            },
        );
        plan.push(
            TokenInstruction::MintTo {
                accounts: MintTo { mint: self.no_mint, to: self.no_vault, authority: auth },
                authorization,
                amount: split.per_pool,
            },
        );
        plan.push(
            TokenInstruction::MintTo {
                accounts: MintTo { mint: self.yes_mint, to: self.user_yes, authority: auth },
                authorization,
                amount: split.per_pool,
            },
        );
        plan.push(
            TokenInstruction::MintTo {
                accounts: MintTo { mint: self.no_mint, to: self.user_no, authority: auth },
                authorization,
                amount: split.per_pool,
            },
        );

        self.proposal = ProposalConfig {
            id,
            market_id: self.market.id,
            created_at: now,
            creator: self.payer,
            vusd_mint: self.vusd_mint,
            yes_mint: self.yes_mint,
            no_mint: self.no_mint,
            yes_pool: Key::unset(),
            no_pool: Key::unset(),
            data,
            bump: bumps.proposal,
        };
        assert(plan@ =~= old(self).spec_instructions(bumps));
        Ok(plan)
    }
}

} // verus!
