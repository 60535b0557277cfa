//! Accounting core of a conditional-claims market.
//!
//! Participants lock deposits into a market; creating a proposal consumes a
//! fixed part of that deposit and issues a stable unit together with a
//! symmetric yes/no outcome pair; stable units and outcome pairs can be
//! exchanged one for one in both directions; and further stable units can
//! be claimed against the deposit that remains.
//!
//! The crate decides and records. It never moves a token itself: every
//! operation returns the token instructions that have to be carried out for
//! the operation to count, in order, and all of them or none.

use vstd::prelude::*;

pub mod constants;
pub mod contexts;
pub mod errors;
pub mod instructions;
pub mod issuance;
pub mod key;
pub mod laws;
pub mod ledger;
pub mod state;
pub mod token;

use crate::contexts::claim_for_proposal::{ClaimForProposal, ClaimForProposalBumps};
use crate::contexts::create_market::{CreateMarket, CreateMarketBumps};
use crate::contexts::create_proposal::{CreateProposal, CreateProposalBumps};
use crate::contexts::deposit_to_market::DepositToMarket;
use crate::contexts::initialize_global::InitializeGlobal;
use crate::contexts::mint_yes_no::{MintYesNo, MintYesNoBumps};
use crate::contexts::redeem_yes_no::{RedeemYesNo, RedeemYesNoBumps};
use crate::constants::{DATA_MAX_LEN, STR_MAX_LEN};
use crate::errors::QuantumError;
use crate::state::config::title_len;
use crate::state::global::GlobalState;
use crate::token::Receipt;

verus! {

/// Sets up the sequencer, whose first identifier is zero.
pub fn initialize_global(ctx: &mut InitializeGlobal) -> (done: Result<(), QuantumError>)
    ensures
        done is Ok,
        *final(ctx) == (InitializeGlobal { global: GlobalState { next_id: 0 }, ..*old(ctx) }),
{
    ctx.handler()
}

/// Creates an open market and returns its identifier.
///
/// Refused with `Overflow` where the sequencer cannot advance; nothing
/// changes then.
pub fn create_market(
    ctx: &mut CreateMarket,
    bumps: CreateMarketBumps,
    min_deposit: u64,
    strike_price: u64,
    title: String,
    now: i64,
) -> (market_id: Result<u64, QuantumError>)
    requires
        title_len(title@) <= STR_MAX_LEN,
    ensures
        market_id == GlobalState::spec_issue_id(old(ctx).global.next_id),
        market_id is Ok ==> *final(ctx) == (CreateMarket {
            market: old(ctx).spec_market(bumps, min_deposit, strike_price, title, now),
            global: GlobalState { next_id: (old(ctx).global.next_id + 1) as u64 },
            ..*old(ctx)
        }),
        market_id is Err ==> *final(ctx) == *old(ctx),
{
    ctx.create_market(bumps, min_deposit, strike_price, title, now)
}

/// Deposits `amount` into a market and returns the depositor's new
/// balance there, with the transfer that brings the units in.
///
/// Refused with `MarketClosed` unless the market is open or has accepted a
/// proposal, and with `Overflow` where the new balance exceeds `u64`;
/// nothing changes then.
pub fn deposit_to_market(ctx: &mut DepositToMarket, amount: u64) -> (deposited: Result<
    Receipt<u64>,
    QuantumError,
>)
    ensures
        match deposited {
            Ok(receipt) => {
                &&& old(ctx).spec_outcome(amount) == Ok::<u64, QuantumError>(receipt.output)
                &&& receipt.instructions@ == old(ctx).spec_instructions(amount)
                &&& *final(ctx) == old(ctx).spec_deposited(receipt.output)
            },
            Err(refusal) => {
                &&& old(ctx).spec_outcome(amount) == Err::<u64, QuantumError>(refusal)
                &&& *final(ctx) == *old(ctx)
            },
        },
{
    let instructions = ctx.handler(amount)?;
    Ok(Receipt { output: ctx.deposit_record.amount, instructions })
}

/// Exchanges `amount` stable units for outcome pairs and returns the yes
/// units and the no units that are issued: `amount` of each.
pub fn mint_yes_no(ctx: &mut MintYesNo, bumps: MintYesNoBumps, amount: u64) -> (minted: Result<
    Receipt<(u64, u64)>,
    QuantumError,
>)
    ensures
        minted matches Ok(receipt) && receipt.output == (amount, amount) && receipt.instructions@
            == old(ctx).spec_instructions(bumps, amount),
        *final(ctx) == *old(ctx),
{
    let instructions = ctx.handler(bumps, amount)?;
    Ok(Receipt { output: (amount, amount), instructions })
}

/// Exchanges `amount` outcome pairs for stable units and returns the
/// stable units that come back: `amount`.
pub fn redeem_yes_no(ctx: &mut RedeemYesNo, bumps: RedeemYesNoBumps, amount: u64) -> (redeemed:
    Result<Receipt<u64>, QuantumError>)
    ensures
        redeemed matches Ok(receipt) && receipt.output == amount && receipt.instructions@ == old(
            ctx,
        ).spec_instructions(bumps, amount),
        *final(ctx) == *old(ctx),
{
    let instructions = ctx.handler(bumps, amount)?;
    Ok(Receipt { output: amount, instructions })
}

/// Claims stable units of a proposal against the claimant's deposit and
/// returns how many are issued. The number is never zero.
///
/// Refused with `NothingToClaim` where nothing is left to claim, and with
/// `Overflow` where more was claimed before than the deposit holds;
/// nothing changes then.
pub fn claim_for_proposal(ctx: &mut ClaimForProposal, bumps: ClaimForProposalBumps) -> (claimed:
    Result<Receipt<u64>, QuantumError>)
    ensures
        match claimed {
            Ok(receipt) => {
                &&& old(ctx).spec_outcome() == Ok::<u64, QuantumError>(receipt.output)
                &&& receipt.output > 0
                &&& receipt.instructions@ == old(ctx).spec_instructions(bumps, receipt.output)
                &&& *final(ctx) == old(ctx).spec_claimed()
            },
            Err(refusal) => {
                &&& old(ctx).spec_outcome() == Err::<u64, QuantumError>(refusal)
                &&& *final(ctx) == *old(ctx)
            },
        },
{
    let claimed_before: u64 = ctx.claim_record.claimed;
    let instructions = ctx.handler(bumps)?;
    Ok(Receipt { output: ctx.deposit_record.amount - claimed_before, instructions })
}

/// Creates a proposal from the creator's deposit and returns its
/// identifier, with the instructions that issue for the locked deposit.
///
/// Refused with `InsufficientDeposit` where the deposit holds less than
/// the market's least deposit, else with `Overflow` where the sequencer
/// cannot advance; nothing changes then.
pub fn create_proposal(
    ctx: &mut CreateProposal,
    bumps: CreateProposalBumps,
    data: Vec<u8>,
    now: i64,
) -> (created: Result<Receipt<u64>, QuantumError>)
    requires
        data@.len() <= DATA_MAX_LEN,
    ensures
        match created {
            Ok(receipt) => {
                &&& old(ctx).spec_outcome() is Ok
                &&& receipt.output == old(ctx).global.next_id
                &&& receipt.instructions@ == old(ctx).spec_instructions(bumps)
                &&& *final(ctx) == old(ctx).spec_created(bumps, data, now)
            },
            Err(refusal) => {
                &&& old(ctx).spec_outcome() == Err::<(), QuantumError>(refusal)
                &&& *final(ctx) == *old(ctx)
            },
        },
{
    let instructions = ctx.handler(bumps, data, now)?;
    Ok(Receipt { output: ctx.proposal.id, instructions })
}

} // verus!
