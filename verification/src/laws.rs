//! What holds of the operations taken together.

use crate::contexts::claim_for_proposal::{ClaimForProposal, ClaimForProposalBumps};
use crate::contexts::create_proposal::{CreateProposal, CreateProposalBumps};
use crate::contexts::mint_yes_no::{MintYesNo, MintYesNoBumps};
use crate::contexts::redeem_yes_no::{RedeemYesNo, RedeemYesNoBumps};
use crate::errors::QuantumError;
use crate::issuance::{spec_per_pool, spec_stable_to_mint};
use crate::key::Key;
use crate::ledger::{apply_all_five, apply_all_one, apply_all_three, burn_undoes_mint_to};
use crate::ledger::{burns_commute, transfer_back_undoes_transfer, LedgerState, TokenError};
use crate::token::TokenInstruction;
use vstd::prelude::*;

verus! {

impl MintYesNo {
    /// Whether `redeem` names the token types and token accounts that
    /// this exchange names.
    pub open spec fn same_accounts(&self, redeem: &RedeemYesNo) -> bool {
        &&& self.proposal.yes_mint == redeem.proposal.yes_mint
        &&& self.proposal.no_mint == redeem.proposal.no_mint
        &&& self.user_yes == redeem.user_yes
        &&& self.user_no == redeem.user_no
        &&& self.user_vusd == redeem.user_vusd
        &&& self.vault_vusd == redeem.vault_vusd
    }
}

/// Round trip. Where stable units were exchanged for outcome pairs, the
/// same amount of pairs can be exchanged back at once, and the ledger is
/// then as it was before the first exchange: every balance and every
/// supply, so the stable balances of payer and vault and the payer's yes
/// and no balances among them.
///
/// The first exchange succeeds on the ledger: the payer holds the stable
/// units, and no balance or supply leaves the range of `u64`.
pub proof fn exchange_round_trip(
    ledger: LedgerState,
    mint: MintYesNo,
    mint_bumps: MintYesNoBumps,
    redeem: RedeemYesNo,
    redeem_bumps: RedeemYesNoBumps,
    amount: u64,
)
    requires
        ledger.total(),
        mint.same_accounts(&redeem),
        ledger.apply_all(mint.spec_instructions(mint_bumps, amount)) is Ok,
    ensures
        ledger.apply_all(mint.spec_instructions(mint_bumps, amount)) matches Ok(exchanged)
            && exchanged.apply_all(redeem.spec_instructions(redeem_bumps, amount)) == Ok::<
            LedgerState,
            TokenError,
        >(ledger),
{
    let there = mint.spec_instructions(mint_bumps, amount);
    let back = redeem.spec_instructions(redeem_bumps, amount);
    apply_all_three(ledger, there[0], there[1], there[2]);
    assert(there =~= seq![there[0], there[1], there[2]]);
    let exchanged = ledger.apply_all(there)->Ok_0;
    apply_all_three(exchanged, back[0], back[1], back[2]);
    assert(back =~= seq![back[0], back[1], back[2]]);

    // There: the stable units move, then the yes and the no units appear.
    let moved = ledger.transfer(mint.user_vusd, mint.vault_vusd, amount)->Ok_0;
    transfer_back_undoes_transfer(ledger, mint.user_vusd, mint.vault_vusd, amount);
    let with_yes = moved.mint_to(mint.proposal.yes_mint, mint.user_yes, amount)->Ok_0;
    burn_undoes_mint_to(moved, mint.proposal.yes_mint, mint.user_yes, amount);
    assert(exchanged == with_yes.mint_to(mint.proposal.no_mint, mint.user_no, amount)->Ok_0);
    burn_undoes_mint_to(with_yes, mint.proposal.no_mint, mint.user_no, amount);

    // Back: the no units could go first and the yes units second, and so
    // they can go in the other order too.
    burns_commute(exchanged, mint.proposal.no_mint, mint.user_no, mint.proposal.yes_mint, mint.user_yes, amount);
}

/// Catch-up. Where less was claimed against a proposal than the deposit
/// holds, a claim issues exactly the difference (the whole balance, where
/// nothing was claimed before), and a second claim that follows it with
/// no deposit in between is refused with `NothingToClaim`.
pub proof fn second_claim_finds_nothing(ctx: ClaimForProposal)
    requires
        ctx.claim_record.claimed < ctx.deposit_record.amount,
    ensures
        ctx.spec_outcome() == Ok::<u64, QuantumError>(
            (ctx.deposit_record.amount - ctx.claim_record.claimed) as u64,
        ),
        ctx.claim_record.claimed == 0 ==> ctx.spec_outcome() == Ok::<u64, QuantumError>(
            ctx.deposit_record.amount,
        ),
        ctx.spec_claimed().spec_outcome() == Err::<u64, QuantumError>(
            QuantumError::NothingToClaim,
        ),
{
}

/// Fan-out. What a deposit holds can be claimed in full against every
/// proposal of its market: a claim reads the deposit as it stands and
/// leaves it as it is, and each proposal keeps a claim record of its own.
/// So where nothing was claimed yet against either of two proposals, a
/// claim against the first issues the whole balance, and a claim against
/// the second, made after it, issues the whole balance again.
pub proof fn claims_fan_out(first: ClaimForProposal, second: ClaimForProposal)
    requires
        first.deposit_record == second.deposit_record,
        first.deposit_record.amount > 0,
        first.claim_record.claimed == 0,
        second.claim_record.claimed == 0,
    ensures
        first.spec_outcome() == Ok::<u64, QuantumError>(first.deposit_record.amount),
        first.spec_claimed().deposit_record == second.deposit_record,
        second.spec_outcome() == Ok::<u64, QuantumError>(first.deposit_record.amount),
{
}

/// The token types of one proposal and the token accounts in which the
/// issuance authority holds them.
pub struct Backing {
    pub vusd_mint: Key,
    pub yes_mint: Key,
    pub no_mint: Key,
    pub vusd_vault: Key,
    pub yes_vault: Key,
    pub no_vault: Key,
}

impl Backing {
    /// Whether the three token types differ, and the three vaults.
    pub open spec fn distinct(self) -> bool {
        &&& self.vusd_mint != self.yes_mint
        &&& self.vusd_mint != self.no_mint
        &&& self.yes_mint != self.no_mint
        &&& self.vusd_vault != self.yes_vault
        &&& self.vusd_vault != self.no_vault
        &&& self.yes_vault != self.no_vault
    }

    /// Whether `account` is none of the three vaults.
    pub open spec fn outside(self, account: Key) -> bool {
        &&& account != self.vusd_vault
        &&& account != self.yes_vault
        &&& account != self.no_vault
    }

    /// Whether as many yes units exist as no units.
    pub open spec fn matched(self, ledger: LedgerState) -> bool {
        ledger.supply[self.yes_mint] == ledger.supply[self.no_mint]
    }

    /// Whether the vault's stable units cover the outcome units that are
    /// not in the vault: it holds at least as many of them as yes units
    /// exist outside the yes vault, and as no units exist outside the no
    /// vault.
    pub open spec fn covered(self, ledger: LedgerState) -> bool {
        &&& ledger.supply[self.yes_mint] - ledger.balances[self.yes_vault]
            <= ledger.balances[self.vusd_vault]
        &&& ledger.supply[self.no_mint] - ledger.balances[self.no_vault]
            <= ledger.balances[self.vusd_vault]
    }
}

impl CreateProposal {
    /// The token types and vaults of the proposal that is created.
    pub open spec fn backing(&self) -> Backing {
        Backing {
            vusd_mint: self.vusd_mint,
            yes_mint: self.yes_mint,
            no_mint: self.no_mint,
            vusd_vault: self.vusd_vault,
            yes_vault: self.yes_vault,
            no_vault: self.no_vault,
        }
    }

    /// Whether the token types and the vaults are new on `ledger`, and
    /// the creator's two accounts hold nothing and are no vaults.
    pub open spec fn fresh_on(&self, ledger: LedgerState) -> bool {
        &&& self.backing().distinct()
        &&& self.backing().outside(self.user_yes)
        &&& self.backing().outside(self.user_no)
        &&& self.user_yes != self.user_no
        &&& ledger.supply[self.vusd_mint] == 0
        &&& ledger.supply[self.yes_mint] == 0
        &&& ledger.supply[self.no_mint] == 0
        &&& ledger.balances[self.vusd_vault] == 0
        &&& ledger.balances[self.yes_vault] == 0
        &&& ledger.balances[self.no_vault] == 0
        &&& ledger.balances[self.user_yes] == 0
        &&& ledger.balances[self.user_no] == 0
    }
}

/// Conservation at issue. On token types that are new, the instructions
/// of a created proposal are never refused, and for a locked deposit `d`
/// they leave: in the stable vault, `d` less two thirds of `d`; in the
/// yes vault, in the no vault and in each of the creator's two accounts,
/// one third of `d`, all rounded down as the split says. As many yes
/// units exist as no units, the stable vault covers those outside the
/// vaults, what is issued to the creator and into the stable vault is
/// `d` or one unit less, and no other account and no other token type is
/// touched.
pub proof fn issuance_on_new_token_types(
    ledger: LedgerState,
    ctx: CreateProposal,
    bumps: CreateProposalBumps,
)
    requires
        ledger.total(),
        ctx.fresh_on(ledger),
    ensures
        ledger.apply_all(ctx.spec_instructions(bumps)) matches Ok(issued) && {
            let d = ctx.market.min_deposit;
            &&& issued.total()
            &&& issued.balances[ctx.vusd_vault] == spec_stable_to_mint(d)
            &&& issued.balances[ctx.yes_vault] == spec_per_pool(d)
            &&& issued.balances[ctx.no_vault] == spec_per_pool(d)
            &&& issued.balances[ctx.user_yes] == spec_per_pool(d)
            &&& issued.balances[ctx.user_no] == spec_per_pool(d)
            &&& issued.supply[ctx.vusd_mint] == spec_stable_to_mint(d)
            &&& issued.supply[ctx.yes_mint] == 2 * spec_per_pool(d)
            &&& issued.supply[ctx.no_mint] == 2 * spec_per_pool(d)
            &&& d - 1 <= issued.balances[ctx.vusd_vault] + issued.balances[ctx.user_yes]
                + issued.balances[ctx.user_no] <= d
            &&& ctx.backing().matched(issued)
            &&& ctx.backing().covered(issued)
            &&& forall|account: Key|
                ctx.backing().outside(account) && account != ctx.user_yes && account
                    != ctx.user_no ==> #[trigger] issued.balances[account]
                    == ledger.balances[account]
            &&& forall|mint: Key|
                mint != ctx.vusd_mint && mint != ctx.yes_mint && mint != ctx.no_mint
                    ==> #[trigger] issued.supply[mint] == ledger.supply[mint]
        },
{
    let plan = ctx.spec_instructions(bumps);
    apply_all_five(ledger, plan[0], plan[1], plan[2], plan[3], plan[4]);
    assert(plan =~= seq![plan[0], plan[1], plan[2], plan[3], plan[4]]);
    let d = ctx.market.min_deposit;
    let stable = spec_stable_to_mint(d) as u64;
    let pool = spec_per_pool(d) as u64;
    assert(stable == spec_stable_to_mint(d) && pool == spec_per_pool(d) && 2 * pool <= d);
    let l1 = ledger.mint_to(ctx.vusd_mint, ctx.vusd_vault, stable)->Ok_0;
    let l2 = l1.mint_to(ctx.yes_mint, ctx.yes_vault, pool)->Ok_0;
    let l3 = l2.mint_to(ctx.no_mint, ctx.no_vault, pool)->Ok_0;
    let l4 = l3.mint_to(ctx.yes_mint, ctx.user_yes, pool)->Ok_0;
    let l5 = l4.mint_to(ctx.no_mint, ctx.user_no, pool)->Ok_0;
    assert(ledger.apply(plan[0]) == Ok::<LedgerState, TokenError>(l1));
    assert(l1.apply(plan[1]) == Ok::<LedgerState, TokenError>(l2));
    assert(l2.apply(plan[2]) == Ok::<LedgerState, TokenError>(l3));
    assert(l3.apply(plan[3]) == Ok::<LedgerState, TokenError>(l4));
    assert(l4.apply(plan[4]) == Ok::<LedgerState, TokenError>(l5));
    assert(l5.balances.dom() =~= Set::<Key>::full());
    assert(l5.supply.dom() =~= Set::<Key>::full());
}

impl MintYesNo {
    /// Whether the exchange is one in the token types of `backing`, with
    /// its stable vault, and the payer's three accounts are no vaults.
    pub open spec fn trades_in(&self, backing: Backing) -> bool {
        &&& self.proposal.yes_mint == backing.yes_mint
        &&& self.proposal.no_mint == backing.no_mint
        &&& self.vault_vusd == backing.vusd_vault
        &&& backing.outside(self.user_vusd)
        &&& backing.outside(self.user_yes)
        &&& backing.outside(self.user_no)
    }
}

impl RedeemYesNo {
    /// Whether the exchange is one in the token types of `backing`, with
    /// its stable vault, and the redeemer's three accounts are no vaults.
    pub open spec fn trades_in(&self, backing: Backing) -> bool {
        &&& self.proposal.yes_mint == backing.yes_mint
        &&& self.proposal.no_mint == backing.no_mint
        &&& self.vault_vusd == backing.vusd_vault
        &&& backing.outside(self.user_vusd)
        &&& backing.outside(self.user_yes)
        &&& backing.outside(self.user_no)
    }
}

impl ClaimForProposal {
    /// Whether the claim is one in the stable unit of `backing`, and the
    /// claimant's account is no vault.
    pub open spec fn claims_in(&self, backing: Backing) -> bool {
        &&& self.proposal.vusd_mint == backing.vusd_mint
        &&& backing.outside(self.user_vusd)
    }
}

/// Exchanging stable units for outcome pairs keeps the pair matched and
/// covered: as many yes units are created as no units, and the vault
/// receives a stable unit for each pair.
pub proof fn minting_pairs_keeps_cover(
    ledger: LedgerState,
    backing: Backing,
    ctx: MintYesNo,
    bumps: MintYesNoBumps,
    amount: u64,
)
    requires
        ledger.total(),
        backing.distinct(),
        ctx.trades_in(backing),
        backing.matched(ledger),
        backing.covered(ledger),
        ledger.apply_all(ctx.spec_instructions(bumps, amount)) is Ok,
    ensures
        ledger.apply_all(ctx.spec_instructions(bumps, amount)) matches Ok(exchanged) && {
            &&& backing.matched(exchanged)
            &&& backing.covered(exchanged)
            &&& exchanged.supply[backing.yes_mint] == ledger.supply[backing.yes_mint] + amount
            &&& exchanged.supply[backing.no_mint] == ledger.supply[backing.no_mint] + amount
            &&& exchanged.balances[backing.vusd_vault] == ledger.balances[backing.vusd_vault]
                + amount
        },
{
    let plan = ctx.spec_instructions(bumps, amount);
    apply_all_three(ledger, plan[0], plan[1], plan[2]);
    assert(plan =~= seq![plan[0], plan[1], plan[2]]);
}

/// Exchanging outcome pairs for stable units keeps the pair matched and
/// covered: as many yes units are destroyed as no units, and the vault
/// gives a stable unit for each pair.
pub proof fn redeeming_pairs_keeps_cover(
    ledger: LedgerState,
    backing: Backing,
    ctx: RedeemYesNo,
    bumps: RedeemYesNoBumps,
    amount: u64,
)
    requires
        ledger.total(),
        backing.distinct(),
        ctx.trades_in(backing),
        backing.matched(ledger),
        backing.covered(ledger),
        ledger.apply_all(ctx.spec_instructions(bumps, amount)) is Ok,
    ensures
        ledger.apply_all(ctx.spec_instructions(bumps, amount)) matches Ok(exchanged) && {
            &&& backing.matched(exchanged)
            &&& backing.covered(exchanged)
            &&& exchanged.supply[backing.yes_mint] == ledger.supply[backing.yes_mint] - amount
            &&& exchanged.supply[backing.no_mint] == ledger.supply[backing.no_mint] - amount
            &&& exchanged.balances[backing.vusd_vault] == ledger.balances[backing.vusd_vault]
                - amount
        },
{
    let plan = ctx.spec_instructions(bumps, amount);
    apply_all_three(ledger, plan[0], plan[1], plan[2]);
    assert(plan =~= seq![plan[0], plan[1], plan[2]]);
}

/// A claim keeps the pair matched and covered: it creates stable units
/// for the claimant and touches neither the vaults nor the outcome units.
pub proof fn claiming_keeps_cover(
    ledger: LedgerState,
    backing: Backing,
    ctx: ClaimForProposal,
    bumps: ClaimForProposalBumps,
    minted: u64,
)
    requires
        ledger.total(),
        backing.distinct(),
        ctx.claims_in(backing),
        backing.matched(ledger),
        backing.covered(ledger),
        ledger.apply_all(ctx.spec_instructions(bumps, minted)) is Ok,
    ensures
        ledger.apply_all(ctx.spec_instructions(bumps, minted)) matches Ok(claimed) && {
            &&& backing.matched(claimed)
            &&& backing.covered(claimed)
            &&& claimed.balances[ctx.user_vusd] == ledger.balances[ctx.user_vusd] + minted
            &&& claimed.balances[backing.vusd_vault] == ledger.balances[backing.vusd_vault]
        },
{
    let plan = ctx.spec_instructions(bumps, minted);
    apply_all_one(ledger, plan[0]);
    assert(plan =~= seq![plan[0]]);
}

impl MintYesNo {
    /// Whether the four token accounts differ from one another, and the
    /// yes unit from the no unit.
    pub open spec fn accounts_differ(&self) -> bool {
        &&& self.proposal.yes_mint != self.proposal.no_mint
        &&& self.user_vusd != self.vault_vusd
        &&& self.user_vusd != self.user_yes
        &&& self.user_vusd != self.user_no
        &&& self.vault_vusd != self.user_yes
        &&& self.vault_vusd != self.user_no
        &&& self.user_yes != self.user_no
    }
}

impl RedeemYesNo {
    /// Whether the four token accounts differ from one another, and the
    /// yes unit from the no unit.
    pub open spec fn accounts_differ(&self) -> bool {
        &&& self.proposal.yes_mint != self.proposal.no_mint
        &&& self.user_vusd != self.vault_vusd
        &&& self.user_vusd != self.user_yes
        &&& self.user_vusd != self.user_no
        &&& self.vault_vusd != self.user_yes
        &&& self.vault_vusd != self.user_no
        &&& self.user_yes != self.user_no
    }
}

/// When stable units can be exchanged for pairs: exactly when the payer
/// holds `amount` stable units and neither the vault, nor the payer's yes
/// or no account, nor the supply of yes or no units would exceed `u64`.
/// The exchange then moves `amount` on each of the four accounts and
/// touches no other.
pub proof fn minting_pairs_succeeds_when(
    ledger: LedgerState,
    ctx: MintYesNo,
    bumps: MintYesNoBumps,
    amount: u64,
)
    requires
        ledger.total(),
        ctx.accounts_differ(),
    ensures
        ledger.apply_all(ctx.spec_instructions(bumps, amount)) is Ok <==> {
            &&& ledger.balances[ctx.user_vusd] >= amount
            &&& ledger.balances[ctx.vault_vusd] + amount <= u64::MAX
            &&& ledger.balances[ctx.user_yes] + amount <= u64::MAX
            &&& ledger.balances[ctx.user_no] + amount <= u64::MAX
            &&& ledger.supply[ctx.proposal.yes_mint] + amount <= u64::MAX
            &&& ledger.supply[ctx.proposal.no_mint] + amount <= u64::MAX
        },
        ledger.apply_all(ctx.spec_instructions(bumps, amount)) matches Ok(exchanged) ==> {
            &&& exchanged.balances[ctx.user_vusd] == ledger.balances[ctx.user_vusd] - amount
            &&& exchanged.balances[ctx.vault_vusd] == ledger.balances[ctx.vault_vusd] + amount
            &&& exchanged.balances[ctx.user_yes] == ledger.balances[ctx.user_yes] + amount
            &&& exchanged.balances[ctx.user_no] == ledger.balances[ctx.user_no] + amount
            &&& forall|account: Key|
                account != ctx.user_vusd && account != ctx.vault_vusd && account != ctx.user_yes
                    && account != ctx.user_no ==> #[trigger] exchanged.balances[account]
                    == ledger.balances[account]
        },
{
    let plan = ctx.spec_instructions(bumps, amount);
    apply_all_three(ledger, plan[0], plan[1], plan[2]);
    assert(plan =~= seq![plan[0], plan[1], plan[2]]);
}

/// When pairs can be exchanged for stable units: exactly when the
/// redeemer holds `amount` yes units and `amount` no units, that many of
/// each exist, the vault holds `amount` stable units, and the redeemer's
/// stable account would not exceed `u64`. The exchange then moves
/// `amount` on each of the four accounts and touches no other.
pub proof fn redeeming_pairs_succeeds_when(
    ledger: LedgerState,
    ctx: RedeemYesNo,
    bumps: RedeemYesNoBumps,
    amount: u64,
)
    requires
        ledger.total(),
        ctx.accounts_differ(),
    ensures
        ledger.apply_all(ctx.spec_instructions(bumps, amount)) is Ok <==> {
            &&& ledger.balances[ctx.user_yes] >= amount
            &&& ledger.balances[ctx.user_no] >= amount
            &&& ledger.supply[ctx.proposal.yes_mint] >= amount
            &&& ledger.supply[ctx.proposal.no_mint] >= amount
            &&& ledger.balances[ctx.vault_vusd] >= amount
            &&& ledger.balances[ctx.user_vusd] + amount <= u64::MAX
        },
        ledger.apply_all(ctx.spec_instructions(bumps, amount)) matches Ok(exchanged) ==> {
            &&& exchanged.balances[ctx.user_vusd] == ledger.balances[ctx.user_vusd] + amount
            &&& exchanged.balances[ctx.vault_vusd] == ledger.balances[ctx.vault_vusd] - amount
            &&& exchanged.balances[ctx.user_yes] == ledger.balances[ctx.user_yes] - amount
            &&& exchanged.balances[ctx.user_no] == ledger.balances[ctx.user_no] - amount
            &&& forall|account: Key|
                account != ctx.user_vusd && account != ctx.vault_vusd && account != ctx.user_yes
                    && account != ctx.user_no ==> #[trigger] exchanged.balances[account]
                    == ledger.balances[account]
        },
{
    let plan = ctx.spec_instructions(bumps, amount);
    apply_all_three(ledger, plan[0], plan[1], plan[2]);
    assert(plan =~= seq![plan[0], plan[1], plan[2]]);
}

/// The vault funds every redemption of a covered pair. On a ledger where
/// the pair is covered, a redeemer who holds `amount` yes units outside
/// the yes vault finds `amount` stable units in the stable vault; so where
/// every exchange went through these operations, a redemption is never
/// refused for want of stable units.
///
/// What the redeemer and the yes vault hold together is no more than
/// exists: that much every ledger keeps, which counts the supply of a
/// token type as the sum of its accounts.
pub proof fn covered_pair_finds_the_vault_funded(
    ledger: LedgerState,
    backing: Backing,
    ctx: RedeemYesNo,
    amount: u64,
)
    requires
        ctx.trades_in(backing),
        backing.covered(ledger),
        ledger.balances[ctx.user_yes] + ledger.balances[backing.yes_vault]
            <= ledger.supply[backing.yes_mint],
        ledger.balances[ctx.user_yes] >= amount,
    ensures
        ledger.balances[ctx.vault_vusd] >= amount,
{
}

} // verus!
