//! A model of the token ledger, on which the instructions of an operation
//! can be replayed.
//!
//! The ledger that settles the operations of this crate is a service of
//! its own. This model keeps what the accounting needs of it: the balance
//! of every token account and the supply of every token type, both zero
//! until something is created. It does not ask who authorises an
//! instruction.

use crate::key::Key;
use crate::token::TokenInstruction;
use vstd::prelude::*;

pub mod memory;

verus! {

/// Why the ledger refuses an instruction.
#[derive(Clone, Copy, Debug, PartialEq, Eq, Structural)]
pub enum TokenError {
    /// An account, or the supply of a token type, holds fewer units than
    /// are to be taken from it.
    InsufficientFunds,
    /// A balance or a supply would exceed `u64`.
    Overflow,
}

/// What a ledger holds: the balance of every token account and the supply
/// of every token type. Both maps are total.
pub struct LedgerState {
    pub balances: Map<Key, u64>,
    pub supply: Map<Key, u64>,
}

impl LedgerState {
    /// The ledger on which nothing has been created yet.
    pub open spec fn empty() -> LedgerState {
        LedgerState {
            balances: Map::total(|account: Key| 0u64),
            supply: Map::total(|mint: Key| 0u64),
        }
    }

    /// Whether both maps are total, as those of every ledger are.
    pub open spec fn total(self) -> bool {
        &&& self.balances.dom() == Set::<Key>::full()
        &&& self.supply.dom() == Set::<Key>::full()
    }

    /// Creates `amount` units of `mint` in the account `to`. Refused where
    /// the supply or the balance would exceed `u64`.
    pub open spec fn mint_to(self, mint: Key, to: Key, amount: u64) -> Result<
        LedgerState,
        TokenError,
    > {
        if self.supply[mint] + amount > u64::MAX || self.balances[to] + amount > u64::MAX {
            Err(TokenError::Overflow)
        } else {
            Ok(
                LedgerState {
                    balances: self.balances.insert(to, (self.balances[to] + amount) as u64),
                    supply: self.supply.insert(mint, (self.supply[mint] + amount) as u64),
                },
            )
        }
    }

    /// Destroys `amount` units of `mint` in the account `from`. Refused
    /// where the account, or the supply, holds fewer.
    pub open spec fn burn(self, mint: Key, from: Key, amount: u64) -> Result<
        LedgerState,
        TokenError,
    > {
        if self.balances[from] < amount || self.supply[mint] < amount {
            Err(TokenError::InsufficientFunds)
        } else {
            Ok(
                LedgerState {
                    balances: self.balances.insert(from, (self.balances[from] - amount) as u64),
                    supply: self.supply.insert(mint, (self.supply[mint] - amount) as u64),
                },
            )
        }
    }

    /// Moves `amount` units from the account `from` to the account `to`.
    /// Refused where `from` holds fewer, or where `to` would exceed
    /// `u64`. A transfer from an account to itself that is not refused
    /// changes nothing.
    pub open spec fn transfer(self, from: Key, to: Key, amount: u64) -> Result<
        LedgerState,
        TokenError,
    > {
        if self.balances[from] < amount {
            Err(TokenError::InsufficientFunds)
        } else if from == to {
            Ok(self)
        } else if self.balances[to] + amount > u64::MAX {
            Err(TokenError::Overflow)
        } else {
            Ok(
                LedgerState {
                    balances: self.balances.insert(
                        from,
                        (self.balances[from] - amount) as u64,
                    ).insert(to, (self.balances[to] + amount) as u64),
                    supply: self.supply,
                },
            )
        }
    }

    /// Carries out one instruction.
    pub open spec fn apply(self, instruction: TokenInstruction) -> Result<LedgerState, TokenError> {
        match instruction {
            TokenInstruction::MintTo { accounts, amount, .. } => self.mint_to(
                accounts.mint,
                accounts.to,
                amount,
            ),
            TokenInstruction::Burn { accounts, amount, .. } => self.burn(
                accounts.mint,
                accounts.from,
                amount,
            ),
            TokenInstruction::Transfer { accounts, amount, .. } => self.transfer(
                accounts.from,
                accounts.to,
                amount,
            ),
        }
    }

    /// Carries out the instructions of `plan` in order. The first refusal
    /// is the result; nothing of the plan then counts.
    pub open spec fn apply_all(self, plan: Seq<TokenInstruction>) -> Result<
        LedgerState,
        TokenError,
    >
        decreases plan.len(),
    {
        if plan.len() == 0 {
            Ok(self)
        } else {
            match self.apply(plan.first()) {
                Ok(next) => next.apply_all(plan.drop_first()),
                Err(refusal) => Err(refusal),
            }
        }
    }
}

/// The ledger after `instruction`, where what came before was not refused.
pub open spec fn followed_by(before: Result<LedgerState, TokenError>, instruction: TokenInstruction)
    -> Result<LedgerState, TokenError> {
    match before {
        Ok(ledger) => ledger.apply(instruction),
        Err(refusal) => Err(refusal),
    }
}

/// Carrying out a plan with one more instruction at its end is carrying
/// out the plan and then that instruction.
pub proof fn apply_all_push(
    ledger: LedgerState,
    plan: Seq<TokenInstruction>,
    instruction: TokenInstruction,
)
    ensures
        ledger.apply_all(plan.push(instruction)) == followed_by(ledger.apply_all(plan), instruction),
    decreases plan.len(),
{
    let longer = plan.push(instruction);
    if plan.len() == 0 {
        assert(longer.first() == instruction);
        assert(longer.drop_first() =~= Seq::<TokenInstruction>::empty());
        match ledger.apply(instruction) {
            Ok(next) => {
                assert(next.apply_all(longer.drop_first()) == Ok::<LedgerState, TokenError>(next));
            },
            Err(_) => {},
        }
    } else {
        assert(longer.first() == plan.first());
        assert(longer.drop_first() =~= plan.drop_first().push(instruction));
        match ledger.apply(plan.first()) {
            Ok(next) => {
                apply_all_push(next, plan.drop_first(), instruction);
            },
            Err(_) => {},
        }
    }
}

/// A plan of three instructions is carried out one after the other.
pub proof fn apply_all_three(
    ledger: LedgerState,
    first: TokenInstruction,
    second: TokenInstruction,
    third: TokenInstruction,
)
    ensures
        ledger.apply_all(seq![first, second, third]) == followed_by(
            followed_by(ledger.apply(first), second),
            third,
        ),
{
    let none = Seq::<TokenInstruction>::empty();
    apply_all_push(ledger, none, first);
    apply_all_push(ledger, none.push(first), second);
    apply_all_push(ledger, none.push(first).push(second), third);
    assert(seq![first, second, third] =~= none.push(first).push(second).push(third));
}

/// A plan of one instruction is that instruction.
pub proof fn apply_all_one(ledger: LedgerState, only: TokenInstruction)
    ensures
        ledger.apply_all(seq![only]) == ledger.apply(only),
{
    let none = Seq::<TokenInstruction>::empty();
    apply_all_push(ledger, none, only);
    assert(seq![only] =~= none.push(only));
}

/// A plan of five instructions is carried out one after the other.
pub proof fn apply_all_five(
    ledger: LedgerState,
    first: TokenInstruction,
    second: TokenInstruction,
    third: TokenInstruction,
    fourth: TokenInstruction,
    fifth: TokenInstruction,
)
    ensures
        ledger.apply_all(seq![first, second, third, fourth, fifth]) == followed_by(
            followed_by(followed_by(followed_by(ledger.apply(first), second), third), fourth),
            fifth,
        ),
{
    let three = seq![first, second, third];
    apply_all_three(ledger, first, second, third);
    apply_all_push(ledger, three, fourth);
    apply_all_push(ledger, three.push(fourth), fifth);
    assert(seq![first, second, third, fourth, fifth] =~= three.push(fourth).push(fifth));
}

/// Destroying what was just created undoes it.
pub proof fn burn_undoes_mint_to(ledger: LedgerState, mint: Key, account: Key, amount: u64)
    requires
        ledger.total(),
        ledger.mint_to(mint, account, amount) is Ok,
    ensures
        ledger.mint_to(mint, account, amount) matches Ok(minted) && minted.total() && minted.burn(
            mint,
            account,
            amount,
        ) == Ok::<LedgerState, TokenError>(ledger),
{
    let minted = ledger.mint_to(mint, account, amount)->Ok_0;
    let burned = minted.burn(mint, account, amount)->Ok_0;
    assert(minted.balances.dom() =~= Set::<Key>::full());
    assert(minted.supply.dom() =~= Set::<Key>::full());
    assert(burned.balances =~= ledger.balances);
    assert(burned.supply =~= ledger.supply);
}

/// Moving units back undoes moving them.
pub proof fn transfer_back_undoes_transfer(ledger: LedgerState, from: Key, to: Key, amount: u64)
    requires
        ledger.total(),
        ledger.transfer(from, to, amount) is Ok,
    ensures
        ledger.transfer(from, to, amount) matches Ok(moved) && moved.total() && moved.transfer(
            to,
            from,
            amount,
        ) == Ok::<LedgerState, TokenError>(ledger),
{
    let moved = ledger.transfer(from, to, amount)->Ok_0;
    if from != to {
        let back = moved.transfer(to, from, amount)->Ok_0;
        assert(moved.balances.dom() =~= Set::<Key>::full());
        assert(back.balances =~= ledger.balances);
    }
}

/// Two burns of the same amount can be made in either order.
pub proof fn burns_commute(
    ledger: LedgerState,
    mint_a: Key,
    from_a: Key,
    mint_b: Key,
    from_b: Key,
    amount: u64,
)
    requires
        ledger.total(),
        ledger.burn(mint_a, from_a, amount) matches Ok(first) && first.burn(
            mint_b,
            from_b,
            amount,
        ) is Ok,
    ensures
        ledger.burn(mint_b, from_b, amount) matches Ok(other) && other.burn(
            mint_a,
            from_a,
            amount,
        ) == ledger.burn(mint_a, from_a, amount)->Ok_0.burn(mint_b, from_b, amount),
{
    let first = ledger.burn(mint_a, from_a, amount)->Ok_0;
    let both = first.burn(mint_b, from_b, amount)->Ok_0;
    let other = ledger.burn(mint_b, from_b, amount)->Ok_0;
    let swapped = other.burn(mint_a, from_a, amount)->Ok_0;
    assert(swapped.balances =~= both.balances);
    assert(swapped.supply =~= both.supply);
}

} // verus!
