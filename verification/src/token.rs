//! The instructions that this crate hands to the token ledger.
//!
//! The token ledger is a service outside this crate. It keeps a balance
//! for every token account and a supply for every token type, and it
//! carries out three instructions, each of them wholly or not at all.
//! This crate only says which instructions an operation needs.

use crate::key::Key;
use vstd::prelude::*;

verus! {

/// The accounts of an instruction that creates units of a token type.
#[derive(Clone, Copy, Debug, PartialEq, Eq)]
pub struct MintTo {
    /// The token type.
    pub mint: Key,
    /// The token account that receives the new units.
    pub to: Key,
    /// Who may create units of this type.
    pub authority: Key,
}

/// The accounts of an instruction that moves units between two token
/// accounts.
#[derive(Clone, Copy, Debug, PartialEq, Eq)]
pub struct Transfer {
    /// The token account that gives.
    pub from: Key,
    /// The token account that receives.
    pub to: Key,
    /// Who may take from `from`.
    pub authority: Key,
}

/// The accounts of an instruction that destroys units of a token type.
#[derive(Clone, Copy, Debug, PartialEq, Eq)]
pub struct Burn {
    /// The token type.
    pub mint: Key,
    /// The token account that loses the units.
    pub from: Key,
    /// Who may take from `from`.
    pub authority: Key,
}

/// How an instruction is authorised.
#[derive(Clone, Copy, Debug, PartialEq, Eq, Structural)]
pub enum Authorization {
    /// The authority has signed the operation itself.
    Signed,
    /// The authority is the issuance authority, an address derived by the
    /// program, which signs for it with this bump. No key of it exists.
    ProposalAuthority { bump: u8 },
}

/// One instruction to the token ledger.
#[derive(Clone, Copy, Debug, PartialEq, Eq)]
pub enum TokenInstruction {
    MintTo { accounts: MintTo, authorization: Authorization, amount: u64 },
    Transfer { accounts: Transfer, authorization: Authorization, amount: u64 },
    Burn { accounts: Burn, authorization: Authorization, amount: u64 },
}

impl TokenInstruction {
    /// The units that the instruction creates, moves or destroys.
    pub open spec fn spec_amount(self) -> u64 {
        match self {
            TokenInstruction::MintTo { amount, .. } => amount,
            TokenInstruction::Transfer { amount, .. } => amount,
            TokenInstruction::Burn { amount, .. } => amount,
        }
    }

    /// The units that the instruction creates, moves or destroys.
    pub fn amount(&self) -> (units: u64)
        ensures
            units == self.spec_amount(),
    {
        match self {
            TokenInstruction::MintTo { amount, .. } => *amount,
            TokenInstruction::Transfer { amount, .. } => *amount,
            TokenInstruction::Burn { amount, .. } => *amount,
        }
    }
}

/// The instruction by which the issuance authority creates `amount` units
/// of `mint` in the token account `to`.
pub open spec fn issue(mint: Key, to: Key, authority: Key, bump: u8, amount: u64)
    -> TokenInstruction {
    TokenInstruction::MintTo {
        accounts: MintTo { mint, to, authority },
        authorization: Authorization::ProposalAuthority { bump },
        amount,
    }
}

/// What an operation hands back: its result, and the instructions that
/// the token ledger has to carry out for the operation to count.
#[derive(Clone, Debug, PartialEq, Eq)]
pub struct Receipt<T> {
    pub output: T,
    pub instructions: Vec<TokenInstruction>,
}

} // verus!
