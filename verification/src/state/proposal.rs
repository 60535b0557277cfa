//! A proposal: what was issued for one locked deposit, and under which
//! token types.

use crate::constants::{DATA_MAX_LEN, DISCRIMINATOR, PUBKEY_L, STRING_PREFIX, U64_L, U8_L};
use crate::key::Key;
use vstd::prelude::*;

verus! {

/// One side of the outcome pair.
#[derive(Clone, Copy, Debug, PartialEq, Eq, Structural)]
pub enum PoolSide {
    Yes,
    No,
}

/// A proposal made in a market. It is written once, when the proposal is
/// created.
#[derive(Clone, Debug, PartialEq, Eq)]
pub struct ProposalConfig {
    pub id: u64,
    pub market_id: u64,
    /// Seconds since the Unix epoch.
    pub created_at: i64,
    pub creator: Key,
    /// Token type of the stable unit of this proposal.
    pub vusd_mint: Key,
    /// Token type of its yes unit.
    pub yes_mint: Key,
    /// Token type of its no unit.
    pub no_mint: Key,
    /// The yes pool; unset until pools exist.
    pub yes_pool: Key,
    /// The no pool; unset until pools exist.
    pub no_pool: Key,
    /// Payload of the proposer, at most [`DATA_MAX_LEN`] bytes. It is
    /// stored and never read.
    pub data: Vec<u8>,
    pub bump: u8,
}

impl ProposalConfig {
    /// Bytes that the stored record takes at most.
    pub const SIZE: usize = DISCRIMINATOR + U64_L * 2 + U64_L + PUBKEY_L * 4 + PUBKEY_L * 2
        + STRING_PREFIX + DATA_MAX_LEN + U8_L;

    /// Whether the record fits the space kept for it: the payload is
    /// within its limit.
    pub open spec fn fits(&self) -> bool {
        self.data@.len() <= DATA_MAX_LEN
    }

    /// Whether `data` is within the limit for a proposal's payload. A
    /// caller that has tested this has what creating a proposal asks of
    /// the payload.
    pub fn data_fits(data: &[u8]) -> (fits: bool)
        ensures
            fits == (data@.len() <= DATA_MAX_LEN),
    {
        data.len() <= DATA_MAX_LEN
    }
}

} // verus!
