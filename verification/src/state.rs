//! The records that the operations read and write.

use crate::key::Key;
use crate::state::config::MarketStatus;
use vstd::prelude::*;

pub mod config;
pub mod deposit;
pub mod global;
pub mod proposal;

verus! {

/// A market in its flat layout, which also names the proposal that the
/// market has accepted, once it has accepted one.
#[derive(Clone, Debug, PartialEq, Eq)]
pub struct Market {
    pub id: u64,
    /// Seconds since the Unix epoch.
    pub created_at: i64,
    pub min_deposit: u64,
    pub strike_price: u64,
    pub creator: Key,
    /// The token in which deposits are made.
    pub market_token: Key,
    /// Who may resolve the market.
    pub resolver: Key,
    pub status: MarketStatus,
    /// At most sixty-four bytes.
    pub title: String,
    pub accepted_proposal: Option<u64>,
}

/// A proposal in its flat layout, which names its market by the market
/// record's address.
#[derive(Clone, Debug, PartialEq, Eq)]
pub struct Proposal {
    pub id: u64,
    /// Address of the market record.
    pub market: Key,
    /// Seconds since the Unix epoch.
    pub created_at: i64,
    pub creator: Key,
    /// Token type of the stable unit.
    pub vusd_mint: Key,
    /// Token type of the yes unit.
    pub yes_mint: Key,
    /// Token type of the no unit.
    pub no_mint: Key,
    /// Payload of the proposer; stored and never read.
    pub data: Vec<u8>,
}

} // verus!
