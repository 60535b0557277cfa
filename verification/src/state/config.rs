//! A market: its terms and where it stands in its life.

use crate::constants::{DISCRIMINATOR, PUBKEY_L, STRING_PREFIX, STR_MAX_LEN, U64_L, U8_L};
use crate::key::Key;
use vstd::prelude::*;

verus! {

/// Where a market stands in its life. The operations of this crate create
/// markets as `Open` and move none of them on; the later stages are set
/// by whoever resolves markets.
#[derive(Clone, Copy, Debug, PartialEq, Eq, Structural)]
pub enum MarketStatus {
    Open,
    ProposalAccepted,
    Timeout,
    ResolvedYes,
    ResolvedNo,
}

impl MarketStatus {
    /// Whether a market in this status takes deposits: an open one does,
    /// and so does one that has accepted a proposal.
    pub open spec fn spec_accepts_deposits(self) -> bool {
        self == MarketStatus::Open || self == MarketStatus::ProposalAccepted
    }

    /// Whether a market in this status takes deposits.
    pub fn accepts_deposits(&self) -> (accepts: bool)
        ensures
            accepts == self.spec_accepts_deposits(),
    {
        match self {
            MarketStatus::Open | MarketStatus::ProposalAccepted => true,
            _ => false,
        }
    }
}

/// Number of bytes that `title` takes when stored.
pub open spec fn title_len(title: Seq<char>) -> nat {
    vstd::utf8::encode_utf8(title).len()
}

/// A market: a pool of deposits in one token, with the least deposit that
/// a proposal locks.
#[derive(Clone, Debug, PartialEq, Eq)]
pub struct MarketConfig {
    pub id: u64,
    /// Seconds since the Unix epoch.
    pub created_at: i64,
    /// What creating one proposal locks. No least value is imposed.
    pub min_deposit: u64,
    pub strike_price: u64,
    pub creator: Key,
    /// The token in which deposits are made.
    pub market_token: Key,
    /// Who may resolve the market.
    pub resolver: Key,
    pub status: MarketStatus,
    /// At most [`STR_MAX_LEN`] bytes.
    pub title: String,
    pub bump: u8,
}

impl MarketConfig {
    /// Bytes that the stored record takes at most.
    pub const SIZE: usize = DISCRIMINATOR + U64_L + U64_L + U64_L + U64_L + PUBKEY_L + PUBKEY_L
        + PUBKEY_L + U8_L + STRING_PREFIX + STR_MAX_LEN + U8_L;

    /// Whether the record fits the space kept for it: the title is within
    /// its limit.
    pub open spec fn fits(&self) -> bool {
        title_len(self.title@) <= STR_MAX_LEN
    }

    /// Whether `title` is within the limit for a market's title. A
    /// caller that has tested this has what creating a market asks of
    /// the title.
    pub fn title_fits(title: &str) -> (fits: bool)
        ensures
            fits == (title_len(title@) <= STR_MAX_LEN),
    {
        title.as_bytes().len() <= STR_MAX_LEN
    }

    /// Fills in every field of the record.
    pub fn init(
        &mut self,
        id: u64,
        created_at: i64,
        min_deposit: u64,
        strike_price: u64,
        creator: Key,
        market_token: Key,
        resolver: Key,
        status: MarketStatus,
        title: String,
        bump: u8,
    )
        ensures
            *final(self) == (MarketConfig {
                id,
                created_at,
                min_deposit,
                strike_price,
                creator,
                market_token,
                resolver,
                status,
                title,
                bump,
            }),
    {
        self.id = id;
        self.created_at = created_at;
        self.min_deposit = min_deposit;
        self.strike_price = strike_price;
        self.creator = creator;
        self.market_token = market_token;
        self.resolver = resolver;
        self.status = status;
        self.title = title;
        self.bump = bump;
    }
}

} // verus!
