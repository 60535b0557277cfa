//! Creating a market.

use crate::constants::STR_MAX_LEN;
use crate::errors::QuantumError;
use crate::key::Key;
use crate::state::config::{title_len, MarketConfig, MarketStatus};
use crate::state::global::GlobalState;
use vstd::prelude::*;

verus! {

/// The bumps of the derived addresses that creating a market uses.
#[derive(Clone, Copy, Debug, PartialEq, Eq, Structural)]
pub struct CreateMarketBumps {
    /// Of the new market record.
    pub market: u8,
}

/// What creating a market works on.
#[derive(Clone, Debug, PartialEq, Eq)]
pub struct CreateMarket {
    /// Who creates the market.
    pub payer: Key,
    /// The token in which the market will take deposits.
    pub reward_mint: Key,
    /// Who may resolve the market.
    pub resolver: Key,
    /// The record of the new market; the operation writes it.
    pub market: MarketConfig,
    /// The sequencer.
    pub global: GlobalState,
}

impl CreateMarket {
    /// The record of the new market: open, under the identifier that the
    /// sequencer stands at.
    pub open spec fn spec_market(
        &self,
        bumps: CreateMarketBumps,
        min_deposit: u64,
        strike_price: u64,
        title: String,
        now: i64,
    ) -> MarketConfig {
        MarketConfig {
            id: self.global.next_id,
            created_at: now,
            min_deposit,
            strike_price,
            creator: self.payer,
            market_token: self.reward_mint,
            resolver: self.resolver,
            status: MarketStatus::Open,
            title,
            bump: bumps.market,
        }
    }

    /// Creates a market at the time `now` and returns its identifier, the
    /// one that the sequencer stood at; the sequencer advances by one. The
    /// market is open. Any `min_deposit` is taken, zero too.
    ///
    /// Refused with `Overflow` where the sequencer cannot advance. A
    /// refused call changes nothing.
    pub fn create_market(
        &mut self,
        bumps: CreateMarketBumps,
        min_deposit: u64,
        strike_price: u64,
        title: String,
        now: i64,
    ) -> (created: Result<u64, QuantumError>)
        requires
            title_len(title@) <= STR_MAX_LEN,
        ensures
            created == GlobalState::spec_issue_id(old(self).global.next_id),
            created is Ok ==> *final(self) == (CreateMarket {
                market: old(self).spec_market(bumps, min_deposit, strike_price, title, now),
                global: GlobalState { next_id: (old(self).global.next_id + 1) as u64 },
                ..*old(self)
            }),
            created is Ok ==> final(self).market.fits(),
            created is Err ==> *final(self) == *old(self),
    {
        let market_id: u64 = match self.global.issue_id() {
            Ok(id) => id,
            Err(refusal) => {
                return Err(refusal);
            },
        };
        let creator = self.payer;
        let market_token = self.reward_mint;
        let resolver = self.resolver;
        self.market.init(
            market_id,
            now,
            min_deposit,
            strike_price,
            creator,
            market_token,
            resolver,
            MarketStatus::Open,
            title,
            bumps.market,
        );
        Ok(market_id)
    }
}

} // verus!
