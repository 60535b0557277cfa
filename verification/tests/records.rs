use quantum_markets::constants::{
    DATA_MAX_LEN, DISCRIMINATOR, OUTCOME_DECIMALS, PUBKEY_L, STRING_PREFIX, STR_MAX_LEN, U64_L,
    U8_L, VUSD_DECIMALS,
};
use quantum_markets::errors::QuantumError;
use quantum_markets::instructions::Deposit;
use quantum_markets::issuance::IssuanceSplit;
use quantum_markets::key::{Key, KEY_LEN};
use quantum_markets::state::config::{MarketConfig, MarketStatus};
use quantum_markets::state::deposit::{ClaimRecord, DepositRecord};
use quantum_markets::state::global::GlobalState;
use quantum_markets::state::proposal::{PoolSide, ProposalConfig};
use quantum_markets::state::{Market, Proposal};
use quantum_markets::token::Transfer;

fn key(tag: u8) -> Key {
    Key::new_from_array([tag; 32])
}

fn split(d: u64) -> (u64, u64, u64) {
    let s = IssuanceSplit::split_deposit(d);
    (s.burn_total, s.per_pool, s.stable_to_mint)
}

#[test]
fn split_of_nine() {
    assert_eq!(
        IssuanceSplit::split_deposit(9),
        IssuanceSplit { burn_total: 6, per_pool: 3, stable_to_mint: 3 }
    );
}

#[test]
fn split_rounds_down_twice() {
    assert_eq!(split(10), (6, 3, 4));
    assert_eq!(split(11), (7, 3, 4));
    assert_eq!(split(12), (8, 4, 4));
    assert_eq!(split(100), (66, 33, 34));
    assert_eq!(split(1_000_001), (666_667, 333_333, 333_334));
}

#[test]
fn split_below_three_issues_no_outcome_units() {
    assert_eq!(split(0), (0, 0, 0));
    assert_eq!(split(1), (0, 0, 1));
    assert_eq!(split(2), (1, 0, 1));
    assert_eq!(split(3), (2, 1, 1));
}

#[test]
fn split_of_the_largest_deposit_does_not_wrap() {
    assert_eq!(
        split(u64::MAX),
        (12_297_829_382_473_034_410, 6_148_914_691_236_517_205, 6_148_914_691_236_517_205)
    );
    assert_eq!(
        split(u64::MAX - 1),
        (12_297_829_382_473_034_409, 6_148_914_691_236_517_204, 6_148_914_691_236_517_205)
    );
    assert_eq!(split(1 << 63), (6_148_914_691_236_517_205, 3_074_457_345_618_258_602, 3_074_457_345_618_258_603));
}

#[test]
fn split_conserves_the_deposit() {
    for d in (0..2_000u64).chain([u64::MAX / 2, u64::MAX / 2 + 1, u64::MAX - 2, u64::MAX]) {
        let s = IssuanceSplit::split_deposit(d);
        assert_eq!(s.burn_total as u128, d as u128 * 2 / 3);
        assert_eq!(s.per_pool, s.burn_total / 2);
        assert_eq!(s.stable_to_mint + s.burn_total, d);
        assert!(s.per_pool <= s.stable_to_mint);
        assert!(s.burn_total - 2 * s.per_pool <= 1);
    }
}

#[test]
fn lock_takes_what_is_there() {
    let mut record = DepositRecord { amount: 9 };
    assert_eq!(record.lock(4), Ok(5));
    assert_eq!(record.amount, 5);
    assert_eq!(record.lock(0), Ok(5));
    assert_eq!(record.lock(5), Ok(0));
    assert_eq!(record.amount, 0);
}

#[test]
fn lock_of_too_much_is_refused_and_changes_nothing() {
    let mut record = DepositRecord { amount: 9 };
    assert_eq!(record.lock(10), Err(QuantumError::InsufficientDeposit));
    assert_eq!(record, DepositRecord { amount: 9 });
    assert_eq!(record.lock(u64::MAX), Err(QuantumError::InsufficientDeposit));
    assert_eq!(record, DepositRecord { amount: 9 });
    let mut empty = DepositRecord { amount: 0 };
    assert_eq!(empty.lock(1), Err(QuantumError::InsufficientDeposit));
    assert_eq!(empty.amount, 0);
}

#[test]
fn deposit_adds_up() {
    let mut record = DepositRecord { amount: 0 };
    assert_eq!(record.deposit(9), Ok(9));
    assert_eq!(record.deposit(0), Ok(9));
    assert_eq!(record.deposit(u64::MAX - 9), Ok(u64::MAX));
    assert_eq!(record.amount, u64::MAX);
}

#[test]
fn deposit_beyond_the_range_is_refused_and_changes_nothing() {
    let mut record = DepositRecord { amount: u64::MAX - 1 };
    assert_eq!(record.deposit(2), Err(QuantumError::Overflow));
    assert_eq!(record.amount, u64::MAX - 1);
    assert_eq!(record.deposit(1), Ok(u64::MAX));
    assert_eq!(record.deposit(1), Err(QuantumError::Overflow));
    assert_eq!(record.amount, u64::MAX);
}

#[test]
fn claim_catches_up_with_the_balance() {
    let mut record = ClaimRecord { claimed: 0 };
    assert_eq!(record.claim(9), Ok(9));
    assert_eq!(record.claimed, 9);
    assert_eq!(record.claim(9), Err(QuantumError::NothingToClaim));
    assert_eq!(record.claimed, 9);
    assert_eq!(record.claim(12), Ok(3));
    assert_eq!(record.claimed, 12);
}

#[test]
fn claim_of_nothing_is_refused() {
    let mut record = ClaimRecord { claimed: 0 };
    assert_eq!(record.claim(0), Err(QuantumError::NothingToClaim));
    assert_eq!(record.claimed, 0);
}

#[test]
fn claim_against_a_balance_that_fell_is_refused() {
    let mut record = ClaimRecord { claimed: 9 };
    assert_eq!(record.claim(8), Err(QuantumError::Overflow));
    assert_eq!(record.claimed, 9);
    assert_eq!(record.claim(0), Err(QuantumError::Overflow));
    assert_eq!(record.claimed, 9);
}

#[test]
fn identifiers_count_up_from_where_the_sequencer_stands() {
    let mut global = GlobalState { next_id: 0 };
    assert_eq!(global.issue_id(), Ok(0));
    assert_eq!(global.issue_id(), Ok(1));
    assert_eq!(global.issue_id(), Ok(2));
    assert_eq!(global.next_id, 3);
}

#[test]
fn sequencer_at_its_end_is_refused_and_stays() {
    let mut global = GlobalState { next_id: u64::MAX - 1 };
    assert_eq!(global.issue_id(), Ok(u64::MAX - 1));
    assert_eq!(global.next_id, u64::MAX);
    assert_eq!(global.issue_id(), Err(QuantumError::Overflow));
    assert_eq!(global.next_id, u64::MAX);
}

#[test]
fn only_open_and_accepted_markets_take_deposits() {
    assert!(MarketStatus::Open.accepts_deposits());
    assert!(MarketStatus::ProposalAccepted.accepts_deposits());
    assert!(!MarketStatus::Timeout.accepts_deposits());
    assert!(!MarketStatus::ResolvedYes.accepts_deposits());
    assert!(!MarketStatus::ResolvedNo.accepts_deposits());
}

#[test]
fn init_fills_in_every_field() {
    let mut market = MarketConfig {
        id: 1,
        created_at: 2,
        min_deposit: 3,
        strike_price: 4,
        creator: key(5),
        market_token: key(6),
        resolver: key(7),
        status: MarketStatus::Timeout,
        title: String::from("old"),
        bump: 8,
    };
    market.init(
        11,
        -12,
        13,
        14,
        key(15),
        key(16),
        key(17),
        MarketStatus::ProposalAccepted,
        String::from("new"),
        18,
    );
    assert_eq!(
        market,
        MarketConfig {
            id: 11,
            created_at: -12,
            min_deposit: 13,
            strike_price: 14,
            creator: key(15),
            market_token: key(16),
            resolver: key(17),
            status: MarketStatus::ProposalAccepted,
            title: String::from("new"),
            bump: 18,
        }
    );
}

#[test]
fn record_sizes() {
    assert_eq!((DISCRIMINATOR, U64_L, U8_L, PUBKEY_L, STRING_PREFIX), (8, 8, 1, 32, 4));
    assert_eq!((STR_MAX_LEN, DATA_MAX_LEN), (64, 256));
    assert_eq!((VUSD_DECIMALS, OUTCOME_DECIMALS), (6, 0));
    assert_eq!(KEY_LEN, PUBKEY_L);
    assert_eq!(MarketConfig::SIZE, 206);
    assert_eq!(ProposalConfig::SIZE, 485);
    assert_eq!(DepositRecord::SIZE, 16);
    assert_eq!(ClaimRecord::SIZE, 16);
    assert_eq!(GlobalState::SIZE, 16);
}

#[test]
fn messages() {
    assert_eq!(QuantumError::DefaultError.message(), "DefaultError");
    assert_eq!(QuantumError::Overflow.message(), "Overflow detected.");
    assert_eq!(QuantumError::Underflow.message(), "Underflow detected.");
    assert_eq!(QuantumError::InsufficientDeposit.message(), "Deposit is too low.");
    assert_eq!(QuantumError::MarketClosed.message(), "Market is closed.");
    assert_eq!(QuantumError::NothingToClaim.message(), "Nothing to claim.");
}

#[test]
fn keys_are_equal_when_their_bytes_are() {
    let mut bytes = [7u8; 32];
    let a = Key::new_from_array(bytes);
    assert_eq!(a, key(7));
    assert_eq!(a.to_bytes(), bytes);
    for i in 0..32 {
        bytes[i] = 8;
        assert_ne!(Key::new_from_array(bytes), a);
        bytes[i] = 7;
    }
    assert_eq!(Key::new_from_array(bytes), a);
}

#[test]
fn unset_key_is_all_zero() {
    assert_eq!(Key::unset().to_bytes(), [0u8; 32]);
    assert_eq!(Key::unset(), key(0));
    assert_ne!(Key::unset(), key(1));
}

#[test]
fn pool_sides_differ() {
    assert_ne!(PoolSide::Yes, PoolSide::No);
}

#[test]
fn deposit_into_a_flat_market_goes_from_depositor_to_vault() {
    let ctx = Deposit {
        market: Market {
            id: 3,
            created_at: 1,
            min_deposit: 9,
            strike_price: 2,
            creator: key(1),
            market_token: key(2),
            resolver: key(3),
            status: MarketStatus::Open,
            title: String::from("flat"),
            accepted_proposal: None,
        },
        depositor: key(10),
        depositor_ata: key(11),
        vault_ata: key(12),
    };
    assert_eq!(
        ctx.into_transfer_to_vault_context(),
        Transfer { from: key(11), to: key(12), authority: key(10) }
    );
}

#[test]
fn flat_proposal_holds_its_fields() {
    let proposal = Proposal {
        id: 1,
        market: key(2),
        created_at: 3,
        creator: key(4),
        vusd_mint: key(5),
        yes_mint: key(6),
        no_mint: key(7),
        data: vec![8],
    };
    assert_eq!(proposal.clone(), proposal);
    assert_eq!(proposal.data, vec![8]);
}

#[test]
fn title_limit_counts_bytes() {
    assert!(MarketConfig::title_fits(""));
    assert!(MarketConfig::title_fits(&"x".repeat(64)));
    assert!(!MarketConfig::title_fits(&"x".repeat(65)));
    // Thirty-two letters of two bytes each fit; one more byte does not.
    assert!(MarketConfig::title_fits(&"\u{e9}".repeat(32)));
    assert!(!MarketConfig::title_fits(&format!("{}x", "\u{e9}".repeat(32))));
}

#[test]
fn payload_limit() {
    assert!(ProposalConfig::data_fits(&[]));
    assert!(ProposalConfig::data_fits(&[0u8; 256]));
    assert!(!ProposalConfig::data_fits(&[0u8; 257]));
}
