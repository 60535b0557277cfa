use quantum_markets::key::Key;
use quantum_markets::ledger::memory::TokenLedger;
use quantum_markets::ledger::TokenError;
use quantum_markets::token::{Authorization, Burn, MintTo, TokenInstruction, Transfer};

fn key(tag: u8) -> Key {
    Key::new_from_array([tag; 32])
}

fn mint_to(mint: u8, to: u8, amount: u64) -> TokenInstruction {
    TokenInstruction::MintTo {
        accounts: MintTo { mint: key(mint), to: key(to), authority: key(200) },
        authorization: Authorization::ProposalAuthority { bump: 255 },
        amount,
    }
}

fn burn(mint: u8, from: u8, amount: u64) -> TokenInstruction {
    TokenInstruction::Burn {
        accounts: Burn { mint: key(mint), from: key(from), authority: key(201) },
        authorization: Authorization::Signed,
        amount,
    }
}

fn transfer(from: u8, to: u8, amount: u64) -> TokenInstruction {
    TokenInstruction::Transfer {
        accounts: Transfer { from: key(from), to: key(to), authority: key(201) },
        authorization: Authorization::Signed,
        amount,
    }
}

#[test]
fn new_ledger_holds_nothing() {
    let ledger = TokenLedger::new();
    assert_eq!(ledger.balance(&key(1)), 0);
    assert_eq!(ledger.supply(&key(1)), 0);
    assert_eq!(ledger.balance(&Key::unset()), 0);
}

#[test]
fn minting_raises_balance_and_supply() {
    let mut ledger = TokenLedger::new();
    assert_eq!(ledger.process(&mint_to(1, 10, 5)), Ok(()));
    assert_eq!(ledger.process(&mint_to(1, 11, 7)), Ok(()));
    assert_eq!(ledger.process(&mint_to(2, 12, 1)), Ok(()));
    assert_eq!(ledger.balance(&key(10)), 5);
    assert_eq!(ledger.balance(&key(11)), 7);
    assert_eq!(ledger.balance(&key(12)), 1);
    assert_eq!(ledger.supply(&key(1)), 12);
    assert_eq!(ledger.supply(&key(2)), 1);
    // A token type and a token account are told apart.
    assert_eq!(ledger.balance(&key(1)), 0);
    assert_eq!(ledger.supply(&key(10)), 0);
}

#[test]
fn minting_beyond_the_range_is_refused() {
    let mut ledger = TokenLedger::new();
    ledger.process(&mint_to(1, 10, u64::MAX - 1)).unwrap();
    // The supply would overflow although the receiving account is empty.
    assert_eq!(ledger.process(&mint_to(1, 11, 2)), Err(TokenError::Overflow));
    assert_eq!(ledger.balance(&key(11)), 0);
    assert_eq!(ledger.supply(&key(1)), u64::MAX - 1);
    // The balance would overflow although the supply of the type is low.
    assert_eq!(ledger.process(&mint_to(2, 10, 2)), Err(TokenError::Overflow));
    assert_eq!(ledger.supply(&key(2)), 0);
    assert_eq!(ledger.process(&mint_to(1, 10, 1)), Ok(()));
    assert_eq!(ledger.balance(&key(10)), u64::MAX);
}

#[test]
fn burning_lowers_balance_and_supply() {
    let mut ledger = TokenLedger::new();
    ledger.process(&mint_to(1, 10, 5)).unwrap();
    ledger.process(&mint_to(1, 11, 5)).unwrap();
    assert_eq!(ledger.process(&burn(1, 10, 2)), Ok(()));
    assert_eq!(ledger.balance(&key(10)), 3);
    assert_eq!(ledger.balance(&key(11)), 5);
    assert_eq!(ledger.supply(&key(1)), 8);
    assert_eq!(ledger.process(&burn(1, 10, 3)), Ok(()));
    assert_eq!(ledger.balance(&key(10)), 0);
}

#[test]
fn burning_what_is_not_there_is_refused() {
    let mut ledger = TokenLedger::new();
    ledger.process(&mint_to(1, 10, 5)).unwrap();
    assert_eq!(ledger.process(&burn(1, 10, 6)), Err(TokenError::InsufficientFunds));
    assert_eq!(ledger.process(&burn(1, 11, 1)), Err(TokenError::InsufficientFunds));
    // Units of another type: the account holds five, that type has none.
    assert_eq!(ledger.process(&burn(2, 10, 1)), Err(TokenError::InsufficientFunds));
    assert_eq!(ledger.balance(&key(10)), 5);
    assert_eq!(ledger.supply(&key(1)), 5);
}

#[test]
fn transfer_moves_units() {
    let mut ledger = TokenLedger::new();
    ledger.process(&mint_to(1, 10, 5)).unwrap();
    assert_eq!(ledger.process(&transfer(10, 11, 2)), Ok(()));
    assert_eq!(ledger.balance(&key(10)), 3);
    assert_eq!(ledger.balance(&key(11)), 2);
    assert_eq!(ledger.supply(&key(1)), 5);
    assert_eq!(ledger.process(&transfer(11, 10, 2)), Ok(()));
    assert_eq!(ledger.balance(&key(10)), 5);
    assert_eq!(ledger.balance(&key(11)), 0);
}

#[test]
fn transfer_of_what_is_not_there_is_refused() {
    let mut ledger = TokenLedger::new();
    ledger.process(&mint_to(1, 10, 5)).unwrap();
    assert_eq!(ledger.process(&transfer(10, 11, 6)), Err(TokenError::InsufficientFunds));
    assert_eq!(ledger.process(&transfer(12, 11, 1)), Err(TokenError::InsufficientFunds));
    assert_eq!(ledger.balance(&key(10)), 5);
    assert_eq!(ledger.balance(&key(11)), 0);
}

#[test]
fn transfer_beyond_the_range_is_refused() {
    let mut ledger = TokenLedger::new();
    ledger.process(&mint_to(1, 10, u64::MAX)).unwrap();
    ledger.process(&mint_to(2, 11, 1)).unwrap();
    assert_eq!(ledger.process(&transfer(11, 10, 1)), Err(TokenError::Overflow));
    assert_eq!(ledger.balance(&key(10)), u64::MAX);
    assert_eq!(ledger.balance(&key(11)), 1);
}

#[test]
fn transfer_to_oneself_changes_nothing() {
    let mut ledger = TokenLedger::new();
    ledger.process(&mint_to(1, 10, u64::MAX)).unwrap();
    assert_eq!(ledger.process(&transfer(10, 10, 5)), Ok(()));
    assert_eq!(ledger.process(&transfer(10, 10, u64::MAX)), Ok(()));
    assert_eq!(ledger.balance(&key(10)), u64::MAX);
    assert_eq!(ledger.process(&transfer(11, 11, 1)), Err(TokenError::InsufficientFunds));
}

#[test]
fn plan_is_carried_out_in_order() {
    let mut ledger = TokenLedger::new();
    let plan = vec![mint_to(1, 10, 5), transfer(10, 11, 5), burn(1, 11, 4), transfer(11, 10, 1)];
    assert_eq!(ledger.process_all(&plan), Ok(()));
    assert_eq!(ledger.balance(&key(10)), 1);
    assert_eq!(ledger.balance(&key(11)), 0);
    assert_eq!(ledger.supply(&key(1)), 1);
    assert_eq!(ledger.process_all(&Vec::new()), Ok(()));
    assert_eq!(ledger.balance(&key(10)), 1);
}

#[test]
fn refused_plan_leaves_no_trace() {
    let mut ledger = TokenLedger::new();
    ledger.process(&mint_to(1, 10, 5)).unwrap();
    let plan = vec![transfer(10, 11, 3), mint_to(2, 12, 9), burn(1, 10, 3)];
    assert_eq!(ledger.process_all(&plan), Err(TokenError::InsufficientFunds));
    assert_eq!(ledger.balance(&key(10)), 5);
    assert_eq!(ledger.balance(&key(11)), 0);
    assert_eq!(ledger.balance(&key(12)), 0);
    assert_eq!(ledger.supply(&key(2)), 0);
    let plan = vec![mint_to(2, 12, u64::MAX), mint_to(2, 13, 1)];
    assert_eq!(ledger.process_all(&plan), Err(TokenError::Overflow));
    assert_eq!(ledger.supply(&key(2)), 0);
}

#[test]
fn instruction_names_its_amount() {
    assert_eq!(mint_to(1, 2, 3).amount(), 3);
    assert_eq!(burn(1, 2, 4).amount(), 4);
    assert_eq!(transfer(1, 2, 5).amount(), 5);
}
