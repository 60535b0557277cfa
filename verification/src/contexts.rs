//! The operations, each with the records and token accounts it works on.
//!
//! Every operation reads and writes the records it is given and returns
//! the instructions for the token ledger. The caller carries them out in
//! order and stores the records only if every one of them succeeded. A
//! refused operation leaves the records as they were and returns no
//! instruction.

pub mod claim_for_proposal;
pub mod create_market;
pub mod create_proposal;
pub mod deposit_to_market;
pub mod initialize_global;
pub mod mint_yes_no;
pub mod redeem_yes_no;
