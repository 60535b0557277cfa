//! The ways in which an operation can be refused.

use vstd::prelude::*;

verus! {

/// Why an operation was refused. A refused operation changes nothing.
#[derive(Clone, Copy, Debug, PartialEq, Eq, Structural)]
pub enum QuantumError {
    /// Reserved; no operation of this crate reports it.
    DefaultError,
    /// A sum or a difference left the range of `u64`.
    Overflow,
    /// Reserved for a difference that would fall below zero; the operations
    /// of this crate test the balance first and never report it.
    Underflow,
    /// More was asked of a deposit than it holds.
    InsufficientDeposit,
    /// A deposit was offered to a market that takes none.
    MarketClosed,
    /// A claim would have issued nothing.
    NothingToClaim,
}

impl QuantumError {
    /// The text shown for each refusal.
    pub open spec fn spec_message(self) -> Seq<char> {
        match self {
            QuantumError::DefaultError => "DefaultError"@,
            QuantumError::Overflow => "Overflow detected."@,
            QuantumError::Underflow => "Underflow detected."@,
            QuantumError::InsufficientDeposit => "Deposit is too low."@,
            QuantumError::MarketClosed => "Market is closed."@,
            QuantumError::NothingToClaim => "Nothing to claim."@,
        }
    }

    /// A short sentence that names the refusal.
    pub fn message(&self) -> (text: &'static str)
        ensures
            text@ == self.spec_message(),
    {
        match self {
            QuantumError::DefaultError => "DefaultError",
            QuantumError::Overflow => "Overflow detected.",
            QuantumError::Underflow => "Underflow detected.",
            QuantumError::InsufficientDeposit => "Deposit is too low.",
            QuantumError::MarketClosed => "Market is closed.",
            QuantumError::NothingToClaim => "Nothing to claim.",
        }
    }
}

} // verus!
