//! The one counter from which markets and proposals take their identifiers.

use crate::errors::QuantumError;
use vstd::prelude::*;

verus! {

/// The sequencer: the identifier that the next market or proposal gets.
/// There is one such record, created once.
#[derive(Clone, Copy, Debug, PartialEq, Eq, Structural)]
pub struct GlobalState {
    pub next_id: u64,
}

impl GlobalState {
    /// Bytes that the stored record takes.
    pub const SIZE: usize = 8 + 8;

    /// The identifier that `issue_id` hands out from a counter that stands
    /// at `next_id`, or the refusal where the counter cannot advance.
    pub open spec fn spec_issue_id(next_id: u64) -> Result<u64, QuantumError> {
        if next_id < u64::MAX {
            Ok(next_id)
        } else {
            Err(QuantumError::Overflow)
        }
    }

    /// Hands out the next identifier and advances the counter by one.
    /// Identifiers therefore never repeat and grow by one each time. A
    /// counter that stands at the largest `u64` cannot advance: the call is
    /// refused with `Overflow` and the counter stays.
    pub fn issue_id(&mut self) -> (issued: Result<u64, QuantumError>)
        ensures
            issued == Self::spec_issue_id(old(self).next_id),
            issued is Ok ==> final(self).next_id == old(self).next_id + 1,
            issued is Err ==> *final(self) == *old(self),
    {
        let id: u64 = self.next_id;
        match id.checked_add(1) {
            Some(next) => {
                self.next_id = next;
                Ok(id)
            },
            None => Err(QuantumError::Overflow),
        }
    }
}

} // verus!
