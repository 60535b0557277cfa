//! Setting up the sequencer.

use crate::errors::QuantumError;
use crate::key::Key;
use crate::state::global::GlobalState;
use vstd::prelude::*;

verus! {

/// What setting up the sequencer works on.
#[derive(Clone, Copy, Debug, PartialEq, Eq)]
pub struct InitializeGlobal {
    /// The sequencer record, newly made. That it is made only once is the
    /// store's to ensure: it refuses to make a record that exists.
    pub global: GlobalState,
    /// Who pays for the record.
    pub payer: Key,
}

impl InitializeGlobal {
    /// Starts the sequencer: the first identifier it hands out is zero.
    /// Never refused.
    pub fn handler(&mut self) -> (done: Result<(), QuantumError>)
        ensures
            done is Ok,
            *final(self) == (InitializeGlobal {
                global: GlobalState { next_id: 0 },
                ..*old(self)
            }),
    {
        self.global.next_id = 0;
        Ok(())
    }
}

} // verus!
