//! Sizes of the stored fields, in bytes.

use vstd::prelude::*;

verus! {

/// Tag that precedes every stored record.
pub const DISCRIMINATOR: usize = 8;

/// A `u64` or an `i64`.
pub const U64_L: usize = 8;

/// A `u8`, or a status held in one byte.
pub const U8_L: usize = 1;

/// A [`Key`](crate::key::Key).
pub const PUBKEY_L: usize = 32;

/// Length prefix of a string or a byte sequence.
pub const STRING_PREFIX: usize = 4;

/// Longest title of a market.
pub const STR_MAX_LEN: usize = 64;

/// Longest payload of a proposal.
pub const DATA_MAX_LEN: usize = 256;

/// Decimal places of a stable unit.
pub const VUSD_DECIMALS: u8 = 6;

/// Decimal places of a yes or a no unit: they are not divisible.
pub const OUTCOME_DECIMALS: u8 = 0;

} // verus!
