//! Identities of records, token types and token accounts.

use vstd::prelude::*;
use vstd::std_specs::cmp::PartialEqSpecImpl;

verus! {

/// Number of bytes in a [`Key`].
pub const KEY_LEN: usize = 32;

/// The identity of a participant, a record, a token type or a token
/// account: thirty-two bytes that this crate never interprets.
#[derive(Clone, Copy, Debug)]
pub struct Key {
    pub bytes: [u8; 32],
}

impl View for Key {
    type V = Seq<u8>;

    open spec fn view(&self) -> Seq<u8> {
        self.bytes@
    }
}

impl Key {
    /// The key that stands for "not set yet": all bytes zero.
    pub open spec fn spec_unset() -> Key {
        Key { bytes: vstd::array::spec_array_fill_for_copy_type::<u8, 32>(0u8) }
    }

    /// Whether this is the key that stands for "not set yet".
    pub open spec fn is_unset(&self) -> bool {
        self@ == Seq::new(32, |i: int| 0u8)
    }

    /// The unset key is the one whose bytes are all zero, and no other key
    /// is.
    pub proof fn unset_is_all_zero(k: Key)
        ensures
            k.is_unset() <==> k == Key::spec_unset(),
    {
        broadcast use vstd::array::axiom_spec_array_fill_for_copy_type;

        let zero = Key::spec_unset();
        assert(zero@ =~= Seq::new(32, |i: int| 0u8));
        if k.is_unset() {
            assert(k.bytes =~= zero.bytes);
        }
    }

    /// Wraps thirty-two bytes.
    pub fn new_from_array(bytes: [u8; 32]) -> (k: Key)
        ensures
            k.bytes == bytes,
    {
        Key { bytes }
    }

    /// The thirty-two bytes of the key.
    pub fn to_bytes(&self) -> (bytes: [u8; 32])
        ensures
            bytes == self.bytes,
    {
        self.bytes
    }

    /// The placeholder for a reference that has not been set.
    pub fn unset() -> (k: Key)
        ensures
            k == Key::spec_unset(),
            k.is_unset(),
    {
        broadcast use vstd::array::axiom_spec_array_fill_for_copy_type;

        let bytes = [0u8; 32];
        assert(bytes@ =~= Seq::new(32, |i: int| 0u8));
        Key { bytes }
    }
}

impl PartialEq for Key {
    fn eq(&self, other: &Key) -> (same: bool) {
        let mut i: usize = 0;
        while i < 32
            invariant
                i <= 32,
                forall|j: int| 0 <= j < i ==> self.bytes[j] == other.bytes[j],
            decreases 32 - i,
        {
            if self.bytes[i] != other.bytes[i] {
                return false;
            }
            i += 1;
        }
        assert(self.bytes =~= other.bytes);
        true
    }
}

impl PartialEqSpecImpl for Key {
    open spec fn obeys_eq_spec() -> bool {
        true
    }

    open spec fn eq_spec(&self, other: &Key) -> bool {
        *self == *other
    }
}

impl Eq for Key {}

} // verus!
