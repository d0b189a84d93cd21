//! Account addresses as the vault logic sees them: 32 raw bytes.

use vstd::prelude::*;

verus! {

/// The 32-byte address of an account (a signer, a mint, an oracle feed).
#[derive(Clone, Copy, Debug)]
pub struct AccountKey {
    pub bytes: [u8; 32],
}

impl AccountKey {
    /// The key with the given bytes.
    pub fn new(bytes: [u8; 32]) -> (k: AccountKey)
        ensures
            k.bytes == bytes,
    {
        AccountKey { bytes }
    }

    /// The key's bytes.
    pub fn to_bytes(&self) -> (b: [u8; 32])
        ensures
            b == self.bytes,
    {
        self.bytes
    }

    /// Whether two keys are the same address: byte for byte equality.
    pub fn same(&self, other: &AccountKey) -> (r: bool)
        ensures
            r == (*self == *other),
    {
        broadcast use vstd::array::group_array_axioms;
        let mut i: usize = 0;
        while i < 32
            invariant
                0 <= i <= 32,
                forall|j: int| 0 <= j < i ==> self.bytes[j] == other.bytes[j],
            decreases 32 - i,
        {
            if self.bytes[i] != other.bytes[i] {
                return false;
            }
            i = i + 1;
        }
        assert(self.bytes =~= other.bytes);
        true
    }
}

impl PartialEq for AccountKey {
    fn eq(&self, other: &AccountKey) -> (r: bool) {
        self.same(other)
    }
}

impl Eq for AccountKey {

}

impl vstd::std_specs::cmp::PartialEqSpecImpl for AccountKey {
    open spec fn obeys_eq_spec() -> bool {
        true
    }

    open spec fn eq_spec(&self, other: &AccountKey) -> bool {
        *self == *other
    }
}

} // verus!
