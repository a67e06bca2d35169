//! Addresses of ledger entities.

use vstd::prelude::*;

verus! {

/// Number of bytes in an address.
pub const ADDRESS_LENGTH: usize = 30;

/// The address of a component or of a resource: thirty opaque bytes.
#[derive(Clone, Copy, Debug, PartialEq, Eq, Hash)]
pub struct Address {
    pub bytes: [u8; 30],
}

impl Address {
    /// The address made of the given bytes.
    pub fn new(bytes: [u8; 30]) -> (r: Address)
        ensures
            r.bytes == bytes,
    {
        Address { bytes }
    }

    /// Whether two addresses are the same, byte for byte.
    pub fn same(&self, other: &Address) -> (r: bool)
        ensures
            r == (*self == *other),
    {
        let mut i: usize = 0;
        while i < ADDRESS_LENGTH
            invariant
                0 <= i <= ADDRESS_LENGTH,
                forall|j: int| 0 <= j < i ==> self.bytes[j] == other.bytes[j],
            decreases ADDRESS_LENGTH - i,
        {
            if self.bytes[i] != other.bytes[i] {
                return false;
            }
            i += 1;
        }
        assert(self.bytes =~= other.bytes);
        true
    }
}

} // verus!
