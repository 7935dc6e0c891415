//! Account identifiers.

use crate::mapping::Key;
use vstd::prelude::*;

verus! {

/// A 20-byte account identifier. The ledger attaches no meaning to its bytes.
#[derive(Clone, Copy, Debug, PartialEq, Eq, Hash)]
pub struct Address {
    pub bytes: [u8; 20],
}

impl Address {
    /// The null address, all of whose bytes are zero: the sender of minted
    /// tokens and the recipient of burned ones.
    pub open spec fn spec_zero() -> Address {
        Address { bytes: [0u8, 0, 0, 0, 0, 0, 0, 0, 0, 0, 0, 0, 0, 0, 0, 0, 0, 0, 0, 0] }
    }

    /// The null address.
    #[verifier::when_used_as_spec(spec_zero)]
    pub fn zero() -> (r: Address)
        ensures
            r == Address::zero(),
    {
        Address { bytes: [0u8, 0, 0, 0, 0, 0, 0, 0, 0, 0, 0, 0, 0, 0, 0, 0, 0, 0, 0, 0] }
    }

    pub fn new(bytes: [u8; 20]) -> (r: Address)
        ensures
            r.bytes == bytes,
    {
        Address { bytes }
    }

    pub fn into_bytes(self) -> (r: [u8; 20])
        ensures
            r == self.bytes,
    {
        self.bytes
    }

    pub fn is_zero(&self) -> (r: bool)
        ensures
            r == (*self == Address::zero()),
    {
        let z = Address::zero();
        self.same(&z)
    }
}

impl Key for Address {
    fn same(&self, other: &Self) -> (r: bool) {
        let mut i: usize = 0;
        while i < 20
            invariant
                i <= 20,
                forall|j: int| 0 <= j < i ==> self.bytes[j] == other.bytes[j],
            decreases 20 - i,
        {
            if self.bytes[i] != other.bytes[i] {
                return false;
            }
            i += 1;
        }
        assert(self.bytes =~= other.bytes);
        true
    }
}

impl Key for (Address, Address) {
    fn same(&self, other: &Self) -> (r: bool) {
        self.0.same(&other.0) && self.1.same(&other.1)
    }
}

} // verus!
