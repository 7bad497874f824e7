//! Identities on the host ledger.

use vstd::prelude::*;

verus! {

/// Length of an address in bytes.
pub const ADDRESS_LEN: usize = 32;

/// The identity of a staker, an asset, a collection, a record or a program.
#[derive(Clone, Copy, Debug, PartialEq, Eq, Hash)]
pub struct Address {
    pub bytes: [u8; ADDRESS_LEN],
}

impl View for Address {
    type V = Seq<u8>;

    open spec fn view(&self) -> Seq<u8> {
        self.bytes@
    }
}

impl Address {
    /// The address made of the given bytes.
    pub fn new(bytes: [u8; ADDRESS_LEN]) -> (address: Address)
        ensures
            address.bytes == bytes,
    {
        Address { bytes }
    }

    /// Whether two addresses are the same identity.
    pub fn same(&self, other: &Address) -> (equal: bool)
        ensures
            equal == (*self == *other),
    {
        let mut i: usize = 0;
        while i < ADDRESS_LEN
            invariant
                i <= ADDRESS_LEN,
                forall|j: int| 0 <= j < i ==> self.bytes[j] == other.bytes[j],
            decreases ADDRESS_LEN - i,
        {
            if self.bytes[i] != other.bytes[i] {
                return false;
            }
            i += 1;
        }
        assert(self.bytes =~= other.bytes);
        true
    }

    /// The bytes of the address, in order.
    pub fn to_vec(&self) -> (out: Vec<u8>)
        ensures
            out@ == self@,
    {
        let mut out: Vec<u8> = Vec::new();
        let mut i: usize = 0;
        while i < ADDRESS_LEN
            invariant
                i <= ADDRESS_LEN,
                out@ == self@.subrange(0, i as int),
            decreases ADDRESS_LEN - i,
        {
            out.push(self.bytes[i]);
            assert(out@ =~= self@.subrange(0, i + 1));
            i += 1;
        }
        assert(out@ =~= self@);
        out
    }
}

} // verus!
