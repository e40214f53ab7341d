//! The 32-byte identities of candidates, voters, mints and token accounts.

use vstd::prelude::*;

verus! {

/// A 32-byte identity on the host ledger.
#[derive(Clone, Copy, Debug)]
pub struct Address {
    pub bytes: [u8; 32],
}

impl View for Address {
    type V = Seq<u8>;

    open spec fn view(&self) -> Seq<u8> {
        self.bytes@
    }
}

impl Address {
    /// The address made of the given bytes.
    pub fn new(bytes: [u8; 32]) -> (address: Address)
        ensures
            address.bytes == bytes,
    {
        Address { bytes }
    }

    /// The bytes of the address.
    pub fn to_bytes(&self) -> (bytes: [u8; 32])
        ensures
            bytes == self.bytes,
    {
        self.bytes
    }
}

impl PartialEq for Address {
    fn eq(&self, other: &Address) -> (same: bool) {
        let mut i: usize = 0;
        while i < 32
            invariant
                i <= 32,
                forall|j: int| 0 <= j < i ==> self.bytes[j] == other.bytes[j],
            decreases 32 - i,
        {
            if self.bytes[i] != other.bytes[i] {
                return false;
            }
            i += 1;
        }
        assert(self.bytes =~= other.bytes);
        true
    }
}

impl Eq for Address {}

impl vstd::std_specs::cmp::PartialEqSpecImpl for Address {
    open spec fn obeys_eq_spec() -> bool {
        true
    }

    open spec fn eq_spec(&self, other: &Address) -> bool {
        *self == *other
    }
}

/// Two addresses are the same exactly when their bytes are.
pub proof fn address_extensionality(a: Address, b: Address)
    ensures
        (a == b) <==> (a@ == b@),
{
    if a@ == b@ {
        assert forall|i: int| 0 <= i < 32 implies a.bytes[i] == b.bytes[i] by {
            assert(a.bytes[i] == a@[i]);
            assert(b.bytes[i] == b@[i]);
        }
        assert(a.bytes =~= b.bytes);
    }
}

} // verus!
