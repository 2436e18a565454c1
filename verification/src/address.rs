//! Account addresses.
use vstd::prelude::*;

verus! {

/// A 32-byte account address: the identity of a principal, of an asset type
/// or of an account.
#[derive(Clone, Copy, Debug)]
pub struct Address {
    /// The bytes of the address.
    pub bytes: [u8; 32],
}

impl View for Address {
    type V = Seq<u8>;

    open spec fn view(&self) -> Seq<u8> {
        self.bytes@
    }
}

impl PartialEq for Address {
    fn eq(&self, other: &Address) -> (r: bool) {
        let mut i: usize = 0;
        while i < 32
            invariant
                i <= 32,
                forall|j: int| 0 <= j < i ==> self.bytes[j] == other.bytes[j],
            decreases 32 - i,
        {
            if self.bytes[i] != other.bytes[i] {
                return false;
            }
            i += 1;
        }
        assert(self.bytes =~= other.bytes);
        true
    }
}

impl Eq for Address {

}

impl vstd::std_specs::cmp::PartialEqSpecImpl for Address {
    open spec fn obeys_eq_spec() -> bool {
        true
    }

    open spec fn eq_spec(&self, other: &Address) -> bool {
        *self == *other
    }
}

impl Address {
    /// The address made of the given bytes.
    pub fn new(bytes: [u8; 32]) -> (r: Address)
        ensures
            r.bytes == bytes,
    {
        Address { bytes }
    }

    /// The address whose bytes are `view`, for a `view` of 32 bytes.
    pub open spec fn with_view(view: Seq<u8>) -> Address {
        choose|k: Address| k@ == view
    }

    /// An address is the one that its bytes name.
    pub proof fn lemma_with_view(k: Address)
        ensures
            Address::with_view(k@) == k,
    {
        Address::lemma_view_injective(Address::with_view(k@), k);
    }

    /// Two addresses with the same bytes are the same address.
    pub proof fn lemma_view_injective(a: Address, b: Address)
        requires
            a@ == b@,
        ensures
            a == b,
    {
        assert(a.bytes =~= b.bytes);
    }
}

} // verus!
