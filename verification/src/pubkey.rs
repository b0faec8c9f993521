use vstd::prelude::*;
use vstd::std_specs::cmp::PartialEqSpecImpl;

verus! {

broadcast use vstd::array::group_array_axioms;

/// A 32-byte account address.
///
/// Addresses are only ever copied and compared; two addresses are the same
/// exactly when all 32 bytes agree.
#[derive(Clone, Copy, Debug, Eq)]
pub struct Pubkey {
    pub bytes: [u8; 32],
}

impl PartialEq for Pubkey {
    fn eq(&self, other: &Pubkey) -> (same: bool) {
        let mut i: usize = 0;
        while i < 32
            invariant
                i <= 32,
                forall|j: int| 0 <= j < i ==> self.bytes[j] == other.bytes[j],
            decreases 32 - i,
        {
            if self.bytes[i] != other.bytes[i] {
                assert(self.bytes != other.bytes);
                return false;
            }
            i += 1;
        }
        assert(self.bytes =~= other.bytes);
        true
    }
}

impl PartialEqSpecImpl for Pubkey {
    open spec fn obeys_eq_spec() -> bool {
        true
    }

    open spec fn eq_spec(&self, other: &Pubkey) -> bool {
        *self == *other
    }
}

impl Pubkey {
    /// All 32 bytes are zero: the placeholder for "no account".
    pub open spec fn is_zero(&self) -> bool {
        forall|i: int| 0 <= i < 32 ==> self.bytes[i] == 0u8
    }

    pub fn new_from_array(bytes: [u8; 32]) -> (key: Pubkey)
        ensures
            key.bytes == bytes,
    {
        Pubkey { bytes }
    }

    pub fn to_bytes(&self) -> (bytes: [u8; 32])
        ensures
            bytes == self.bytes,
    {
        self.bytes
    }
}

impl Default for Pubkey {
    fn default() -> (key: Pubkey)
        ensures
            key.is_zero(),
    {
        Pubkey { bytes: [0u8; 32] }
    }
}

/// Any two all-zero addresses are the same address.
pub proof fn law_zero_address_is_unique(a: Pubkey, b: Pubkey)
    requires
        a.is_zero(),
        b.is_zero(),
    ensures
        a == b,
{
    assert(a.bytes =~= b.bytes);
}

} // verus!
