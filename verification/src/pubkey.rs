//! Identities and storage addresses.

use vstd::prelude::*;

verus! {

/// A 32-byte identity: a participant, a record's storage address or a vault.
#[derive(Clone, Copy, Debug)]
pub struct Pubkey {
    pub bytes: [u8; 32],
}

impl View for Pubkey {
    type V = Seq<u8>;

    open spec fn view(&self) -> Seq<u8> {
        self.bytes@
    }
}

impl Pubkey {
    /// The empty identity: thirty-two zero bytes.
    pub open spec fn empty() -> Pubkey {
        Pubkey { bytes: vstd::array::spec_array_fill_for_copy_type::<u8, 32>(0u8) }
    }

    /// The empty identity is the one whose bytes are all zero.
    pub proof fn lemma_empty_is_all_zero(key: Pubkey)
        ensures
            key == Pubkey::empty() <==> (forall|i: int| 0 <= i < 32 ==> key@[i] == 0u8),
    {
        let zero = Pubkey::empty();
        assert(forall|i: int| 0 <= i < 32 ==> zero.bytes@[i] == 0u8);
        if forall|i: int| 0 <= i < 32 ==> key@[i] == 0u8 {
            assert forall|i: int| 0 <= i < 32 implies key.bytes[i] == zero.bytes[i] by {
                assert(key@[i] == 0u8);
                assert(zero.bytes@[i] == 0u8);
            }
            assert(key.bytes =~= zero.bytes);
        }
    }

    /// The identity with the given bytes.
    pub fn new_from_array(bytes: [u8; 32]) -> (key: Pubkey)
        ensures
            key.bytes == bytes,
    {
        Pubkey { bytes }
    }

    /// The bytes of the identity.
    pub fn to_bytes(&self) -> (bytes: [u8; 32])
        ensures
            bytes == self.bytes,
    {
        self.bytes
    }

    /// Two identities with the same bytes are the same identity.
    pub proof fn lemma_view_injective(a: Pubkey, b: Pubkey)
        ensures
            a@ == b@ <==> a == b,
    {
        if a@ == b@ {
            assert(a.bytes =~= b.bytes);
        }
    }
}

/// The bytes of the identity under which the program is deployed.
pub const ID: [u8; 32] = [
    242, 73, 79, 46, 45, 219, 193, 5, 102, 88, 178, 112, 208, 152, 142, 143,
    178, 134, 109, 73, 23, 217, 181, 27, 50, 209, 129, 108, 195, 110, 132, 26,
];

/// The identity under which the program is deployed. The addresses of its
/// accounts are derived under it.
pub fn id() -> (key: Pubkey)
    ensures
        key.bytes == ID,
{
    Pubkey { bytes: ID }
}

impl Default for Pubkey {
    /// The empty identity.
    fn default() -> (key: Pubkey)
        ensures
            key == Pubkey::empty(),
            forall|i: int| 0 <= i < 32 ==> key@[i] == 0u8,
    {
        let key = Pubkey { bytes: [0u8; 32] };
        proof {
            Pubkey::lemma_empty_is_all_zero(key);
        }
        key
    }
}

impl PartialEq for Pubkey {
    /// Compares byte by byte.
    fn eq(&self, other: &Pubkey) -> (same: bool) {
        let mut i: usize = 0;
        while i < 32
            invariant
                i <= 32,
                forall|j: int| 0 <= j < i ==> self.bytes@[j] == other.bytes@[j],
            decreases 32 - i,
        {
            if self.bytes[i] != other.bytes[i] {
                return false;
            }
            i += 1;
        }
        assert(self.bytes =~= other.bytes);
        true
    }
}

impl vstd::std_specs::cmp::PartialEqSpecImpl for Pubkey {
    open spec fn obeys_eq_spec() -> bool {
        true
    }

    open spec fn eq_spec(&self, other: &Pubkey) -> bool {
        *self == *other
    }
}

impl Eq for Pubkey {

}

} // verus!
