//! Account addresses.
use vstd::prelude::*;

verus! {

broadcast use vstd::array::group_array_axioms;

/// A 32-byte account address, as the chain stores it.
#[derive(Clone, Copy, Debug)]
pub struct Pubkey {
    pub bytes: [u8; 32],
}

impl Pubkey {
    /// The address whose bytes are all zero, which is `Pubkey::default()`.
    pub open spec fn is_default(self) -> bool {
        forall|i: int| 0 <= i < 32 ==> #[trigger] self.bytes@[i] == 0u8
    }

    /// The all-zero address.
    pub open spec fn zero() -> Pubkey {
        Pubkey { bytes: vstd::array::spec_array_fill_for_copy_type::<u8, 32>(0u8) }
    }

    /// `Pubkey::default()`: the all-zero address.
    pub fn default_key() -> (r: Pubkey)
        ensures
            r == Pubkey::zero(),
            r.is_default(),
    {
        Pubkey { bytes: [0u8; 32] }
    }

    /// Byte-wise comparison of two addresses.
    pub fn key_eq(&self, other: &Pubkey) -> (r: bool)
        ensures
            r == (*self == *other),
    {
        let mut i: usize = 0;
        while i < 32
            invariant
                0 <= i <= 32,
                forall|j: int| 0 <= j < i ==> self.bytes@[j] == other.bytes@[j],
            decreases 32 - i,
        {
            if self.bytes[i] != other.bytes[i] {
                assert(self.bytes@[i as int] != other.bytes@[i as int]);
                return false;
            }
            i = i + 1;
        }
        assert(self.bytes =~= other.bytes);
        true
    }

    /// Whether this is the all-zero address.
    pub fn key_is_default(&self) -> (r: bool)
        ensures
            r == self.is_default(),
    {
        let zero = Pubkey::default_key();
        let r = self.key_eq(&zero);
        proof {
            if self.is_default() {
                assert(self.bytes =~= zero.bytes);
            }
        }
        r
    }
}

} // verus!
