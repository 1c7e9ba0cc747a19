//! 32-byte hashes.

use vstd::prelude::*;
use crate::u256::{be_value, from_big_endian, U256};

verus! {

/// A 256-bit hash, held as 32 bytes.
#[derive(Clone, Copy, Debug, PartialEq, Eq)]
pub struct H256 {
    pub bytes: [u8; 32],
}

impl View for H256 {
    type V = Seq<u8>;

    /// The 32 bytes in order.
    open spec fn view(&self) -> Seq<u8> {
        self.bytes@
    }
}

/// Two hashes with the same bytes are the same hash.
pub proof fn lemma_h256_view_injective(x: H256, y: H256)
    requires
        x@ == y@,
    ensures
        x == y,
{
    assert(x.bytes =~= y.bytes);
}

impl H256 {
    /// The hash made of 32 zero bytes.
    pub fn zero() -> (r: H256)
        ensures
            r@ == Seq::new(32, |i: int| 0u8),
    {
        let r = H256 { bytes: [0u8; 32] };
        assert(r@ =~= Seq::new(32, |i: int| 0u8));
        r
    }

    /// Whether two hashes hold the same bytes.
    pub fn same(&self, other: &H256) -> (r: bool)
        ensures
            r == (self@ == other@),
            r == (*self == *other),
    {
        let mut i: usize = 0;
        while i < 32
            invariant
                i <= 32,
                forall|j: int| 0 <= j < i ==> self.bytes[j] == other.bytes[j],
            decreases 32 - i,
        {
            if self.bytes[i] != other.bytes[i] {
                assert(self@[i as int] != other@[i as int]);
                return false;
            }
            i += 1;
        }
        assert(self@ =~= other@);
        proof {
            lemma_h256_view_injective(*self, *other);
        }
        true
    }

    /// The hash read as a number, most significant byte first.
    pub fn to_u256(&self) -> (r: U256)
        ensures
            r@ == be_value(self@),
    {
        from_big_endian(&self.bytes)
    }
}

} // verus!
