//! Unsigned 256-bit integers, held as four 64-bit limbs.

use vstd::prelude::*;

verus! {

/// The weight of the second limb, 2^64.
pub open spec fn pow2_64() -> nat {
    0x1_0000_0000_0000_0000nat
}

/// The weight of the third limb, 2^128.
pub open spec fn pow2_128() -> nat {
    0x1_0000_0000_0000_0000_0000_0000_0000_0000nat
}

/// The weight of the fourth limb, 2^192.
pub open spec fn pow2_192() -> nat {
    0x1_0000_0000_0000_0000_0000_0000_0000_0000_0000_0000_0000_0000nat
}

/// The number of 256-bit values, 2^256.
pub open spec fn pow2_256() -> nat {
    0x1_0000_0000_0000_0000_0000_0000_0000_0000_0000_0000_0000_0000_0000_0000_0000_0000nat
}

/// An unsigned 256-bit integer. `w0` is the least significant limb.
#[derive(Clone, Copy, Debug, PartialEq, Eq, Structural)]
pub struct U256 {
    pub w0: u64,
    pub w1: u64,
    pub w2: u64,
    pub w3: u64,
}

impl View for U256 {
    type V = nat;

    /// The number that the four limbs stand for.
    open spec fn view(&self) -> nat {
        (self.w0 + self.w1 * pow2_64() + self.w2 * pow2_128() + self.w3 * pow2_192()) as nat
    }
}

/// Every value lies below 2^256.
pub proof fn lemma_u256_bounded(x: U256)
    ensures
        x@ < pow2_256(),
{
}

/// Two values that stand for the same number have the same limbs.
pub proof fn lemma_u256_view_injective(x: U256, y: U256)
    requires
        x@ == y@,
    ensures
        x == y,
{
    let hx: int = x.w1 + x.w2 * pow2_64() + x.w3 * pow2_128();
    let hy: int = y.w1 + y.w2 * pow2_64() + y.w3 * pow2_128();
    assert(x@ == x.w0 + hx * pow2_64());
    assert(y@ == y.w0 + hy * pow2_64());
    assert(hx == hy && x.w0 == y.w0);
    let gx: int = x.w2 + x.w3 * pow2_64();
    let gy: int = y.w2 + y.w3 * pow2_64();
    assert(hx == x.w1 + gx * pow2_64());
    assert(hy == y.w1 + gy * pow2_64());
    assert(gx == gy && x.w1 == y.w1);
}

impl U256 {
    /// The value 0.
    pub fn zero() -> (r: U256)
        ensures
            r@ == 0,
    {
        U256 { w0: 0, w1: 0, w2: 0, w3: 0 }
    }

    /// The largest value, 2^256 - 1.
    pub fn max_value() -> (r: U256)
        ensures
            r@ == pow2_256() - 1,
    {
        U256 { w0: u64::MAX, w1: u64::MAX, w2: u64::MAX, w3: u64::MAX }
    }

    /// The 256-bit value of a 64-bit number.
    pub fn from_u64(x: u64) -> (r: U256)
        ensures
            r@ == x,
            r == (U256 { w0: x, w1: 0, w2: 0, w3: 0 }),
    {
        U256 { w0: x, w1: 0, w2: 0, w3: 0 }
    }

    /// The value as a 64-bit number, where it fits in one.
    pub fn to_u64(&self) -> (r: Option<u64>)
        ensures
            self@ <= u64::MAX ==> r == Some(self@ as u64),
            self@ > u64::MAX ==> r is None,
    {
        if self.w1 == 0 && self.w2 == 0 && self.w3 == 0 {
            Some(self.w0)
        } else {
            None
        }
    }

    /// Strict order of the values.
    pub fn lt(&self, other: &U256) -> (r: bool)
        ensures
            r == (self@ < other@),
    {
        if self.w3 != other.w3 {
            self.w3 < other.w3
        } else if self.w2 != other.w2 {
            self.w2 < other.w2
        } else if self.w1 != other.w1 {
            self.w1 < other.w1
        } else {
            self.w0 < other.w0
        }
    }

    /// The larger of two values.
    pub fn max(self, other: U256) -> (r: U256)
        ensures
            r@ == if self@ >= other@ { self@ } else { other@ },
            r == self || r == other,
    {
        if self.lt(&other) {
            other
        } else {
            self
        }
    }
}

/// The number that a byte string stands for when its first byte is the most
/// significant one.
pub open spec fn be_value(bytes: Seq<u8>) -> nat
    decreases bytes.len(),
{
    if bytes.len() == 0 {
        0
    } else {
        be_value(bytes.drop_last()) * 256 + bytes.last() as nat
    }
}

/// Zero bytes stand for the number 0.
pub proof fn lemma_be_value_of_zeros(len: nat)
    ensures
        be_value(Seq::new(len, |i: int| 0u8)) == 0,
    decreases len,
{
    if len > 0 {
        let zeros = Seq::new(len, |i: int| 0u8);
        assert(zeros.drop_last() =~= Seq::new((len - 1) as nat, |i: int| 0u8));
        lemma_be_value_of_zeros((len - 1) as nat);
    }
}

/// `U256::overflowing_mul` of ethereum-types: the product reduced modulo
/// 2^256, and whether the full product did not fit in 256 bits.
#[verifier::external_body]
pub(crate) fn overflowing_mul(a: U256, b: U256) -> (r: (U256, bool))
    ensures
        r.0@ == (a@ * b@) % pow2_256(),
        r.1 == (a@ * b@ >= pow2_256()),
{
    let x = ethereum_types::U256([a.w0, a.w1, a.w2, a.w3]);
    let y = ethereum_types::U256([b.w0, b.w1, b.w2, b.w3]);
    let (p, overflow) = x.overflowing_mul(y);
    (U256 { w0: p.0[0], w1: p.0[1], w2: p.0[2], w3: p.0[3] }, overflow)
}

/// `U256::saturating_add` of ethereum-types: the sum, or 2^256 - 1 where the
/// sum does not fit in 256 bits.
#[verifier::external_body]
pub(crate) fn saturating_add(a: U256, b: U256) -> (r: U256)
    ensures
        r@ == if a@ + b@ < pow2_256() { a@ + b@ } else { (pow2_256() - 1) as nat },
{
    let x = ethereum_types::U256([a.w0, a.w1, a.w2, a.w3]);
    let y = ethereum_types::U256([b.w0, b.w1, b.w2, b.w3]);
    let z = x.saturating_add(y);
    U256 { w0: z.0[0], w1: z.0[1], w2: z.0[2], w3: z.0[3] }
}

/// `U256::saturating_sub` of ethereum-types: the difference, or 0 where the
/// second number is the larger one.
#[verifier::external_body]
pub(crate) fn saturating_sub(a: U256, b: U256) -> (r: U256)
    ensures
        r@ == if a@ >= b@ { (a@ - b@) as nat } else { 0 },
{
    let x = ethereum_types::U256([a.w0, a.w1, a.w2, a.w3]);
    let y = ethereum_types::U256([b.w0, b.w1, b.w2, b.w3]);
    let z = x.saturating_sub(y);
    U256 { w0: z.0[0], w1: z.0[1], w2: z.0[2], w3: z.0[3] }
}

/// `U256::checked_div` of ethereum-types: the quotient rounded down, and
/// nothing where the divisor is 0.
#[verifier::external_body]
pub(crate) fn checked_div(a: U256, b: U256) -> (r: Option<U256>)
    ensures
        b@ == 0 ==> r is None,
        b@ != 0 ==> r is Some && r->0@ == a@ / b@,
{
    let x = ethereum_types::U256([a.w0, a.w1, a.w2, a.w3]);
    let y = ethereum_types::U256([b.w0, b.w1, b.w2, b.w3]);
    match x.checked_div(y) {
        Some(z) => Some(U256 { w0: z.0[0], w1: z.0[1], w2: z.0[2], w3: z.0[3] }),
        None => None,
    }
}

/// `U256::from_big_endian` of ethereum-types on 32 bytes: the number whose
/// most significant byte comes first.
#[verifier::external_body]
pub(crate) fn from_big_endian(bytes: &[u8; 32]) -> (r: U256)
    ensures
        r@ == be_value(bytes@),
{
    let z = ethereum_types::U256::from_big_endian(bytes);
    U256 { w0: z.0[0], w1: z.0[1], w2: z.0[2], w3: z.0[3] }
}

} // verus!
