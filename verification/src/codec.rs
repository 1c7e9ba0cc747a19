//! The fixed-width byte encodings that seals are built from: 64-bit numbers
//! little-endian, 256-bit numbers as four such limbs starting with the least
//! significant one, hashes as their 32 bytes.

use vstd::prelude::*;
use vstd::bytes::{
    lemma_auto_spec_u64_to_from_le_bytes, spec_u64_from_le_bytes, spec_u64_to_le_bytes,
    u64_from_le_bytes, u64_to_le_bytes,
};
use vstd::slice::slice_subrange;
use crate::h256::H256;
use crate::u256::U256;

verus! {

/// The 8 bytes of a 64-bit number, least significant first.
pub open spec fn u64_encoding(x: u64) -> Seq<u8> {
    spec_u64_to_le_bytes(x)
}

/// The 64-bit number that 8 bytes stand for, least significant first.
pub open spec fn u64_decoding(bytes: Seq<u8>) -> u64 {
    spec_u64_from_le_bytes(bytes)
}

/// The 32 bytes of a 256-bit number, least significant first.
pub open spec fn u256_encoding(x: U256) -> Seq<u8> {
    u64_encoding(x.w0) + u64_encoding(x.w1) + u64_encoding(x.w2) + u64_encoding(x.w3)
}

/// The 256-bit number that 32 bytes stand for, least significant first.
pub open spec fn u256_decoding(bytes: Seq<u8>) -> U256 {
    U256 {
        w0: u64_decoding(bytes.subrange(0, 8)),
        w1: u64_decoding(bytes.subrange(8, 16)),
        w2: u64_decoding(bytes.subrange(16, 24)),
        w3: u64_decoding(bytes.subrange(24, 32)),
    }
}

/// A 64-bit number is read back from its 8 bytes.
pub proof fn lemma_u64_roundtrip(x: u64)
    ensures
        u64_encoding(x).len() == 8,
        u64_decoding(u64_encoding(x)) == x,
{
    lemma_auto_spec_u64_to_from_le_bytes();
}

/// 8 bytes are written back from the number they stand for.
pub proof fn lemma_u64_bytes_roundtrip(bytes: Seq<u8>)
    requires
        bytes.len() == 8,
    ensures
        u64_encoding(u64_decoding(bytes)) == bytes,
{
    lemma_auto_spec_u64_to_from_le_bytes();
}

/// A 256-bit number is read back from its 32 bytes.
pub proof fn lemma_u256_roundtrip(x: U256)
    ensures
        u256_encoding(x).len() == 32,
        u256_decoding(u256_encoding(x)) == x,
{
    lemma_u64_roundtrip(x.w0);
    lemma_u64_roundtrip(x.w1);
    lemma_u64_roundtrip(x.w2);
    lemma_u64_roundtrip(x.w3);
    let b = u256_encoding(x);
    assert(b.subrange(0, 8) =~= u64_encoding(x.w0));
    assert(b.subrange(8, 16) =~= u64_encoding(x.w1));
    assert(b.subrange(16, 24) =~= u64_encoding(x.w2));
    assert(b.subrange(24, 32) =~= u64_encoding(x.w3));
}

/// 32 bytes are written back from the number they stand for.
pub proof fn lemma_u256_bytes_roundtrip(bytes: Seq<u8>)
    requires
        bytes.len() == 32,
    ensures
        u256_encoding(u256_decoding(bytes)) == bytes,
{
    lemma_u64_bytes_roundtrip(bytes.subrange(0, 8));
    lemma_u64_bytes_roundtrip(bytes.subrange(8, 16));
    lemma_u64_bytes_roundtrip(bytes.subrange(16, 24));
    lemma_u64_bytes_roundtrip(bytes.subrange(24, 32));
    assert(u256_encoding(u256_decoding(bytes)) =~= bytes);
}

/// Appends the encoding of a 64-bit number.
pub(crate) fn put_u64(out: &mut Vec<u8>, x: u64)
    ensures
        final(out)@ == old(out)@ + u64_encoding(x),
{
    let mut limb = u64_to_le_bytes(x);
    out.append(&mut limb);
}

/// Appends the encoding of a 256-bit number.
pub(crate) fn put_u256(out: &mut Vec<u8>, x: &U256)
    ensures
        final(out)@ == old(out)@ + u256_encoding(*x),
{
    put_u64(out, x.w0);
    put_u64(out, x.w1);
    put_u64(out, x.w2);
    put_u64(out, x.w3);
    assert(out@ =~= old(out)@ + u256_encoding(*x));
}

/// Appends the 32 bytes of a hash.
pub(crate) fn put_h256(out: &mut Vec<u8>, h: &H256)
    ensures
        final(out)@ == old(out)@ + h@,
{
    let mut i: usize = 0;
    while i < 32
        invariant
            i <= 32,
            out@ == old(out)@ + h@.subrange(0, i as int),
        decreases 32 - i,
    {
        out.push(h.bytes[i]);
        assert(out@ =~= old(out)@ + h@.subrange(0, i + 1));
        i += 1;
    }
    assert(h@.subrange(0, 32) =~= h@);
}

/// Reads the 64-bit number encoded at an offset.
pub(crate) fn get_u64(bytes: &[u8], at: usize) -> (r: u64)
    requires
        at + 8 <= bytes@.len(),
    ensures
        r == u64_decoding(bytes@.subrange(at as int, at + 8)),
{
    let len = bytes.len();
    u64_from_le_bytes(slice_subrange(bytes, at, at + 8))
}

/// Reads the 256-bit number encoded at an offset.
pub(crate) fn get_u256(bytes: &[u8], at: usize) -> (r: U256)
    requires
        at + 32 <= bytes@.len(),
    ensures
        r == u256_decoding(bytes@.subrange(at as int, at + 32)),
{
    let ghost part = bytes@.subrange(at as int, at + 32);
    let len = bytes.len();
    let w0 = get_u64(bytes, at);
    let w1 = get_u64(bytes, at + 8);
    let w2 = get_u64(bytes, at + 16);
    let w3 = get_u64(bytes, at + 24);
    assert(part.subrange(0, 8) =~= bytes@.subrange(at as int, at + 8));
    assert(part.subrange(8, 16) =~= bytes@.subrange(at + 8, at + 16));
    assert(part.subrange(16, 24) =~= bytes@.subrange(at + 16, at + 24));
    assert(part.subrange(24, 32) =~= bytes@.subrange(at + 24, at + 32));
    U256 { w0, w1, w2, w3 }
}

/// Reads the hash whose 32 bytes stand at an offset.
pub(crate) fn get_h256(bytes: &[u8], at: usize) -> (r: H256)
    requires
        at + 32 <= bytes@.len(),
    ensures
        r@ == bytes@.subrange(at as int, at + 32),
{
    let len = bytes.len();
    let mut copy = [0u8; 32];
    let mut i: usize = 0;
    while i < 32
        invariant
            i <= 32,
            at + 32 <= len,
            len == bytes@.len(),
            forall|j: int| 0 <= j < i ==> copy@[j] == bytes@[at + j],
        decreases 32 - i,
    {
        copy[i] = bytes[at + i];
        i += 1;
    }
    let h = H256 { bytes: copy };
    assert(h@ =~= bytes@.subrange(at as int, at + 32));
    h
}

} // verus!
