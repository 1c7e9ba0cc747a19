//! The seals that prove work on a block, their byte encoding, and the job
//! description handed to miners.

use vstd::prelude::*;
use crate::codec::{
    get_h256, get_u256, get_u64, lemma_u256_roundtrip, lemma_u64_roundtrip, put_h256, put_u256,
    put_u64, u256_decoding, u256_encoding, u64_decoding, u64_encoding,
};
use crate::h256::H256;
use crate::oracle::{sha3_256, sha3_256_digest};
use crate::u256::U256;

verus! {

/// Bytes in an encoded `Seal` and in an encoded `Compute`.
pub const SEAL_LEN: usize = 96;

/// Bytes in an encoded `WorkSeal`.
pub const WORK_SEAL_LEN: usize = 144;

/// The proof attached to a block by the minimal algorithm.
#[derive(Clone, Copy, Debug, PartialEq, Eq)]
pub struct Seal {
    pub difficulty: U256,
    pub work: H256,
    pub nonce: U256,
}

/// A `Seal` as plain values.
#[verifier::ext_equal]
pub struct SealModel {
    pub difficulty: U256,
    pub work: Seq<u8>,
    pub nonce: U256,
}

/// A candidate attempt of the minimal algorithm.
#[derive(Clone, Copy, Debug, PartialEq, Eq)]
pub struct Compute {
    pub difficulty: U256,
    pub pre_hash: H256,
    pub nonce: U256,
}

/// A `Compute` as plain values.
#[verifier::ext_equal]
pub struct ComputeModel {
    pub difficulty: U256,
    pub pre_hash: Seq<u8>,
    pub nonce: U256,
}

/// The proof attached to a block by the Ethash algorithm.
#[derive(Clone, Copy, Debug, PartialEq, Eq)]
pub struct WorkSeal {
    pub nonce: U256,
    pub pow_hash: H256,
    pub mix_digest: H256,
    pub header_nr: u64,
    pub difficulty: U256,
    pub timestamp: u64,
}

/// A `WorkSeal` as plain values.
#[verifier::ext_equal]
pub struct WorkSealModel {
    pub nonce: U256,
    pub pow_hash: Seq<u8>,
    pub mix_digest: Seq<u8>,
    pub header_nr: u64,
    pub difficulty: U256,
    pub timestamp: u64,
}

impl View for Seal {
    type V = SealModel;

    open spec fn view(&self) -> SealModel {
        SealModel { difficulty: self.difficulty, work: self.work@, nonce: self.nonce }
    }
}

impl View for Compute {
    type V = ComputeModel;

    open spec fn view(&self) -> ComputeModel {
        ComputeModel { difficulty: self.difficulty, pre_hash: self.pre_hash@, nonce: self.nonce }
    }
}

impl View for WorkSeal {
    type V = WorkSealModel;

    open spec fn view(&self) -> WorkSealModel {
        WorkSealModel {
            nonce: self.nonce,
            pow_hash: self.pow_hash@,
            mix_digest: self.mix_digest@,
            header_nr: self.header_nr,
            difficulty: self.difficulty,
            timestamp: self.timestamp,
        }
    }
}

impl SealModel {
    /// The hash has 32 bytes.
    pub open spec fn wf(self) -> bool {
        self.work.len() == 32
    }

    /// The 96 bytes of the seal: difficulty, work, nonce.
    pub open spec fn encoding(self) -> Seq<u8> {
        u256_encoding(self.difficulty) + self.work + u256_encoding(self.nonce)
    }
}

impl ComputeModel {
    /// The hash has 32 bytes.
    pub open spec fn wf(self) -> bool {
        self.pre_hash.len() == 32
    }

    /// The 96 bytes of the attempt: difficulty, pre-hash, nonce.
    pub open spec fn encoding(self) -> Seq<u8> {
        u256_encoding(self.difficulty) + self.pre_hash + u256_encoding(self.nonce)
    }

    /// The seal that the attempt yields: its own difficulty and nonce, and as
    /// work the SHA3-256 digest of its encoding.
    pub open spec fn seal(self) -> SealModel {
        SealModel {
            difficulty: self.difficulty,
            work: sha3_256_digest(self.encoding()),
            nonce: self.nonce,
        }
    }
}

impl WorkSealModel {
    /// Both hashes have 32 bytes.
    pub open spec fn wf(self) -> bool {
        self.pow_hash.len() == 32 && self.mix_digest.len() == 32
    }

    /// The 144 bytes of the seal: nonce, pre-hash, mix digest, block number,
    /// difficulty, timestamp.
    pub open spec fn encoding(self) -> Seq<u8> {
        u256_encoding(self.nonce) + self.pow_hash + self.mix_digest + u64_encoding(self.header_nr)
            + u256_encoding(self.difficulty) + u64_encoding(self.timestamp)
    }
}

/// The seal that a byte string starts with, if it is long enough to hold one.
/// Bytes after the seal are not read.
pub open spec fn decode_seal(bytes: Seq<u8>) -> Option<SealModel> {
    if bytes.len() < SEAL_LEN {
        None
    } else {
        Some(
            SealModel {
                difficulty: u256_decoding(bytes.subrange(0, 32)),
                work: bytes.subrange(32, 64),
                nonce: u256_decoding(bytes.subrange(64, 96)),
            },
        )
    }
}

/// The work seal that a byte string starts with, if it is long enough to hold
/// one. Bytes after the seal are not read.
pub open spec fn decode_work_seal(bytes: Seq<u8>) -> Option<WorkSealModel> {
    if bytes.len() < WORK_SEAL_LEN {
        None
    } else {
        Some(
            WorkSealModel {
                nonce: u256_decoding(bytes.subrange(0, 32)),
                pow_hash: bytes.subrange(32, 64),
                mix_digest: bytes.subrange(64, 96),
                header_nr: u64_decoding(bytes.subrange(96, 104)),
                difficulty: u256_decoding(bytes.subrange(104, 136)),
                timestamp: u64_decoding(bytes.subrange(136, 144)),
            },
        )
    }
}

/// Decoding the encoding of a seal gives the seal back, whatever follows it.
pub proof fn lemma_seal_roundtrip(seal: SealModel, rest: Seq<u8>)
    requires
        seal.wf(),
    ensures
        seal.encoding().len() == SEAL_LEN,
        decode_seal(seal.encoding() + rest) == Some(seal),
{
    lemma_u256_roundtrip(seal.difficulty);
    lemma_u256_roundtrip(seal.nonce);
    let bytes = seal.encoding() + rest;
    assert(bytes.subrange(0, 32) =~= u256_encoding(seal.difficulty));
    assert(bytes.subrange(32, 64) =~= seal.work);
    assert(bytes.subrange(64, 96) =~= u256_encoding(seal.nonce));
}

/// Decoding the encoding of a work seal gives the seal back, whatever
/// follows it.
pub proof fn lemma_work_seal_roundtrip(seal: WorkSealModel, rest: Seq<u8>)
    requires
        seal.wf(),
    ensures
        seal.encoding().len() == WORK_SEAL_LEN,
        decode_work_seal(seal.encoding() + rest) == Some(seal),
{
    lemma_u256_roundtrip(seal.nonce);
    lemma_u256_roundtrip(seal.difficulty);
    lemma_u64_roundtrip(seal.header_nr);
    lemma_u64_roundtrip(seal.timestamp);
    let bytes = seal.encoding() + rest;
    assert(bytes.subrange(0, 32) =~= u256_encoding(seal.nonce));
    assert(bytes.subrange(32, 64) =~= seal.pow_hash);
    assert(bytes.subrange(64, 96) =~= seal.mix_digest);
    assert(bytes.subrange(96, 104) =~= u64_encoding(seal.header_nr));
    assert(bytes.subrange(104, 136) =~= u256_encoding(seal.difficulty));
    assert(bytes.subrange(136, 144) =~= u64_encoding(seal.timestamp));
}

impl Seal {
    /// The bytes that stand for the seal in a block header. Decoding them
    /// gives the seal back.
    pub fn encode(&self) -> (out: Vec<u8>)
        ensures
            out@ == self@.encoding(),
            out@.len() == SEAL_LEN,
            decode_seal(out@) == Some(self@),
    {
        let mut out: Vec<u8> = Vec::new();
        put_u256(&mut out, &self.difficulty);
        put_h256(&mut out, &self.work);
        put_u256(&mut out, &self.nonce);
        proof {
            lemma_seal_roundtrip(self@, Seq::empty());
            assert(out@ =~= self@.encoding());
            assert(out@ + Seq::<u8>::empty() =~= out@);
        }
        out
    }

    /// Reads a seal from the start of a byte string. Fails, with no other
    /// effect, exactly where fewer than 96 bytes are given.
    pub fn decode(bytes: &[u8]) -> (r: Option<Seal>)
        ensures
            r is Some <==> bytes@.len() >= SEAL_LEN,
            match r {
                Some(seal) => decode_seal(bytes@) == Some(seal@),
                None => decode_seal(bytes@) is None,
            },
    {
        if bytes.len() < SEAL_LEN {
            return None;
        }
        let seal = Seal {
            difficulty: get_u256(bytes, 0),
            work: get_h256(bytes, 32),
            nonce: get_u256(bytes, 64),
        };
        assert(decode_seal(bytes@)->0 =~= seal@);
        Some(seal)
    }

    /// Whether two seals agree in every field.
    pub fn same(&self, other: &Seal) -> (r: bool)
        ensures
            r == (self@ == other@),
    {
        let r = self.difficulty == other.difficulty && self.work.same(&other.work) && self.nonce
            == other.nonce;
        assert(r == (self@ =~= other@));
        r
    }
}

impl Compute {
    /// The bytes that are hashed for this attempt.
    pub fn encode(&self) -> (out: Vec<u8>)
        ensures
            out@ == self@.encoding(),
            out@.len() == SEAL_LEN,
    {
        let mut out: Vec<u8> = Vec::new();
        put_u256(&mut out, &self.difficulty);
        put_h256(&mut out, &self.pre_hash);
        put_u256(&mut out, &self.nonce);
        proof {
            lemma_u256_roundtrip(self.difficulty);
            lemma_u256_roundtrip(self.nonce);
            assert(out@ =~= self@.encoding());
        }
        out
    }

    /// Derives the seal of this attempt: the work is the SHA3-256 digest of
    /// the attempt's own encoding.
    pub fn compute(self) -> (seal: Seal)
        ensures
            seal@ == self@.seal(),
    {
        let bytes = self.encode();
        let work = sha3_256(bytes.as_slice());
        let seal = Seal { difficulty: self.difficulty, work, nonce: self.nonce };
        assert(seal@ =~= self@.seal());
        seal
    }
}

impl WorkSeal {
    /// The bytes that stand for the seal in a block header. Decoding them
    /// gives the seal back.
    pub fn encode(&self) -> (out: Vec<u8>)
        ensures
            out@ == self@.encoding(),
            out@.len() == WORK_SEAL_LEN,
            decode_work_seal(out@) == Some(self@),
    {
        let mut out: Vec<u8> = Vec::new();
        put_u256(&mut out, &self.nonce);
        put_h256(&mut out, &self.pow_hash);
        put_h256(&mut out, &self.mix_digest);
        put_u64(&mut out, self.header_nr);
        put_u256(&mut out, &self.difficulty);
        put_u64(&mut out, self.timestamp);
        proof {
            lemma_work_seal_roundtrip(self@, Seq::empty());
            assert(out@ =~= self@.encoding());
            assert(out@ + Seq::<u8>::empty() =~= out@);
        }
        out
    }

    /// Reads a work seal from the start of a byte string. Fails, with no
    /// other effect, exactly where fewer than 144 bytes are given.
    pub fn decode(bytes: &[u8]) -> (r: Option<WorkSeal>)
        ensures
            r is Some <==> bytes@.len() >= WORK_SEAL_LEN,
            match r {
                Some(seal) => decode_work_seal(bytes@) == Some(seal@),
                None => decode_work_seal(bytes@) is None,
            },
    {
        if bytes.len() < WORK_SEAL_LEN {
            return None;
        }
        let seal = WorkSeal {
            nonce: get_u256(bytes, 0),
            pow_hash: get_h256(bytes, 32),
            mix_digest: get_h256(bytes, 64),
            header_nr: get_u64(bytes, 96),
            difficulty: get_u256(bytes, 104),
            timestamp: get_u64(bytes, 136),
        };
        assert(decode_work_seal(bytes@)->0 =~= seal@);
        Some(seal)
    }
}

/// What the chain backend knows of a block that the difficulty rules read:
/// its number, and the raw seal at the end of its digest, if it has one.
#[derive(Clone, Debug, PartialEq, Eq)]
pub struct Header {
    pub number: u64,
    pub seal: Option<Vec<u8>>,
}

/// A `Header` as plain values.
#[verifier::ext_equal]
pub struct HeaderModel {
    pub number: u64,
    pub seal: Option<Seq<u8>>,
}

impl View for Header {
    type V = HeaderModel;

    open spec fn view(&self) -> HeaderModel {
        HeaderModel {
            number: self.number,
            seal: match self.seal {
                Some(bytes) => Some(bytes@),
                None => None,
            },
        }
    }
}

/// A mining job: a snapshot derived from the candidate that is being built.
#[derive(Clone, Copy, Debug, PartialEq, Eq)]
pub struct Work {
    /// The candidate's pre-hash, read as a number.
    pub pow_hash: U256,
    /// The seed hash of the candidate's epoch, read as a number.
    pub seed_hash: U256,
    /// The largest value that meets the candidate's difficulty.
    pub target: U256,
    /// The candidate's block number.
    pub number: Option<u64>,
}

} // verus!
