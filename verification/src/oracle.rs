//! The hashing oracle: the memory-hard Ethash function and its light cache
//! from the `ethash` crate, and the SHA3-256 digest. None of them is computed
//! here; each is called and its result named.

use vstd::prelude::*;
use crate::h256::H256;

verus! {

/// Blocks per Ethash epoch.
pub const EPOCH_LENGTH: u64 = 30000;

/// Bytes of the light cache in the first epoch, before the schedule rounds
/// them down.
pub const CACHE_BYTES_INIT: u64 = 0x100_0000;

/// Bytes by which the light cache grows with each epoch.
pub const CACHE_BYTES_GROWTH: u64 = 0x2_0000;

/// Bytes of the full dataset in the first epoch, before the schedule rounds
/// them down.
pub const DATASET_BYTES_INIT: u64 = 0x4000_0000;

/// Bytes by which the full dataset grows with each epoch.
pub const DATASET_BYTES_GROWTH: u64 = 0x80_0000;

/// The Ethash epoch of a block.
pub open spec fn epoch_of(number: u64) -> u64 {
    number / EPOCH_LENGTH
}

/// Whether a light cache is built for an epoch: this machine can count the
/// bytes of the epoch's dataset. No other limit is set to the epoch.
pub open spec fn epoch_covered(epoch: u64) -> bool {
    DATASET_BYTES_INIT + DATASET_BYTES_GROWTH * epoch <= usize::MAX
}

/// Whether the oracle can be asked about a block with this number.
pub open spec fn oracle_covers(number: u64) -> bool {
    epoch_covered(epoch_of(number))
}

/// What the oracle returns for a candidate: the mix digest, which a seal
/// claims, and the value, which is held against the boundary.
#[derive(Clone, Copy, Debug, PartialEq, Eq)]
pub struct ProofOfWork {
    pub mix_hash: H256,
    pub value: H256,
}

/// The bytes of the light cache of an epoch.
pub uninterp spec fn cache_size_of(epoch: usize) -> usize;

/// The bytes of the full dataset of an epoch.
pub uninterp spec fn full_size_of(epoch: usize) -> usize;

/// The seed hash of an epoch.
pub uninterp spec fn seed_hash_of(epoch: usize) -> Seq<u8>;

/// The light cache of a given size that a seed generates.
pub uninterp spec fn cache_of(size: usize, seed: Seq<u8>) -> Seq<u8>;

/// The mix digest and the value, in this order, of the Ethash function for a
/// pre-hash and a nonce, over a dataset of the given size that is derived
/// from the given light cache.
pub uninterp spec fn hashimoto_of(pre_hash: Seq<u8>, nonce: u64, full_size: usize, cache: Seq<u8>) -> (
    Seq<u8>,
    Seq<u8>,
);

/// The SHA3-256 digest of a byte string.
pub uninterp spec fn sha3_256_digest(data: Seq<u8>) -> Seq<u8>;

/// The light cache of an epoch under the size schedule.
pub open spec fn light_cache_of(epoch: usize) -> Seq<u8> {
    cache_of(cache_size_of(epoch), seed_hash_of(epoch))
}

/// The mix digest and the value of Ethash for a block number, a pre-hash and
/// a nonce: the Ethash function over the light cache and the dataset size of
/// the block's epoch.
pub open spec fn light_pow(number: u64, pre_hash: Seq<u8>, nonce: u64) -> (Seq<u8>, Seq<u8>) {
    let epoch = epoch_of(number) as usize;
    hashimoto_of(pre_hash, nonce, full_size_of(epoch), light_cache_of(epoch))
}

/// `get_cache_size` of the `ethash` crate: the size of an epoch's light
/// cache, a multiple of 64 bytes that is a prime number of 64-byte items.
#[verifier::external_body]
fn cache_size(epoch: usize) -> (size: usize)
    requires
        CACHE_BYTES_INIT + CACHE_BYTES_GROWTH * epoch <= usize::MAX,
    ensures
        size == cache_size_of(epoch),
        size % 64 == 0,
        size >= 64,
{
    ethash::get_cache_size(epoch)
}

/// `get_full_size` of the `ethash` crate: the size of an epoch's dataset, a
/// prime number of 128-byte items.
#[verifier::external_body]
fn full_size(epoch: usize) -> (size: usize)
    requires
        DATASET_BYTES_INIT + DATASET_BYTES_GROWTH * epoch <= usize::MAX,
    ensures
        size == full_size_of(epoch),
        size >= 128,
{
    ethash::get_full_size(epoch)
}

/// `get_seedhash` of the `ethash` crate: the seed hash of an epoch. The
/// function hashes 32 zero bytes once for each epoch, so that the seed of
/// the first epoch is those zero bytes themselves.
#[verifier::external_body]
pub(crate) fn seed_hash(epoch: usize) -> (seed: H256)
    ensures
        seed@ == seed_hash_of(epoch),
        epoch == 0 ==> seed@ == Seq::new(32, |i: int| 0u8),
{
    H256 { bytes: ethash::get_seedhash(epoch).0 }
}

/// `make_cache` of the `ethash` crate on a fresh buffer: every byte of the
/// buffer is written, from the seed alone.
#[verifier::external_body]
fn make_cache(size: usize, seed: &H256) -> (cache: Vec<u8>)
    requires
        size >= 64,
        size % 64 == 0,
    ensures
        cache@ == cache_of(size, seed@),
        cache@.len() == size,
{
    let mut cache = vec![0u8; size];
    ethash::make_cache(&mut cache, ethereum_types::H256(seed.bytes));
    cache
}

/// `hashimoto_light` of the `ethash` crate: the mix digest and the value for
/// a pre-hash and a nonce. The nonce is handed over as the eight bytes of
/// the number, most significant first.
#[verifier::external_body]
fn hashimoto_light(pre_hash: &H256, nonce: u64, full_size: usize, cache: &Vec<u8>) -> (pow:
    ProofOfWork)
    requires
        full_size >= 128,
        cache@.len() >= 64,
        cache@.len() % 64 == 0,
    ensures
        (pow.mix_hash@, pow.value@) == hashimoto_of(pre_hash@, nonce, full_size, cache@),
{
    let header = ethereum_types::H256(pre_hash.bytes);
    let nonce = ethereum_types::H64::from_low_u64_be(nonce);
    let (mix, value) = ethash::hashimoto_light(header, nonce, full_size, cache);
    ProofOfWork { mix_hash: H256 { bytes: mix.0 }, value: H256 { bytes: value.0 } }
}

/// `Sha3_256::digest` of the `sha3` crate.
#[verifier::external_body]
pub(crate) fn sha3_256(data: &[u8]) -> (digest: H256)
    ensures
        digest@ == sha3_256_digest(data@),
{
    let d = <sha3::Sha3_256 as sha3::Digest>::digest(data);
    let mut bytes = [0u8; 32];
    bytes.copy_from_slice(d.as_slice());
    H256 { bytes }
}

/// The light cache of one epoch: what the Ethash function reads in place of
/// the full dataset. Generating it takes seconds, so a verifier keeps it for
/// all the blocks of its epoch, or stores it and reads it back.
#[derive(Debug)]
pub struct LightCache {
    epoch: u64,
    full_size: usize,
    cache: Vec<u8>,
}

impl LightCache {
    #[verifier::type_invariant]
    spec fn inv(self) -> bool {
        self.full_size >= 128 && self.cache@.len() >= 64 && self.cache@.len() % 64 == 0
    }

    /// The epoch that the cache is kept for.
    pub closed spec fn epoch(&self) -> u64 {
        self.epoch
    }

    /// The size of the dataset that the cache stands for.
    pub closed spec fn full_size(&self) -> usize {
        self.full_size
    }

    /// The bytes of the cache.
    pub closed spec fn bytes(&self) -> Seq<u8> {
        self.cache@
    }

    /// Whether sizes are such that the Ethash function can run: a dataset of
    /// at least one pair of items, and a cache of whole items, at least one.
    pub open spec fn usable(cache_len: nat, full_size: usize) -> bool {
        full_size >= 128 && cache_len >= 64 && cache_len % 64 == 0
    }

    /// Whether this is the cache that the size schedule and the seed of its
    /// epoch generate.
    pub open spec fn is_genuine(&self) -> bool {
        &&& epoch_covered(self.epoch())
        &&& self.full_size() == full_size_of(self.epoch() as usize)
        &&& self.bytes() == light_cache_of(self.epoch() as usize)
    }

    /// The sizes of the light cache and of the dataset of an epoch, in this
    /// order, where the epoch is covered.
    pub fn sizes(epoch: u64) -> (r: Option<(usize, usize)>)
        ensures
            r is Some <==> epoch_covered(epoch),
            r matches Some(s) ==> s.0 == cache_size_of(epoch as usize) && s.1 == full_size_of(
                epoch as usize,
            ) && Self::usable(s.0 as nat, s.1),
    {
        if epoch > (usize::MAX as u64 - DATASET_BYTES_INIT) / DATASET_BYTES_GROWTH {
            return None;
        }
        Some((cache_size(epoch as usize), full_size(epoch as usize)))
    }

    /// Generates a cache of the given size from a seed, for a dataset of the
    /// given size. Nothing is generated where the sizes are not usable.
    pub fn generate(epoch: u64, cache_size: usize, full_size: usize, seed: &H256) -> (r: Option<
        LightCache,
    >)
        ensures
            r is Some <==> Self::usable(cache_size as nat, full_size),
            r matches Some(c) ==> c.epoch() == epoch && c.full_size() == full_size && c.bytes()
                == cache_of(cache_size, seed@),
    {
        if full_size < 128 || cache_size < 64 || cache_size % 64 != 0 {
            return None;
        }
        Some(LightCache { epoch, full_size, cache: make_cache(cache_size, seed) })
    }

    /// Takes a cache that was generated before. Nothing is taken where the
    /// sizes are not usable.
    pub fn from_parts(epoch: u64, full_size: usize, cache: Vec<u8>) -> (r: Option<LightCache>)
        ensures
            r is Some <==> Self::usable(cache@.len(), full_size),
            r matches Some(c) ==> c.epoch() == epoch && c.full_size() == full_size && c.bytes()
                == cache@,
    {
        if full_size < 128 || cache.len() < 64 || cache.len() % 64 != 0 {
            return None;
        }
        Some(LightCache { epoch, full_size, cache })
    }

    /// Generates the cache of an epoch, where the epoch is covered.
    pub fn build(epoch: u64) -> (r: Option<LightCache>)
        ensures
            r is Some <==> epoch_covered(epoch),
            r matches Some(c) ==> c.epoch() == epoch && c.is_genuine(),
    {
        let (cache_size, full_size) = match Self::sizes(epoch) {
            Some(sizes) => sizes,
            None => {
                return None;
            },
        };
        let seed = seed_hash(epoch as usize);
        Self::generate(epoch, cache_size, full_size, &seed)
    }

    /// The epoch that the cache is kept for.
    pub fn for_epoch(&self) -> (r: u64)
        ensures
            r == self.epoch(),
    {
        self.epoch
    }

    /// The size of the dataset that the cache stands for.
    pub fn dataset_size(&self) -> (r: usize)
        ensures
            r == self.full_size(),
    {
        self.full_size
    }

    /// The bytes of the cache, to be stored.
    pub fn as_bytes(&self) -> (r: &Vec<u8>)
        ensures
            r@ == self.bytes(),
    {
        &self.cache
    }

    /// Runs the Ethash function for a pre-hash and a nonce over this cache.
    pub fn compute(&self, pre_hash: &H256, nonce: u64) -> (pow: ProofOfWork)
        ensures
            (pow.mix_hash@, pow.value@) == hashimoto_of(
                pre_hash@,
                nonce,
                self.full_size(),
                self.bytes(),
            ),
    {
        proof {
            use_type_invariant(self);
        }
        hashimoto_light(pre_hash, nonce, self.full_size, &self.cache)
    }
}

/// Keeps the light cache of the epoch that was needed last, so that the
/// blocks of one epoch are verified over one cache. What it keeps is always
/// the genuine cache of its epoch.
#[derive(Debug)]
pub struct CacheKeeper {
    kept: Option<LightCache>,
}

impl CacheKeeper {
    #[verifier::type_invariant]
    spec fn inv(self) -> bool {
        self.kept matches Some(cache) ==> cache.is_genuine()
    }

    /// The epoch whose cache is kept.
    pub closed spec fn kept_epoch(&self) -> Option<u64> {
        match self.kept {
            Some(cache) => Some(cache.epoch()),
            None => None,
        }
    }

    /// What keeping the cache of `epoch` makes of the kept epoch: a covered
    /// epoch takes the place of any other, and an epoch that is not covered
    /// changes nothing.
    pub open spec fn after_keep(before: Option<u64>, epoch: u64) -> Option<u64> {
        if epoch_covered(epoch) {
            Some(epoch)
        } else {
            before
        }
    }

    /// A keeper that keeps nothing yet.
    pub fn new() -> (r: Self)
        ensures
            r.kept_epoch() is None,
    {
        CacheKeeper { kept: None }
    }

    /// The epoch whose cache is kept.
    pub fn epoch(&self) -> (r: Option<u64>)
        ensures
            r == self.kept_epoch(),
    {
        match &self.kept {
            Some(cache) => Some(cache.for_epoch()),
            None => None,
        }
    }

    /// Makes sure that the cache of `epoch` is kept, generating it unless it
    /// is there already.
    pub fn keep(&mut self, epoch: u64)
        ensures
            final(self).kept_epoch() == Self::after_keep(old(self).kept_epoch(), epoch),
    {
        proof {
            use_type_invariant(&*self);
        }
        let there = match &self.kept {
            Some(cache) => cache.for_epoch() == epoch,
            None => false,
        };
        if !there {
            match LightCache::build(epoch) {
                Some(cache) => {
                    self.kept = Some(cache);
                },
                None => {},
            }
        }
    }

    /// The cache that is kept, which is the genuine one of its epoch.
    pub fn cache(&self) -> (r: Option<&LightCache>)
        ensures
            r is Some <==> self.kept_epoch() is Some,
            r matches Some(cache) ==> cache.is_genuine() && Some(cache.epoch())
                == self.kept_epoch(),
    {
        proof {
            use_type_invariant(self);
        }
        self.kept.as_ref()
    }
}

} // verus!
