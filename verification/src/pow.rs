//! Seal verification and difficulty retargeting.

use vstd::prelude::*;
use vstd::arithmetic::div_mod::{
    lemma_div_is_ordered_by_denominator, lemma_fundamental_div_mod, lemma_mod_bound,
};
use crate::error::Error;
use crate::h256::H256;
use crate::codec::lemma_u256_bytes_roundtrip;
use crate::oracle::{
    epoch_covered, epoch_of, full_size_of, hashimoto_of, light_cache_of, light_pow,
    oracle_covers, sha3_256_digest, CacheKeeper, LightCache, ProofOfWork, EPOCH_LENGTH,
};
use crate::types::{
    decode_seal, decode_work_seal, lemma_seal_roundtrip, lemma_work_seal_roundtrip, Compute,
    ComputeModel, Header, HeaderModel, Seal, SealModel, WorkSeal, WorkSealModel,
};
use crate::u256::{
    be_value, checked_div, overflowing_mul, pow2_256, saturating_add, saturating_sub, U256,
};

verus! {

/// Whether a hash, read as a number with its most significant byte first,
/// can be multiplied by the difficulty without leaving the 256-bit range.
pub open spec fn meets_difficulty(hash: Seq<u8>, difficulty: nat) -> bool {
    be_value(hash) * difficulty < pow2_256()
}

/// The cheap test of a work hash: false exactly when the product of the hash
/// and the difficulty overflows 256 bits.
pub fn hash_meets_difficulty(hash: &H256, difficulty: U256) -> (r: bool)
    ensures
        r == meets_difficulty(hash@, difficulty@),
{
    let num_hash = hash.to_u256();
    let (_, overflowed) = overflowing_mul(num_hash, difficulty);
    !overflowed
}

/// The boundary of a difficulty: the largest 256-bit number whose product
/// with the difficulty stays within 256 bits. That is 2^256 - 1 divided by
/// the difficulty and rounded down, and 2^256 - 1 itself for the difficulty 0.
pub open spec fn boundary_of(difficulty: nat) -> nat {
    if difficulty == 0 {
        (pow2_256() - 1) as nat
    } else {
        ((pow2_256() - 1) / (difficulty as int)) as nat
    }
}

/// A value meets a difficulty exactly when it does not exceed the boundary
/// of that difficulty.
pub proof fn lemma_boundary_is_the_largest_value_that_meets(value: nat, difficulty: nat)
    requires
        value < pow2_256(),
    ensures
        value <= boundary_of(difficulty) <==> value * difficulty < pow2_256(),
{
    if difficulty > 0 {
        let m = (pow2_256() - 1) as int;
        let d = difficulty as int;
        let v = value as int;
        let q = m / d;
        let r = m % d;
        lemma_fundamental_div_mod(m, d);
        lemma_mod_bound(m, d);
        assert(v <= q ==> v * d <= m) by (nonlinear_arith)
            requires
                m == d * q + r,
                0 <= r,
                d > 0,
                v >= 0,
        ;
        assert(v * d <= m ==> v <= q) by (nonlinear_arith)
            requires
                m == d * q + r,
                r < d,
                d > 0,
        ;
    } else {
        assert(value * difficulty == 0) by (nonlinear_arith)
            requires
                difficulty == 0,
        ;
    }
}

/// A hash meets a difficulty exactly when it does not exceed the boundary of
/// that difficulty.
pub proof fn lemma_meets_is_under_the_boundary(hash: Seq<u8>, difficulty: nat)
    requires
        be_value(hash) < pow2_256(),
    ensures
        meets_difficulty(hash, difficulty) <==> be_value(hash) <= boundary_of(difficulty),
{
    lemma_boundary_is_the_largest_value_that_meets(be_value(hash), difficulty);
}

/// The boundary of a difficulty, which is the target of a miner.
///
/// This is the exact quotient, so that a value meets the difficulty exactly
/// when it does not exceed the target. It is not taken from `cross_boundary`
/// of the `ethash` crate: that conversion doubles the quotient of 2^255 by
/// the difficulty, which is even in every case and differs from the exact
/// quotient by one for about every second difficulty, in either direction.
/// A miner that aimed at it would discard values that pass, or hand in
/// values that fail.
pub fn difficulty_to_boundary(difficulty: U256) -> (r: U256)
    ensures
        r@ == boundary_of(difficulty@),
{
    match checked_div(U256::max_value(), difficulty) {
        Some(quotient) => quotient,
        None => U256::max_value(),
    }
}

/// The difficulty below which no target falls.
pub const MINIMUM_DIFFICULTY: u64 = 1_000_000;

/// The part of the parent's difficulty by which a target moves: one in 2048.
pub const DIFFICULTY_BOUND_DIVISOR: u64 = 2048;

/// Carried for the increment rule of later protocol versions.
pub const DIFFICULTY_INCREMENT_DIVISOR: u64 = 10;

/// Seconds after the parent from which on the target is loosened.
pub const DURATION_LIMIT: u64 = 13;

/// The target of a child block: the parent's difficulty, lowered by its
/// `divisor`-th part where at least `limit` seconds have passed since the
/// parent, raised by it otherwise (and then held within 256 bits), and never
/// below `minimum`.
pub open spec fn retarget(parent: nat, elapsed: int, minimum: nat, divisor: nat, limit: nat) -> nat {
    let step = parent / divisor;
    let target = if elapsed >= limit {
        (parent - step) as nat
    } else if parent + step < pow2_256() {
        parent + step
    } else {
        (pow2_256() - 1) as nat
    };
    if target >= minimum {
        target
    } else {
        minimum
    }
}

/// A step is never larger than the difficulty it is taken from.
pub proof fn lemma_step_bounded(parent: nat, divisor: nat)
    requires
        divisor > 0,
    ensures
        parent / divisor <= parent,
{
    lemma_div_is_ordered_by_denominator(parent as int, 1, divisor as int);
}

/// The target never rises when more time has passed since the parent, and it
/// is never below the minimum.
pub proof fn lemma_retarget_monotonic(
    parent: nat,
    earlier: int,
    later: int,
    minimum: nat,
    divisor: nat,
    limit: nat,
)
    requires
        earlier <= later,
        divisor > 0,
        parent < pow2_256(),
    ensures
        retarget(parent, later, minimum, divisor, limit) <= retarget(
            parent,
            earlier,
            minimum,
            divisor,
            limit,
        ),
        retarget(parent, later, minimum, divisor, limit) >= minimum,
{
    lemma_step_bounded(parent, divisor);
}

/// A parent that is exactly `limit` seconds old is already loosened.
pub proof fn lemma_retarget_boundary_inclusive(parent: nat, minimum: nat, divisor: nat, limit: nat)
    requires
        divisor > 0,
    ensures
        retarget(parent, limit as int, minimum, divisor, limit) == if parent - parent / divisor
            >= minimum {
            (parent - parent / divisor) as nat
        } else {
            minimum
        },
{
    lemma_step_bounded(parent, divisor);
}

/// The difficulty recorded in a block: that of its seal, and the minimum for
/// an unsealed genesis block.
pub open spec fn recorded_difficulty(header: Option<HeaderModel>, minimum: U256) -> Result<
    U256,
    Error,
> {
    match header {
        None => Err(Error::HeaderNotFound),
        Some(h) => match h.seal {
            None => if h.number == 0 {
                Ok(minimum)
            } else {
                Err(Error::HeaderUnsealed)
            },
            Some(bytes) => match decode_work_seal(bytes) {
                None => Err(Error::DecodeFailure),
                Some(seal) => Ok(seal.difficulty),
            },
        },
    }
}

/// The outcome of the retarget rule on a parent as the chain backend returned
/// it: the minimum where the parent is unknown or an unsealed genesis block,
/// a failure where it is unsealed otherwise or its seal is malformed, and else
/// the retarget of what its seal records.
pub open spec fn child_difficulty(
    parent: Option<HeaderModel>,
    now: u64,
    minimum: nat,
    divisor: nat,
    limit: nat,
) -> Result<nat, Error> {
    match parent {
        None => Ok(minimum),
        Some(h) => match h.seal {
            None => if h.number == 0 {
                Ok(minimum)
            } else {
                Err(Error::HeaderUnsealed)
            },
            Some(bytes) => match decode_work_seal(bytes) {
                None => Err(Error::DecodeFailure),
                Some(seal) => Ok(
                    retarget(seal.difficulty@, now - seal.timestamp, minimum, divisor, limit),
                ),
            },
        },
    }
}

/// For one parent, the rule fails at a later time exactly where it fails at
/// an earlier one. Where it gives a target, the later target is not above the
/// earlier one and not below the minimum.
pub proof fn lemma_child_difficulty_monotonic(
    parent: Option<HeaderModel>,
    earlier: u64,
    later: u64,
    minimum: nat,
    divisor: nat,
    limit: nat,
)
    requires
        earlier <= later,
        divisor > 0,
    ensures
        child_difficulty(parent, earlier, minimum, divisor, limit) is Ok <==> child_difficulty(
            parent,
            later,
            minimum,
            divisor,
            limit,
        ) is Ok,
        child_difficulty(parent, earlier, minimum, divisor, limit) matches Ok(first) ==> {
            &&& child_difficulty(parent, later, minimum, divisor, limit) matches Ok(second)
            &&& second <= first
            &&& second >= minimum
        },
{
    match parent {
        Some(h) => match h.seal {
            Some(bytes) => match decode_work_seal(bytes) {
                Some(seal) => {
                    crate::u256::lemma_u256_bounded(seal.difficulty);
                    lemma_retarget_monotonic(
                        seal.difficulty@,
                        earlier - seal.timestamp,
                        later - seal.timestamp,
                        minimum,
                        divisor,
                        limit,
                    );
                },
                None => {},
            },
            None => {},
        },
        None => {},
    }
}

/// The Ethash algorithm with difficulty retargeting.
#[derive(Clone, Copy, Debug)]
pub struct EthashAlgorithm {
    minimum_difficulty: U256,
    difficulty_bound_divisor: U256,
    difficulty_increment_divisor: u64,
    duration_limit: u64,
}

impl EthashAlgorithm {
    #[verifier::type_invariant]
    spec fn inv(self) -> bool {
        self.difficulty_bound_divisor@ > 0 && self.minimum_difficulty@ > 0
    }

    /// The configured minimum difficulty.
    pub closed spec fn minimum(self) -> U256 {
        self.minimum_difficulty
    }

    /// The configured bound divisor.
    pub closed spec fn bound_divisor(self) -> U256 {
        self.difficulty_bound_divisor
    }

    /// The configured duration limit, in seconds.
    pub closed spec fn limit(self) -> u64 {
        self.duration_limit
    }

    /// The configured increment divisor.
    pub closed spec fn increment_divisor(self) -> u64 {
        self.difficulty_increment_divisor
    }

    /// The algorithm with the protocol's parameters.
    pub fn new() -> (r: Self)
        ensures
            r.minimum()@ == MINIMUM_DIFFICULTY,
            r.bound_divisor()@ == DIFFICULTY_BOUND_DIVISOR,
            r.limit() == DURATION_LIMIT,
            r.increment_divisor() == DIFFICULTY_INCREMENT_DIVISOR,
    {
        EthashAlgorithm {
            minimum_difficulty: U256::from_u64(MINIMUM_DIFFICULTY),
            difficulty_bound_divisor: U256::from_u64(DIFFICULTY_BOUND_DIVISOR),
            difficulty_increment_divisor: DIFFICULTY_INCREMENT_DIVISOR,
            duration_limit: DURATION_LIMIT,
        }
    }

    /// The bound divisor, which is never 0.
    pub fn difficulty_bound_divisor(&self) -> (r: U256)
        ensures
            r == self.bound_divisor(),
            r@ > 0,
    {
        proof {
            use_type_invariant(self);
        }
        self.difficulty_bound_divisor
    }

    /// The duration limit, in seconds.
    pub fn duration_limit(&self) -> (r: u64)
        ensures
            r == self.limit(),
    {
        self.duration_limit
    }

    /// The minimum difficulty, which is never 0.
    pub fn minimum_difficulty(&self) -> (r: U256)
        ensures
            r == self.minimum(),
            r@ > 0,
    {
        proof {
            use_type_invariant(self);
        }
        self.minimum_difficulty
    }

    /// The divisor of the increment rule, which no rule reads yet.
    pub fn difficulty_increment_divisor(&self) -> (r: u64)
        ensures
            r == self.increment_divisor(),
    {
        self.difficulty_increment_divisor
    }

    /// The target of a block whose parent has the given difficulty and
    /// timestamp, at the time `now`. All times are in seconds.
    pub fn next_difficulty(&self, parent_difficulty: U256, parent_timestamp: u64, now: u64) -> (r:
        U256)
        ensures
            r@ == retarget(
                parent_difficulty@,
                now - parent_timestamp,
                self.minimum()@,
                self.bound_divisor()@,
                self.limit() as nat,
            ),
            r@ >= self.minimum()@,
            r@ > 0,
    {
        proof {
            use_type_invariant(self);
            lemma_step_bounded(parent_difficulty@, self.difficulty_bound_divisor@);
        }
        let step = match checked_div(parent_difficulty, self.difficulty_bound_divisor) {
            Some(q) => q,
            None => U256::zero(),
        };
        let loosen = now >= parent_timestamp && now - parent_timestamp >= self.duration_limit;
        let target = if loosen {
            saturating_sub(parent_difficulty, step)
        } else {
            saturating_add(parent_difficulty, step)
        };
        self.minimum_difficulty.max(target)
    }

    /// The difficulty recorded in a block, given what the chain backend
    /// returned for it. For a block that was verified, this is the
    /// difficulty that was required of it.
    pub fn difficulty(&self, header: Option<&Header>) -> (r: Result<U256, Error>)
        ensures
            r == recorded_difficulty(
                match header {
                    Some(h) => Some(h@),
                    None => None,
                },
                self.minimum(),
            ),
    {
        let header = match header {
            Some(h) => h,
            None => {
                return Err(Error::HeaderNotFound);
            },
        };
        let raw = match &header.seal {
            Some(raw) => raw,
            None => {
                if header.number == 0 {
                    return Ok(self.minimum_difficulty);
                } else {
                    return Err(Error::HeaderUnsealed);
                }
            },
        };
        match WorkSeal::decode(raw.as_slice()) {
            Some(seal) => Ok(seal.difficulty),
            None => Err(Error::DecodeFailure),
        }
    }

    /// The difficulty that a child of `parent` must meet at the time `now`,
    /// given what the chain backend returned for the parent.
    pub fn calc_difficulty(&self, parent: Option<&Header>, now: u64) -> (r: Result<U256, Error>)
        ensures
            match child_difficulty(
                match parent {
                    Some(h) => Some(h@),
                    None => None,
                },
                now,
                self.minimum()@,
                self.bound_divisor()@,
                self.limit() as nat,
            ) {
                Ok(target) => r is Ok && r->Ok_0@ == target,
                Err(e) => r == Err::<U256, Error>(e),
            },
            r is Ok ==> r->Ok_0@ >= self.minimum()@ && r->Ok_0@ > 0,
    {
        proof {
            use_type_invariant(self);
        }
        let parent = match parent {
            Some(h) => h,
            None => {
                return Ok(self.minimum_difficulty);
            },
        };
        let raw = match &parent.seal {
            Some(raw) => raw,
            None => {
                if parent.number == 0 {
                    return Ok(self.minimum_difficulty);
                } else {
                    return Err(Error::HeaderUnsealed);
                }
            },
        };
        let parent_seal = match WorkSeal::decode(raw.as_slice()) {
            Some(seal) => seal,
            None => {
                return Err(Error::DecodeFailure);
            },
        };
        Ok(self.next_difficulty(parent_seal.difficulty, parent_seal.timestamp, now))
    }
}

/// What the tests that need no oracle say of a work seal: its pre-hash is the
/// block's, its recorded difficulty is the required one, and its nonce has
/// 64 bits.
pub open spec fn field_checks(seal: WorkSealModel, pre_hash: Seq<u8>, required: U256) -> Result<
    (),
    Error,
> {
    if seal.pow_hash != pre_hash || seal.difficulty != required {
        Err(Error::MismatchedSealElement)
    } else if seal.nonce@ > u64::MAX {
        Err(Error::SealOutOfRange)
    } else {
        Ok(())
    }
}

/// What the checks after the oracle call say of a work seal, given the mix
/// digest and the value that the oracle returned: the seal's mix digest is the
/// oracle's, and the value meets the required difficulty.
pub open spec fn seal_checks(seal: WorkSealModel, pow: (Seq<u8>, Seq<u8>), required: U256) -> Result<
    (),
    Error,
> {
    if pow.0 != seal.mix_digest {
        Err(Error::MismatchedSealElement)
    } else if !meets_difficulty(pow.1, required@) {
        Err(Error::InvalidProofOfWork)
    } else {
        Ok(())
    }
}

/// What verification says of a decoded work seal for a block with the given
/// pre-hash. The cheap tests come first: those of the seal's fields, and
/// that the block number lies in an epoch that the oracle covers. Then the
/// oracle is asked with the seal's block number and nonce and the block's
/// pre-hash, and its result is held against the seal and the difficulty.
pub open spec fn work_seal_verdict(seal: WorkSealModel, pre_hash: Seq<u8>, required: U256) -> Result<
    (),
    Error,
> {
    match field_checks(seal, pre_hash, required) {
        Err(e) => Err(e),
        Ok(_) => if !oracle_covers(seal.header_nr) {
            Err(Error::SealOutOfRange)
        } else {
            seal_checks(seal, light_pow(seal.header_nr, pre_hash, seal.nonce@ as u64), required)
        },
    }
}

/// Whether raw seal bytes prove work of the required difficulty on a block
/// with the given pre-hash under the Ethash algorithm. Bytes that hold no
/// seal prove nothing.
pub open spec fn ethash_accepts(pre_hash: Seq<u8>, raw_seal: Seq<u8>, required: U256) -> bool {
    match decode_work_seal(raw_seal) {
        Some(seal) => work_seal_verdict(seal, pre_hash, required) is Ok,
        None => false,
    }
}

/// What verification says of a decoded seal of the minimal algorithm: the
/// cheap test of the claimed work comes first, then the seal is recomputed
/// from the required difficulty, the block's pre-hash and the seal's nonce,
/// and must come out the same in every field.
pub open spec fn minimal_seal_verdict(seal: SealModel, pre_hash: Seq<u8>, required: U256) -> Result<
    (),
    Error,
> {
    if !meets_difficulty(seal.work, required@) {
        Err(Error::InvalidProofOfWork)
    } else if (ComputeModel { difficulty: required, pre_hash: pre_hash, nonce: seal.nonce }).seal()
        != seal {
        Err(Error::MismatchedSealElement)
    } else {
        Ok(())
    }
}

/// Whether raw seal bytes prove work of the required difficulty on a block
/// with the given pre-hash under the minimal algorithm.
pub open spec fn minimal_accepts(pre_hash: Seq<u8>, raw_seal: Seq<u8>, required: U256) -> bool {
    match decode_seal(raw_seal) {
        Some(seal) => minimal_seal_verdict(seal, pre_hash, required) is Ok,
        None => false,
    }
}

/// The epoch of the block number that raw seal bytes carry, where they hold
/// a seal.
pub open spec fn seal_epoch(raw_seal: Seq<u8>) -> Option<u64> {
    match decode_work_seal(raw_seal) {
        Some(seal) => Some(epoch_of(seal.header_nr)),
        None => None,
    }
}

/// What verification says of a decoded work seal when it is run over a light
/// cache that the caller keeps for one epoch: as `work_seal_verdict`, but a
/// seal of another epoch is out of range, and the Ethash function is run
/// over the given cache and dataset size.
pub open spec fn work_seal_verdict_with(
    epoch: u64,
    full_size: usize,
    cache: Seq<u8>,
    seal: WorkSealModel,
    pre_hash: Seq<u8>,
    required: U256,
) -> Result<(), Error> {
    match field_checks(seal, pre_hash, required) {
        Err(e) => Err(e),
        Ok(_) => if epoch_of(seal.header_nr) != epoch {
            Err(Error::SealOutOfRange)
        } else {
            seal_checks(
                seal,
                hashimoto_of(pre_hash, seal.nonce@ as u64, full_size, cache),
                required,
            )
        },
    }
}

/// Over the genuine cache of a seal's epoch, verification says what it says
/// when it generates the cache itself.
pub proof fn lemma_genuine_cache_agrees(
    epoch: u64,
    full_size: usize,
    cache: Seq<u8>,
    seal: WorkSealModel,
    pre_hash: Seq<u8>,
    required: U256,
)
    requires
        epoch_covered(epoch),
        full_size == full_size_of(epoch as usize),
        cache == light_cache_of(epoch as usize),
        epoch_of(seal.header_nr) == epoch,
    ensures
        work_seal_verdict_with(epoch, full_size, cache, seal, pre_hash, required)
            == work_seal_verdict(seal, pre_hash, required),
{
}

/// The tests of a seal's fields that need no oracle. Where they pass, the
/// seal's nonce comes back as the 64-bit number that the oracle takes.
pub fn check_fields(seal: &WorkSeal, pre_hash: &H256, required: U256) -> (r: Result<u64, Error>)
    ensures
        match field_checks(seal@, pre_hash@, required) {
            Ok(_) => r == Ok::<u64, Error>(seal.nonce@ as u64),
            Err(e) => r == Err::<u64, Error>(e),
        },
{
    if !seal.pow_hash.same(pre_hash) || seal.difficulty != required {
        return Err(Error::MismatchedSealElement);
    }
    match seal.nonce.to_u64() {
        Some(nonce) => Ok(nonce),
        None => Err(Error::SealOutOfRange),
    }
}

/// The checks that follow the oracle call, on what the oracle returned.
pub fn check_seal(seal: &WorkSeal, pow: &ProofOfWork, required: U256) -> (r: Result<(), Error>)
    ensures
        r == seal_checks(seal@, (pow.mix_hash@, pow.value@), required),
{
    if !pow.mix_hash.same(&seal.mix_digest) {
        return Err(Error::MismatchedSealElement);
    }
    if !hash_meets_difficulty(&pow.value, required) {
        return Err(Error::InvalidProofOfWork);
    }
    Ok(())
}

impl EthashAlgorithm {
    /// Verifies a decoded seal against a block's pre-hash with a light cache
    /// that the caller keeps: the cheap tests, then one run of the Ethash
    /// function, then the checks on its result.
    pub fn verify_seal_with(
        &self,
        cache: &LightCache,
        seal: &WorkSeal,
        pre_hash: &H256,
        required: U256,
    ) -> (r: Result<(), Error>)
        ensures
            r == work_seal_verdict_with(
                cache.epoch(),
                cache.full_size(),
                cache.bytes(),
                seal@,
                pre_hash@,
                required,
            ),
    {
        let nonce = match check_fields(seal, pre_hash, required) {
            Ok(nonce) => nonce,
            Err(e) => {
                return Err(e);
            },
        };
        if seal.header_nr / EPOCH_LENGTH != cache.for_epoch() {
            return Err(Error::SealOutOfRange);
        }
        let pow = cache.compute(pre_hash, nonce);
        check_seal(seal, &pow, required)
    }

    /// Verifies a decoded seal against a block's pre-hash. The light cache
    /// of the seal's epoch is generated for this one call.
    pub fn verify_seal(&self, seal: &WorkSeal, pre_hash: &H256, required: U256) -> (r: Result<
        (),
        Error,
    >)
        ensures
            r == work_seal_verdict(seal@, pre_hash@, required),
    {
        match check_fields(seal, pre_hash, required) {
            Ok(_) => {},
            Err(e) => {
                return Err(e);
            },
        }
        let cache = match LightCache::build(seal.header_nr / EPOCH_LENGTH) {
            Some(cache) => cache,
            None => {
                return Err(Error::SealOutOfRange);
            },
        };
        self.verify_seal_with(&cache, seal, pre_hash, required)
    }

    /// Whether the raw seal proves work of the required difficulty on the
    /// block with the given pre-hash, with a light cache that the caller
    /// keeps. Malformed bytes are a plain `false`.
    pub fn verify_with(&self, cache: &LightCache, pre_hash: &H256, seal: &[u8], difficulty: U256) -> (r:
        bool)
        ensures
            r == match decode_work_seal(seal@) {
                Some(s) => work_seal_verdict_with(
                    cache.epoch(),
                    cache.full_size(),
                    cache.bytes(),
                    s,
                    pre_hash@,
                    difficulty,
                ) is Ok,
                None => false,
            },
            cache.is_genuine() ==> r == (ethash_accepts(pre_hash@, seal@, difficulty)
                && seal_epoch(seal@) == Some(cache.epoch())),
    {
        let seal = match WorkSeal::decode(seal) {
            Some(seal) => seal,
            None => {
                return false;
            },
        };
        proof {
            if cache.is_genuine() && epoch_of(seal.header_nr) == cache.epoch() {
                lemma_genuine_cache_agrees(
                    cache.epoch(),
                    cache.full_size(),
                    cache.bytes(),
                    seal@,
                    pre_hash@,
                    difficulty,
                );
            }
        }
        match self.verify_seal_with(cache, &seal, pre_hash, difficulty) {
            Ok(_) => true,
            Err(_) => false,
        }
    }

    /// Whether the raw seal proves work of the required difficulty on the
    /// block with the given pre-hash, as `verify` says it, over a cache that
    /// is kept from call to call. A seal that fails the tests of its fields
    /// leaves the keeper as it is; of the others, only a seal of another
    /// epoch than the last one has the cache generated.
    pub fn verify_keeping(
        &self,
        keeper: &mut CacheKeeper,
        pre_hash: &H256,
        seal: &[u8],
        difficulty: U256,
    ) -> (r: bool)
        ensures
            r == ethash_accepts(pre_hash@, seal@, difficulty),
            final(keeper).kept_epoch() == match decode_work_seal(seal@) {
                Some(s) => if field_checks(s, pre_hash@, difficulty) is Ok {
                    CacheKeeper::after_keep(old(keeper).kept_epoch(), epoch_of(s.header_nr))
                } else {
                    old(keeper).kept_epoch()
                },
                None => old(keeper).kept_epoch(),
            },
    {
        let decoded = match WorkSeal::decode(seal) {
            Some(decoded) => decoded,
            None => {
                return false;
            },
        };
        match check_fields(&decoded, pre_hash, difficulty) {
            Ok(_) => {},
            Err(_) => {
                return false;
            },
        }
        let epoch = decoded.header_nr / EPOCH_LENGTH;
        keeper.keep(epoch);
        match keeper.cache() {
            Some(cache) => {
                if cache.for_epoch() == epoch {
                    self.verify_with(cache, pre_hash, seal, difficulty)
                } else {
                    false
                }
            },
            None => false,
        }
    }

    /// Whether the raw seal proves work of the required difficulty on the
    /// block with the given pre-hash. Malformed bytes are a plain `false`.
    pub fn verify(&self, pre_hash: &H256, seal: &[u8], difficulty: U256) -> (r: bool)
        ensures
            r == ethash_accepts(pre_hash@, seal@, difficulty),
    {
        let seal = match WorkSeal::decode(seal) {
            Some(seal) => seal,
            None => {
                return false;
            },
        };
        match self.verify_seal(&seal, pre_hash, difficulty) {
            Ok(_) => true,
            Err(_) => false,
        }
    }
}

/// The minimal algorithm for test and development chains: a fixed difficulty
/// and a SHA3-256 hash of the attempt in place of the Ethash function.
#[derive(Clone, Copy, Debug)]
pub struct MinimalEthashAlgorithm {}

impl MinimalEthashAlgorithm {
    /// The minimal algorithm.
    pub fn new() -> Self {
        MinimalEthashAlgorithm {  }
    }

    /// The difficulty of every block: 1 000 000.
    pub fn difficulty(&self, _parent: &H256) -> (r: Result<U256, Error>)
        ensures
            r is Ok,
            r->Ok_0@ == MINIMUM_DIFFICULTY,
    {
        Ok(U256::from_u64(MINIMUM_DIFFICULTY))
    }

    /// The difficulty that every child must meet: 1 000 000.
    pub fn calc_difficulty(&self, _parent: &H256) -> (r: Result<U256, Error>)
        ensures
            r is Ok,
            r->Ok_0@ == MINIMUM_DIFFICULTY,
    {
        Ok(U256::from_u64(MINIMUM_DIFFICULTY))
    }

    /// Verifies a decoded seal against a block's pre-hash.
    pub fn verify_seal(&self, seal: &Seal, pre_hash: &H256, required: U256) -> (r: Result<
        (),
        Error,
    >)
        ensures
            r == minimal_seal_verdict(seal@, pre_hash@, required),
    {
        if !hash_meets_difficulty(&seal.work, required) {
            return Err(Error::InvalidProofOfWork);
        }
        let compute = Compute { difficulty: required, pre_hash: *pre_hash, nonce: seal.nonce };
        assert(compute@ =~= (ComputeModel {
            difficulty: required,
            pre_hash: pre_hash@,
            nonce: seal.nonce,
        }));
        if !compute.compute().same(seal) {
            return Err(Error::MismatchedSealElement);
        }
        Ok(())
    }

    /// Whether the raw seal proves work of the required difficulty on the
    /// block with the given pre-hash. Malformed bytes are a plain `false`.
    pub fn verify(&self, pre_hash: &H256, seal: &[u8], difficulty: U256) -> (r: bool)
        ensures
            r == minimal_accepts(pre_hash@, seal@, difficulty),
    {
        let seal = match Seal::decode(seal) {
            Some(seal) => seal,
            None => {
                return false;
            },
        };
        match self.verify_seal(&seal, pre_hash, difficulty) {
            Ok(_) => true,
            Err(_) => false,
        }
    }
}

/// An Ethash seal in encoded form is accepted whenever its pre-hash is the
/// block's, its recorded difficulty is the required one, its nonce has 64
/// bits, its block number lies in a covered epoch, its mix digest is the one
/// that the oracle yields for the block's pre-hash, and the oracle's value
/// meets the required difficulty.
pub proof fn lemma_sound_work_seal_accepted(seal: WorkSealModel, pre_hash: Seq<u8>, required: U256)
    requires
        seal.wf(),
        seal.pow_hash == pre_hash,
        seal.difficulty == required,
        seal.nonce@ <= u64::MAX,
        oracle_covers(seal.header_nr),
        light_pow(seal.header_nr, pre_hash, seal.nonce@ as u64).0 == seal.mix_digest,
        meets_difficulty(
            light_pow(seal.header_nr, pre_hash, seal.nonce@ as u64).1,
            required@,
        ),
    ensures
        ethash_accepts(pre_hash, seal.encoding(), required),
{
    lemma_work_seal_roundtrip(seal, Seq::empty());
    assert(seal.encoding() + Seq::<u8>::empty() =~= seal.encoding());
}

/// What an accepted Ethash seal records can be relied on as far as
/// verification can hold it against something: its pre-hash is the block's
/// and its difficulty is the required one. So the difficulty that a later
/// block reads from it is the one that it was verified against.
pub proof fn lemma_accepted_seal_records_the_required(
    pre_hash: Seq<u8>,
    raw_seal: Seq<u8>,
    required: U256,
)
    requires
        ethash_accepts(pre_hash, raw_seal, required),
    ensures
        decode_work_seal(raw_seal) is Some,
        decode_work_seal(raw_seal)->0.pow_hash == pre_hash,
        decode_work_seal(raw_seal)->0.difficulty == required,
        decode_work_seal(raw_seal)->0.nonce@ <= u64::MAX,
        oracle_covers(decode_work_seal(raw_seal)->0.header_nr),
{
}

/// Changing one byte of an accepted encoded Ethash seal makes it rejected
/// where the byte lies in the pre-hash, in the mix digest or in the
/// difficulty. Where it lies elsewhere, the changed seal is accepted only if
/// the oracle yields the seal's mix digest for the changed nonce or block
/// number as well.
///
/// Two changes cannot be caught by anything that verification is given: one
/// in the timestamp, which nothing recomputes, and one of the block number
/// within its epoch, which the oracle does not tell apart.
pub proof fn lemma_corrupt_work_seal_rejected(
    seal: WorkSealModel,
    pre_hash: Seq<u8>,
    required: U256,
    at: int,
    byte: u8,
)
    requires
        seal.wf(),
        ethash_accepts(pre_hash, seal.encoding(), required),
        0 <= at < 144,
        byte != seal.encoding()[at],
    ensures
        32 <= at < 96 || 104 <= at < 136 ==> !ethash_accepts(
            pre_hash,
            seal.encoding().update(at, byte),
            required,
        ),
        ethash_accepts(pre_hash, seal.encoding().update(at, byte), required) ==> {
            let other = decode_work_seal(seal.encoding().update(at, byte))->0;
            light_pow(other.header_nr, pre_hash, other.nonce@ as u64).0 == light_pow(
                seal.header_nr,
                pre_hash,
                seal.nonce@ as u64,
            ).0
        },
{
    lemma_work_seal_roundtrip(seal, Seq::empty());
    let good = seal.encoding();
    let bad = good.update(at, byte);
    assert(good + Seq::<u8>::empty() =~= good);
    let other = decode_work_seal(bad)->0;
    assert(good.subrange(32, 64) == seal.pow_hash);
    assert(good.subrange(64, 96) == seal.mix_digest);
    if at < 32 {
        assert(bad.subrange(64, 96) =~= good.subrange(64, 96));
    } else if at < 64 {
        assert(other.pow_hash[at - 32] == byte);
        assert(seal.pow_hash[at - 32] == good[at]);
    } else if at < 96 {
        assert(bad.subrange(0, 32) =~= good.subrange(0, 32));
        assert(bad.subrange(32, 64) =~= good.subrange(32, 64));
        assert(bad.subrange(96, 104) =~= good.subrange(96, 104));
        assert(bad.subrange(104, 136) =~= good.subrange(104, 136));
        assert(other.mix_digest[at - 64] == byte);
        assert(seal.mix_digest[at - 64] == good[at]);
    } else if at < 104 {
        assert(bad.subrange(64, 96) =~= good.subrange(64, 96));
    } else if at < 136 {
        lemma_u256_bytes_roundtrip(good.subrange(104, 136));
        lemma_u256_bytes_roundtrip(bad.subrange(104, 136));
        assert(bad.subrange(104, 136)[at - 104] == byte);
        assert(good.subrange(104, 136)[at - 104] == good[at]);
        assert(other.difficulty != seal.difficulty);
    } else {
        assert(bad.subrange(64, 96) =~= good.subrange(64, 96));
    }
}

/// A seal of the minimal algorithm in encoded form is accepted whenever it is
/// the seal computed from the required difficulty, the block's pre-hash and
/// its nonce, and its work passes the cheap test.
pub proof fn lemma_sound_seal_accepted(nonce: U256, pre_hash: Seq<u8>, required: U256)
    requires
        pre_hash.len() == 32,
        sha3_256_digest(
            (ComputeModel { difficulty: required, pre_hash: pre_hash, nonce: nonce }).encoding(),
        ).len() == 32,
        meets_difficulty(
            (ComputeModel { difficulty: required, pre_hash: pre_hash, nonce: nonce }).seal().work,
            required@,
        ),
    ensures
        minimal_accepts(
            pre_hash,
            (ComputeModel { difficulty: required, pre_hash: pre_hash, nonce: nonce }).seal().encoding(),
            required,
        ),
{
    let seal = (ComputeModel { difficulty: required, pre_hash: pre_hash, nonce: nonce }).seal();
    lemma_seal_roundtrip(seal, Seq::empty());
    assert(seal.encoding() + Seq::<u8>::empty() =~= seal.encoding());
}

/// Changing one byte of an accepted encoded seal of the minimal algorithm
/// makes it rejected where the byte lies in the difficulty or in the work.
/// Where it lies in the nonce, the changed seal is accepted only if the
/// attempt with the changed nonce has the same SHA3-256 digest as the
/// original one.
pub proof fn lemma_corrupt_seal_rejected(
    seal: SealModel,
    pre_hash: Seq<u8>,
    required: U256,
    at: int,
    byte: u8,
)
    requires
        seal.wf(),
        minimal_accepts(pre_hash, seal.encoding(), required),
        0 <= at < 96,
        byte != seal.encoding()[at],
    ensures
        at < 64 ==> !minimal_accepts(pre_hash, seal.encoding().update(at, byte), required),
        minimal_accepts(pre_hash, seal.encoding().update(at, byte), required) ==> {
            let other = decode_seal(seal.encoding().update(at, byte))->0;
            &&& other.nonce != seal.nonce
            &&& (ComputeModel { difficulty: required, pre_hash: pre_hash, nonce: other.nonce }).seal().work
                == (ComputeModel {
                difficulty: required,
                pre_hash: pre_hash,
                nonce: seal.nonce,
            }).seal().work
        },
{
    lemma_seal_roundtrip(seal, Seq::empty());
    let good = seal.encoding();
    let bad = good.update(at, byte);
    assert(good + Seq::<u8>::empty() =~= good);
    let other = decode_seal(bad)->0;
    if at < 32 {
        lemma_u256_bytes_roundtrip(good.subrange(0, 32));
        lemma_u256_bytes_roundtrip(bad.subrange(0, 32));
        assert(bad.subrange(0, 32)[at] == byte);
        assert(good.subrange(0, 32)[at] == good[at]);
        assert(other.difficulty != seal.difficulty);
    } else if at < 64 {
        assert(bad.subrange(64, 96) =~= good.subrange(64, 96));
        assert(good.subrange(32, 64) == seal.work);
        assert(other.work[at - 32] == byte);
        assert(seal.work[at - 32] == good[at]);
    } else {
        lemma_u256_bytes_roundtrip(good.subrange(64, 96));
        lemma_u256_bytes_roundtrip(bad.subrange(64, 96));
        assert(bad.subrange(64, 96)[at - 64] == byte);
        assert(good.subrange(64, 96)[at - 64] == good[at]);
        assert(other.nonce != seal.nonce);
        assert(bad.subrange(32, 64) =~= good.subrange(32, 64));
    }
}

} // verus!
