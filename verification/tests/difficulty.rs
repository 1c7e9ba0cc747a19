use ethash_pow::error::Error;
use ethash_pow::h256::H256;
use ethash_pow::pow::{
    EthashAlgorithm, MinimalEthashAlgorithm, DIFFICULTY_BOUND_DIVISOR, DURATION_LIMIT,
    MINIMUM_DIFFICULTY,
};
use ethash_pow::types::{Header, WorkSeal};
use ethash_pow::u256::U256;

fn sealed(number: u64, difficulty: U256, timestamp: u64) -> Header {
    let seal = WorkSeal {
        nonce: U256::from_u64(1),
        pow_hash: H256 { bytes: [1; 32] },
        mix_digest: H256 { bytes: [2; 32] },
        header_nr: number,
        difficulty,
        timestamp,
    };
    Header { number, seal: Some(seal.encode()) }
}

#[test]
fn the_parameters_are_the_protocols() {
    let alg = EthashAlgorithm::new();
    assert_eq!(alg.minimum_difficulty(), U256::from_u64(1_000_000));
    assert_eq!(alg.difficulty_bound_divisor(), U256::from_u64(2048));
    assert_eq!(alg.duration_limit(), 13);
    assert_eq!(MINIMUM_DIFFICULTY, 1_000_000);
    assert_eq!(DIFFICULTY_BOUND_DIVISOR, 2048);
    assert_eq!(DURATION_LIMIT, 13);
}

#[test]
fn a_quick_block_tightens_the_target() {
    let alg = EthashAlgorithm::new();
    let d = U256::from_u64(2_048_000);
    assert_eq!(alg.next_difficulty(d, 1000, 1000), U256::from_u64(2_049_000));
    assert_eq!(alg.next_difficulty(d, 1000, 1012), U256::from_u64(2_049_000));
}

#[test]
fn a_slow_block_loosens_the_target() {
    let alg = EthashAlgorithm::new();
    let d = U256::from_u64(2_048_000);
    assert_eq!(alg.next_difficulty(d, 1000, 1014), U256::from_u64(2_047_000));
    assert_eq!(alg.next_difficulty(d, 1000, u64::MAX), U256::from_u64(2_047_000));
}

#[test]
fn the_duration_limit_itself_loosens() {
    let alg = EthashAlgorithm::new();
    let d = U256::from_u64(2_048_000);
    assert_eq!(alg.next_difficulty(d, 1000, 1013), U256::from_u64(2_047_000));
    assert_eq!(alg.next_difficulty(d, 0, 13), U256::from_u64(2_047_000));
    assert_eq!(alg.next_difficulty(d, 0, 12), U256::from_u64(2_049_000));
}

#[test]
fn a_clock_behind_the_parent_tightens() {
    let alg = EthashAlgorithm::new();
    let d = U256::from_u64(2_048_000);
    assert_eq!(alg.next_difficulty(d, 1000, 0), U256::from_u64(2_049_000));
    assert_eq!(alg.next_difficulty(d, u64::MAX, 5), U256::from_u64(2_049_000));
}

#[test]
fn the_target_never_falls_below_the_minimum() {
    let alg = EthashAlgorithm::new();
    let min = U256::from_u64(1_000_000);
    assert_eq!(alg.next_difficulty(min, 0, 100), min);
    assert_eq!(alg.next_difficulty(min, 0, 1), U256::from_u64(1_000_488));
    assert_eq!(alg.next_difficulty(U256::zero(), 0, 1), min);
    assert_eq!(alg.next_difficulty(U256::from_u64(5), 0, 100), min);
}

#[test]
fn the_target_never_rises_with_time() {
    let alg = EthashAlgorithm::new();
    for d in [0u64, 1, 2047, 2048, 999_999, 1_000_000, 1_000_488, 123_456_789_012] {
        let d = U256::from_u64(d);
        let mut last = alg.next_difficulty(d, 50, 0);
        for now in 0..120u64 {
            let next = alg.next_difficulty(d, 50, now);
            assert!(!last.lt(&next));
            assert!(!next.lt(&U256::from_u64(1_000_000)));
            last = next;
        }
    }
}

#[test]
fn the_step_is_a_floor_division_on_256_bits() {
    let alg = EthashAlgorithm::new();
    let d = U256 { w0: 0x4674_edea_4000_0000, w1: 0xc_9f2c_9cd0, w2: 0, w3: 0 };
    assert_eq!(
        alg.next_difficulty(d, 0, 13),
        U256 { w0: 0xac6c_1f4c_82b8_0000, w1: 0xc_9d98_b73c, w2: 0, w3: 0 }
    );
    assert_eq!(
        alg.next_difficulty(d, 0, 0),
        U256 { w0: 0xe07d_bc87_fd48_0000, w1: 0xc_a0c0_8263, w2: 0, w3: 0 }
    );
    assert_eq!(alg.next_difficulty(U256::from_u64(2_049_999), 0, 0), U256::from_u64(2_050_999));
}

#[test]
fn the_target_stays_within_256_bits() {
    let alg = EthashAlgorithm::new();
    assert_eq!(alg.next_difficulty(U256::max_value(), 0, 0), U256::max_value());
    assert_eq!(
        alg.next_difficulty(U256::max_value(), 0, 13),
        U256 { w0: 0, w1: 0, w2: 0, w3: 0xffe0_0000_0000_0000 }
    );
}

#[test]
fn calc_difficulty_reads_the_parent_seal() {
    let alg = EthashAlgorithm::new();
    let parent = sealed(7, U256::from_u64(2_048_000), 1000);
    assert_eq!(alg.calc_difficulty(Some(&parent), 1005), Ok(U256::from_u64(2_049_000)));
    assert_eq!(alg.calc_difficulty(Some(&parent), 1013), Ok(U256::from_u64(2_047_000)));
}

#[test]
fn calc_difficulty_starts_from_the_minimum() {
    let alg = EthashAlgorithm::new();
    assert_eq!(alg.calc_difficulty(None, 5), Ok(U256::from_u64(1_000_000)));
    let genesis = Header { number: 0, seal: None };
    assert_eq!(alg.calc_difficulty(Some(&genesis), 5), Ok(U256::from_u64(1_000_000)));
}

#[test]
fn calc_difficulty_fails_on_a_bad_parent() {
    let alg = EthashAlgorithm::new();
    let unsealed = Header { number: 3, seal: None };
    assert_eq!(alg.calc_difficulty(Some(&unsealed), 5), Err(Error::HeaderUnsealed));
    let garbled = Header { number: 3, seal: Some(vec![1, 2, 3]) };
    assert_eq!(alg.calc_difficulty(Some(&garbled), 5), Err(Error::DecodeFailure));
    let garbled_genesis = Header { number: 0, seal: Some(vec![0u8; 143]) };
    assert_eq!(alg.calc_difficulty(Some(&garbled_genesis), 5), Err(Error::DecodeFailure));
}

#[test]
fn difficulty_is_the_one_recorded_in_the_seal() {
    let alg = EthashAlgorithm::new();
    let d = U256 { w0: 1, w1: 2, w2: 3, w3: 4 };
    assert_eq!(alg.difficulty(Some(&sealed(9, d, 77))), Ok(d));
    assert_eq!(alg.difficulty(Some(&sealed(0, d, 77))), Ok(d));
}

#[test]
fn difficulty_of_genesis_is_the_minimum() {
    let alg = EthashAlgorithm::new();
    let genesis = Header { number: 0, seal: None };
    assert_eq!(alg.difficulty(Some(&genesis)), Ok(U256::from_u64(1_000_000)));
}

#[test]
fn difficulty_fails_without_header_or_seal() {
    let alg = EthashAlgorithm::new();
    assert_eq!(alg.difficulty(None), Err(Error::HeaderNotFound));
    let unsealed = Header { number: 1, seal: None };
    assert_eq!(alg.difficulty(Some(&unsealed)), Err(Error::HeaderUnsealed));
    let garbled = Header { number: 1, seal: Some(vec![0u8; 10]) };
    assert_eq!(alg.difficulty(Some(&garbled)), Err(Error::DecodeFailure));
}

#[test]
fn the_minimal_algorithm_has_a_fixed_difficulty() {
    let alg = MinimalEthashAlgorithm::new();
    let parent = H256 { bytes: [3; 32] };
    assert_eq!(alg.difficulty(&parent), Ok(U256::from_u64(1_000_000)));
    assert_eq!(alg.calc_difficulty(&parent), Ok(U256::from_u64(1_000_000)));
    assert_eq!(alg.calc_difficulty(&H256::zero()), Ok(U256::from_u64(1_000_000)));
}
