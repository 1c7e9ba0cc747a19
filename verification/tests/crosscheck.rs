use ethash_pow::h256::H256;
use ethash_pow::mining::get_work;
use ethash_pow::pow::{difficulty_to_boundary, hash_meets_difficulty, EthashAlgorithm};
use ethash_pow::u256::U256;
use ethash_pow::worker::MiningMetadata;

struct Lcg(u64);

impl Lcg {
    fn next(&mut self) -> u64 {
        self.0 = self.0.wrapping_mul(6364136223846793005).wrapping_add(1442695040888963407);
        self.0 ^ (self.0 >> 29)
    }

    fn limb(&mut self) -> u64 {
        match self.next() % 4 {
            0 => 0,
            1 => u64::MAX,
            2 => self.next() >> (self.next() % 64),
            _ => self.next(),
        }
    }

    fn u256(&mut self) -> U256 {
        U256 { w0: self.limb(), w1: self.limb(), w2: self.limb(), w3: self.limb() }
    }
}

fn out(x: U256) -> ethereum_types::U256 {
    ethereum_types::U256([x.w0, x.w1, x.w2, x.w3])
}

fn hash_of(x: U256) -> H256 {
    let mut bytes = [0u8; 32];
    out(x).to_big_endian(&mut bytes);
    H256 { bytes }
}

#[test]
fn the_order_is_that_of_the_numbers() {
    let mut rng = Lcg(1);
    for _ in 0..2000 {
        let (a, b) = (rng.u256(), rng.u256());
        assert_eq!(a.lt(&b), out(a) < out(b));
        assert_eq!(out(a.max(b)), std::cmp::max(out(a), out(b)));
    }
}

#[test]
fn a_hash_is_the_big_endian_number() {
    let mut rng = Lcg(2);
    for _ in 0..500 {
        let x = rng.u256();
        assert_eq!(hash_of(x).to_u256(), x);
    }
}

#[test]
fn meeting_a_difficulty_is_a_product_within_256_bits() {
    let mut rng = Lcg(3);
    let mut met = 0;
    for _ in 0..4000 {
        let (h, d) = (rng.u256(), rng.u256());
        let fits = out(h).checked_mul(out(d)).is_some();
        assert_eq!(hash_meets_difficulty(&hash_of(h), d), fits);
        if fits {
            met += 1;
        }
    }
    assert!(met > 0 && met < 4000);
}

#[test]
fn retargeting_is_the_rule_on_256_bits() {
    let alg = EthashAlgorithm::new();
    let mut rng = Lcg(4);
    let min = ethereum_types::U256::from(1_000_000u64);
    for _ in 0..2000 {
        let d = rng.u256();
        let parent = rng.next() % 100;
        let now = rng.next() % 100;
        let step = out(d) / ethereum_types::U256::from(2048u64);
        let target = if now >= parent && now - parent >= 13 {
            out(d) - step
        } else {
            out(d).saturating_add(step)
        };
        assert_eq!(out(alg.next_difficulty(d, parent, now)), std::cmp::max(min, target));
    }
}

#[test]
fn the_target_is_the_quotient_of_the_largest_number() {
    let mut rng = Lcg(5);
    for _ in 0..1000 {
        let d = rng.u256();
        let metadata = MiningMetadata { number: 1, pre_hash: H256::zero(), difficulty: d };
        let target = out(get_work(Some(metadata)).unwrap().target);
        assert_eq!(out(difficulty_to_boundary(d)), target);
        if out(d).is_zero() {
            assert_eq!(target, ethereum_types::U256::max_value());
        } else {
            assert_eq!(target, ethereum_types::U256::max_value() / out(d));
        }
    }
}

#[test]
fn a_value_meets_a_difficulty_where_it_is_under_the_target() {
    let mut rng = Lcg(6);
    for _ in 0..2000 {
        let (v, d) = (rng.u256(), rng.u256());
        let target = difficulty_to_boundary(d);
        assert_eq!(hash_meets_difficulty(&hash_of(v), d), !target.lt(&v));
        assert!(hash_meets_difficulty(&hash_of(target), d));
    }
}
