use ethash_pow::h256::H256;
use ethash_pow::u256::U256;

#[test]
fn from_u64_fills_the_lowest_limb() {
    assert_eq!(U256::from_u64(7), U256 { w0: 7, w1: 0, w2: 0, w3: 0 });
    assert_eq!(U256::zero(), U256::from_u64(0));
    assert_eq!(U256::max_value(), U256 { w0: u64::MAX, w1: u64::MAX, w2: u64::MAX, w3: u64::MAX });
}

#[test]
fn to_u64_gives_the_value_where_it_fits() {
    assert_eq!(U256::from_u64(u64::MAX).to_u64(), Some(u64::MAX));
    assert_eq!(U256::zero().to_u64(), Some(0));
    assert_eq!(U256 { w0: 0, w1: 1, w2: 0, w3: 0 }.to_u64(), None);
    assert_eq!(U256 { w0: 5, w1: 0, w2: 0, w3: 1 }.to_u64(), None);
}

#[test]
fn lt_orders_by_the_highest_limb_that_differs() {
    let small = U256 { w0: u64::MAX, w1: u64::MAX, w2: u64::MAX, w3: 0 };
    let large = U256 { w0: 0, w1: 0, w2: 0, w3: 1 };
    assert!(small.lt(&large));
    assert!(!large.lt(&small));
    assert!(!small.lt(&small));
    assert!(U256::from_u64(1).lt(&U256::from_u64(2)));
    assert!(U256 { w0: 9, w1: 1, w2: 0, w3: 0 }.lt(&U256 { w0: 0, w1: 2, w2: 0, w3: 0 }));
}

#[test]
fn max_picks_the_larger() {
    let a = U256::from_u64(3);
    let b = U256 { w0: 0, w1: 0, w2: 1, w3: 0 };
    assert_eq!(a.max(b), b);
    assert_eq!(b.max(a), b);
    assert_eq!(a.max(a), a);
}

#[test]
fn a_hash_is_read_most_significant_byte_first() {
    let mut bytes = [0u8; 32];
    bytes[31] = 1;
    assert_eq!(H256 { bytes }.to_u256(), U256::from_u64(1));
    let mut bytes = [0u8; 32];
    bytes[0] = 0x80;
    assert_eq!(H256 { bytes }.to_u256(), U256 { w0: 0, w1: 0, w2: 0, w3: 0x8000_0000_0000_0000 });
    let bytes: [u8; 32] = core::array::from_fn(|i| i as u8);
    assert_eq!(
        H256 { bytes }.to_u256(),
        U256 {
            w0: 0x1819_1a1b_1c1d_1e1f,
            w1: 0x1011_1213_1415_1617,
            w2: 0x0809_0a0b_0c0d_0e0f,
            w3: 0x0001_0203_0405_0607,
        }
    );
}

#[test]
fn hashes_are_compared_byte_by_byte() {
    let a = H256 { bytes: [4; 32] };
    let mut b = a;
    assert!(a.same(&b));
    b.bytes[17] = 5;
    assert!(!a.same(&b));
    assert_eq!(H256::zero().bytes, [0u8; 32]);
}
