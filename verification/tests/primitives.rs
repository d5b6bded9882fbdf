use erc20_app::{RawOrigin, H160, U256};

#[test]
fn u256_round_trips_u128() {
    for x in [0u128, 1, u64::MAX as u128, u64::MAX as u128 + 1, 12345678901234567890123456789, u128::MAX] {
        assert_eq!(U256::from_u128(x).as_u128(), x);
    }
}

#[test]
fn u256_words_match_sp_core() {
    for x in [0u128, 7, u64::MAX as u128 + 5, u128::MAX - 3] {
        let ours = U256::from_u128(x);
        let theirs = sp_core::U256::from(x);
        assert_eq!(ours.words, theirs.0);
        assert_eq!(ours.as_u128(), theirs.as_u128());
    }
    let theirs = sp_core::U256([3, 9, 0, 0]);
    assert_eq!(U256 { words: [3, 9, 0, 0] }.as_u128(), theirs.as_u128());
    assert_eq!(U256 { words: [3, 9, 0, 0] }.as_u128(), 9 * (1u128 << 64) + 3);
}

#[test]
fn h160_compares_bytes() {
    let a = H160::from_bytes([1; 20]);
    let mut bytes = [1u8; 20];
    bytes[19] = 2;
    let b = H160::from_bytes(bytes);
    assert!(a.same_as(&a));
    assert!(!a.same_as(&b));
    assert!(H160::zero().same_as(&H160::from_bytes([0; 20])));
    assert_eq!(sp_core::H160::from(bytes).0, b.bytes);
}

#[test]
fn raw_origin_matches_frame_system() {
    let ours: RawOrigin<u64> = RawOrigin::Signed(5);
    let theirs: frame_system::RawOrigin<u64> = frame_system::RawOrigin::Signed(5);
    assert_eq!(matches!(ours, RawOrigin::Signed(5)), matches!(theirs, frame_system::RawOrigin::Signed(5)));
}
