use cashback::u64_to_be_bytes;

#[test]
fn be_bytes_exact_values() {
    assert_eq!(u64_to_be_bytes(0), vec![0u8; 8]);
    assert_eq!(u64_to_be_bytes(1), vec![0, 0, 0, 0, 0, 0, 0, 1]);
    assert_eq!(
        u64_to_be_bytes(0x0102_0304_0506_0708),
        vec![1, 2, 3, 4, 5, 6, 7, 8]
    );
    assert_eq!(u64_to_be_bytes(u64::MAX), vec![255u8; 8]);
}

#[test]
fn be_bytes_matches_std() {
    for x in [0u64, 1, 2, 255, 256, 65_535, 1 << 32, u64::MAX - 1, u64::MAX] {
        assert_eq!(u64_to_be_bytes(x), x.to_be_bytes().to_vec());
    }
}
