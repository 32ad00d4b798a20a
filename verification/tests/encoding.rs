use continuum_cp_swap::encoding::{append, encode_u64};

#[test]
fn numbers_are_encoded_least_significant_byte_first() {
    assert_eq!(encode_u64(0), vec![0; 8]);
    assert_eq!(encode_u64(1), vec![1, 0, 0, 0, 0, 0, 0, 0]);
    assert_eq!(encode_u64(1000), vec![232, 3, 0, 0, 0, 0, 0, 0]);
    assert_eq!(encode_u64(0x0102030405060708), vec![8, 7, 6, 5, 4, 3, 2, 1]);
    assert_eq!(encode_u64(u64::MAX), vec![255; 8]);
    assert_eq!(encode_u64(1 << 56), vec![0, 0, 0, 0, 0, 0, 0, 1]);
}

#[test]
fn append_keeps_what_was_there() {
    let mut out = vec![1u8, 2];
    append(&mut out, &[3, 4, 5]);
    assert_eq!(out, vec![1, 2, 3, 4, 5]);
    append(&mut out, &[]);
    assert_eq!(out, vec![1, 2, 3, 4, 5]);
}
