use aes_bench::sizes::{
    padded_capacity, sealed_fits, BLOCK_SIZE, KEY_SIZE, MAX_SEALED_MESSAGE, NONCE_SIZE, TAG_SIZE,
};

#[test]
fn sizes_are_those_of_aes_128() {
    assert_eq!(BLOCK_SIZE, 16);
    assert_eq!(KEY_SIZE, 16);
    assert_eq!(NONCE_SIZE, 16);
    assert_eq!(TAG_SIZE, 16);
    assert_eq!(MAX_SEALED_MESSAGE, 1u64 << 36);
}

#[test]
fn padded_capacity_is_the_next_boundary() {
    assert_eq!(padded_capacity(0), Some(16));
    assert_eq!(padded_capacity(1), Some(16));
    assert_eq!(padded_capacity(15), Some(16));
    assert_eq!(padded_capacity(16), Some(32));
    assert_eq!(padded_capacity(31), Some(32));
    assert_eq!(padded_capacity(32), Some(48));
    assert_eq!(padded_capacity(35), Some(48));
    assert_eq!(padded_capacity(37), Some(48));
    assert_eq!(padded_capacity(47), Some(48));
    assert_eq!(padded_capacity(48), Some(64));
    for len in 0usize..500 {
        let cap = padded_capacity(len).unwrap();
        assert_eq!(cap % 16, 0);
        assert!(len < cap && cap <= len + 16);
    }
}

#[test]
fn padded_capacity_ends_where_allocation_does() {
    let longest = isize::MAX as usize;
    assert_eq!(padded_capacity(longest - 16), Some(longest - 15));
    assert_eq!(padded_capacity(longest - 31), Some(longest - 15));
    assert_eq!(padded_capacity(longest - 32), Some(longest - 31));
    assert_eq!(padded_capacity(longest - 15), None);
    assert_eq!(padded_capacity(longest), None);
    assert_eq!(padded_capacity(usize::MAX - 16), None);
    assert_eq!(padded_capacity(usize::MAX), None);
}

#[test]
fn sealed_fits_up_to_the_longest_vector() {
    assert!(sealed_fits(0));
    assert!(sealed_fits(37));
    assert!(sealed_fits(isize::MAX as usize - 16));
    assert!(!sealed_fits(isize::MAX as usize - 15));
    assert!(!sealed_fits(usize::MAX));
}
