use tip_hash::field::{Felt, MODULUS};
use tip_hash::sponge::{chunk_element, count_chunks};

#[test]
fn chunk_counts() {
    let bytes = [0u8; 22];
    let expected = [0usize, 1, 1, 1, 1, 1, 1, 1, 2, 2, 2, 2, 2, 2, 2, 3, 3, 3, 3, 3, 3, 3, 4];
    for len in 0..=22 {
        assert_eq!(count_chunks(&bytes[..len]), expected[len]);
    }
}

#[test]
fn full_last_chunk_is_padded_at_offset_seven() {
    let bytes = [1u8, 2, 3, 4, 5, 6, 7];
    assert_eq!(chunk_element(&bytes, 0), Felt::new(0x0107_0605_0403_0201));
}

#[test]
fn inner_chunks_are_not_padded() {
    let bytes = [1u8, 2, 3, 4, 5, 6, 7, 8];
    assert_eq!(chunk_element(&bytes, 0), Felt::new(0x0007_0605_0403_0201));
    assert_eq!(chunk_element(&bytes, 1), Felt::new(0x0108));
}

#[test]
fn short_last_chunk_is_padded_after_its_bytes() {
    assert_eq!(chunk_element(&[0xff, 0, 0], 0), Felt::new(0x0100_00ff));
    assert_eq!(chunk_element(&[0], 0), Felt::new(0x0100));
    assert_eq!(chunk_element(&[0, 0], 0), Felt::new(0x01_0000));
    assert_eq!(chunk_element(&[9; 14], 1), Felt::new(0x0109_0909_0909_0909));
}

#[test]
fn chunks_stay_below_the_modulus() {
    let bytes = [0xffu8; 21];
    for k in 0..3 {
        let e = chunk_element(&bytes, k);
        assert!(e.value < MODULUS);
        assert!(e.value < 1 << 57);
    }
    assert_eq!(chunk_element(&bytes, 0).value, 0x00ff_ffff_ffff_ffff);
    assert_eq!(chunk_element(&bytes, 2).value, 0x01ff_ffff_ffff_ffff);
}
