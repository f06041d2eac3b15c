use tip_hash::field::{Felt, MODULUS};
use tip_hash::sbox::{apply_split_and_lookup, word_from_le_bytes, word_to_le_bytes, LOOKUP_TABLE};
use winter_math::fields::f64::BaseElement;

fn with_winter_math(value: u64) -> u64 {
    let mut bytes = BaseElement::new(value).inner().to_le_bytes();
    for b in bytes.iter_mut() {
        *b = LOOKUP_TABLE[*b as usize];
    }
    BaseElement::from_mont(u64::from_le_bytes(bytes)).as_int()
}

#[test]
fn words_and_bytes() {
    for w in [0u64, 1, 0x0102_0304_0506_0708, u64::MAX, MODULUS, 0x8000_0000_0000_0000] {
        assert_eq!(word_to_le_bytes(w), w.to_le_bytes());
        assert_eq!(word_from_le_bytes(&w.to_le_bytes()), w);
    }
    assert_eq!(word_to_le_bytes(0x0102_0304_0506_0708), [8, 7, 6, 5, 4, 3, 2, 1]);
    assert_eq!(word_from_le_bytes(&[1, 0, 0, 0, 0, 0, 0, 1]), 0x0100_0000_0000_0001);
}

#[test]
fn split_and_lookup_exact() {
    assert_eq!(apply_split_and_lookup(Felt::new(0)).value, 0);
    assert_eq!(apply_split_and_lookup(Felt::new(1)).value, 1);
    assert_eq!(apply_split_and_lookup(Felt::new(12345)).value, 51097);
    assert_eq!(apply_split_and_lookup(Felt::new(MODULUS - 1)).value, 18446743992105172986);
}

#[test]
fn split_and_lookup_agrees_with_winter_math() {
    let mut x: u64 = 1;
    for _ in 0..500 {
        x = x.wrapping_mul(6364136223846793005).wrapping_add(1442695040888963407);
        let got = apply_split_and_lookup(Felt::new(x));
        assert!(got.value < MODULUS);
        assert_eq!(got.value, with_winter_math(x));
    }
}

#[test]
fn split_and_lookup_reads_the_element() {
    let unreduced = Felt { value: MODULUS + 12345 };
    assert_eq!(apply_split_and_lookup(unreduced), apply_split_and_lookup(Felt::new(12345)));
}

#[test]
fn split_and_lookup_on_the_largest_word() {
    // 2^32 has the largest Montgomery word, p - 1, whose bytes the substitution keeps
    let x = Felt::new(1 << 32);
    assert_eq!(x.inner(), MODULUS - 1);
    assert_eq!(apply_split_and_lookup(x), x);
    assert_eq!(with_winter_math(1 << 32), 1 << 32);
}

#[test]
fn split_and_lookup_substitutes_the_montgomery_word() {
    let mut x: u64 = 3;
    for _ in 0..500 {
        x = x.wrapping_mul(6364136223846793005).wrapping_add(1442695040888963407);
        let element = Felt::new(x);
        let mut bytes = element.inner().to_le_bytes();
        for b in bytes.iter_mut() {
            *b = LOOKUP_TABLE[*b as usize];
        }
        assert_eq!(apply_split_and_lookup(element).inner(), u64::from_le_bytes(bytes));
    }
}
