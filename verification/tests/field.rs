use tip_hash::field::{mont_reduce, Felt, MODULUS, MONT_R, MONT_R_INV};
use winter_math::fields::f64::BaseElement;

fn samples() -> Vec<u64> {
    let mut out = vec![
        0,
        1,
        2,
        7,
        255,
        256,
        0xffff_ffff,
        0x1_0000_0000,
        MODULUS - 2,
        MODULUS - 1,
        MODULUS,
        MODULUS + 1,
        u64::MAX - 1,
        u64::MAX,
    ];
    let mut x: u64 = 0x9e37_79b9_7f4a_7c15;
    for _ in 0..40 {
        x = x.wrapping_mul(6364136223846793005).wrapping_add(1442695040888963407);
        out.push(x);
    }
    out
}

#[test]
fn field_constants() {
    assert_eq!(MODULUS, 18446744069414584321);
    assert_eq!(MONT_R as u128, (1u128 << 64) % (MODULUS as u128));
    assert_eq!((MONT_R as u128 * MONT_R_INV as u128) % (MODULUS as u128), 1);
    assert_eq!(Felt::zero(), Felt::new(0));
    assert_eq!(Felt::one(), Felt::new(1));
}

#[test]
fn field_new_reduces() {
    assert_eq!(Felt::new(MODULUS).value, 0);
    assert_eq!(Felt::new(MODULUS + 5).value, 5);
    assert_eq!(Felt::new(u64::MAX).value, 0xffff_fffe);
    assert_eq!(Felt::new(MODULUS - 1).value, MODULUS - 1);
    assert_eq!(Felt::new(12345).as_int(), 12345);
    assert_eq!(Felt { value: MODULUS + 3 }.as_int(), 3);
}

#[test]
fn field_exact_values() {
    assert_eq!(Felt::new(5).inner(), 21474836475);
    assert_eq!(Felt::from_mont(5).value, 18446744047939747841);
    assert_eq!(Felt::new(3).exp7().value, 2187);
    assert_eq!(Felt::new(MODULUS - 1).exp7().value, MODULUS - 1);
    assert_eq!(mont_reduce(1u128 << 100), 68719476736);
    assert_eq!(Felt::new(0).sub(Felt::new(1)).value, MODULUS - 1);
    assert_eq!(Felt::new(MODULUS - 1).add(Felt::new(1)).value, 0);
    assert_eq!(Felt::new(MODULUS - 1).mul(Felt::new(MODULUS - 1)).value, 1);
    assert_eq!(Felt::new(1 << 32).mul(Felt::new(1 << 32)).value, 0xffff_ffff);
    assert_eq!(Felt::new(10).sub(Felt::new(3)).value, 7);
    assert_eq!(Felt::new(3).sub(Felt::new(10)).value, MODULUS - 7);
}

#[test]
fn field_montgomery_round_trip() {
    for v in samples() {
        let x = Felt::new(v);
        assert_eq!(Felt::from_mont(x.inner()), x);
        assert!(x.inner() < MODULUS);
    }
}

#[test]
fn field_conversions_agree_with_winter_math() {
    for v in samples() {
        let mine = Felt::new(v);
        let theirs = BaseElement::new(v);
        assert_eq!(mine.as_int(), theirs.as_int());
        assert_eq!(mine.inner(), theirs.inner());
        if v < MODULUS {
            assert_eq!(Felt::from_mont(v).as_int(), BaseElement::from_mont(v).as_int());
        }
    }
}

#[test]
fn field_arithmetic_agrees_with_winter_math() {
    let values = samples();
    for &a in values.iter() {
        for &b in values.iter() {
            let (x, y) = (Felt::new(a), Felt::new(b));
            let (p, q) = (BaseElement::new(a), BaseElement::new(b));
            assert_eq!(x.add(y).as_int(), (p + q).as_int());
            assert_eq!(x.sub(y).as_int(), (p - q).as_int());
            assert_eq!(x.mul(y).as_int(), (p * q).as_int());
            assert_eq!(x.add(y).inner(), (p + q).inner());
            assert_eq!(x.mul(y).inner(), (p * q).inner());
        }
        assert_eq!(Felt::new(a).exp7().as_int(), BaseElement::new(a).exp7().as_int());
    }
}

#[test]
fn montgomery_reduction_agrees_with_winter_math() {
    let values = samples();
    for &a in values.iter() {
        for &b in values.iter() {
            let (a, b) = (a % MODULUS, b % MODULUS);
            let product = (BaseElement::from_mont(a) * BaseElement::from_mont(b)).inner();
            assert_eq!(mont_reduce(a as u128 * b as u128), product);
        }
    }
}

#[test]
fn field_operations_accept_unreduced_values() {
    let a = Felt { value: u64::MAX };
    let b = Felt { value: MODULUS + 1 };
    assert_eq!(a.add(b), Felt::new(u64::MAX).add(Felt::new(1)));
    assert_eq!(a.sub(b), Felt::new(u64::MAX).sub(Felt::new(1)));
    assert_eq!(a.mul(b), Felt::new(u64::MAX));
    assert_eq!(b.exp7(), Felt::new(1));
    assert_eq!(a.inner(), Felt::new(u64::MAX).inner());
}
