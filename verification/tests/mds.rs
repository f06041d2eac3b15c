use tip_hash::field::{Felt, MODULUS};
use tip_hash::mds::mds_12x12;
use tip_hash::mds::mds_12x12::MDS_12X12;
use tip_hash::mds::mds_16x16;
use tip_hash::mds::mds_16x16::{
    intt_noswap, ntt_noswap, MDS_16X16, POWERS_OF_OMEGA_BITREVERSED, POWERS_OF_OMEGA_INVERSE, SHIFTS,
};
use winter_math::fields::f64::BaseElement;
use winter_math::FieldElement;

fn next(x: &mut u64) -> u64 {
    *x = x.wrapping_mul(6364136223846793005).wrapping_add(1442695040888963407);
    *x
}

fn naive_16(state: &[Felt; 16]) -> Vec<u64> {
    let mut out = Vec::new();
    for row in MDS_16X16.iter() {
        let mut acc = BaseElement::ZERO;
        for (m, s) in row.iter().zip(state.iter()) {
            acc += BaseElement::new(*m) * BaseElement::new(s.value);
        }
        out.push(acc.as_int());
    }
    out
}

fn naive_12(state: &[Felt; 12]) -> Vec<u64> {
    let mut out = Vec::new();
    for row in MDS_12X12.iter() {
        let mut acc = BaseElement::ZERO;
        for (m, s) in row.iter().zip(state.iter()) {
            acc += BaseElement::new(*m) * BaseElement::new(s.value);
        }
        out.push(acc.as_int());
    }
    out
}

#[test]
fn mds_16_transform_equals_row_by_row_product() {
    let mut seed: u64 = 42;
    for _ in 0..300 {
        let mut state = [Felt::zero(); 16];
        for s in state.iter_mut() {
            *s = Felt::new(next(&mut seed));
        }
        let expected = naive_16(&state);
        mds_16x16::mds_multiply(&mut state);
        let got: Vec<u64> = state.iter().map(|e| e.value).collect();
        assert_eq!(expected, got);
    }
}

#[test]
fn mds_16_on_edge_states() {
    for fill in [0u64, 1, MODULUS - 1] {
        let mut state = [Felt::new(fill); 16];
        let expected = naive_16(&state);
        mds_16x16::mds_multiply(&mut state);
        let got: Vec<u64> = state.iter().map(|e| e.value).collect();
        assert_eq!(expected, got);
    }
    let mut unreduced = [Felt { value: u64::MAX }; 16];
    let mut reduced = [Felt::new(u64::MAX); 16];
    mds_16x16::mds_multiply(&mut unreduced);
    mds_16x16::mds_multiply(&mut reduced);
    assert_eq!(unreduced, reduced);
}

#[test]
fn mds_16_unit_vectors_give_columns() {
    for j in 0..16 {
        let mut state = [Felt::zero(); 16];
        state[j] = Felt::one();
        mds_16x16::mds_multiply(&mut state);
        for i in 0..16 {
            assert_eq!(state[i].value, MDS_16X16[i][j]);
        }
    }
}

#[test]
fn mds_16_exact() {
    let mut state = [Felt::zero(); 16];
    for (i, s) in state.iter_mut().enumerate() {
        *s = Felt::new(i as u64);
    }
    mds_16x16::mds_multiply(&mut state);
    let got: Vec<u64> = state.iter().map(|e| e.value).collect();
    assert_eq!(
        got,
        vec![
            13984986367398878042,
            15084957444964956494,
            16926928193723787595,
            7747963065214539087,
            7959622420766496079,
            6766734638657180297,
            3771839383109038727,
            13032099928699630750,
            13032104739063002270,
            14165918784632673966,
            11396203489194550961,
            2200481803008203451,
            1988802793685899963,
            803789714861350269,
            4726423469774830975,
            13984964377166322522,
        ]
    );
}

#[test]
fn ntt_noswap_exact() {
    let mut state = [Felt::zero(); 16];
    for (i, s) in state.iter_mut().enumerate() {
        *s = Felt::new(i as u64);
    }
    ntt_noswap(&mut state);
    let got: Vec<u64> = state.iter().map(|e| e.value).collect();
    assert_eq!(
        got,
        vec![
            120,
            18446744069414584313,
            18444492269600899065,
            2251799813685240,
            18444501065828136953,
            18444483473373661177,
            2260596040923128,
            2243003586447352,
            9185100786013534200,
            9257157276228155385,
            9185082089752463353,
            9257140787580274680,
            9189603281834309625,
            9261661979662120952,
            9189586793186428920,
            9261643283401050105,
        ]
    );
}

#[test]
fn intt_noswap_exact() {
    let mut state = [Felt::zero(); 16];
    for (i, s) in state.iter_mut().enumerate() {
        *s = Felt::new(i as u64);
    }
    intt_noswap(&mut state);
    let got: Vec<u64> = state.iter().map(|e| e.value).collect();
    assert_eq!(
        got,
        vec![
            120,
            17298606471162892544,
            1121501793223676,
            1157142598447534335,
            4503599627370480,
            1157707747457765119,
            18445613771394122749,
            17298045720266280704,
            18446744069414584257,
            1148698349148303615,
            1130298020461564,
            17289036321956819200,
            18442240469787213809,
            17289601470967049984,
            18445622567621360637,
            1148137598251691775,
        ]
    );
}

#[test]
fn transforms_undo_each_other_up_to_sixteen() {
    let mut seed: u64 = 7;
    let mut state = [Felt::zero(); 16];
    for s in state.iter_mut() {
        *s = Felt::new(next(&mut seed));
    }
    let input = state;
    ntt_noswap(&mut state);
    intt_noswap(&mut state);
    for (a, b) in state.iter().zip(input.iter()) {
        assert_eq!(*a, b.mul(Felt::new(16)));
    }
}

#[test]
fn transform_tables() {
    assert_eq!(SHIFTS, [4, 1, 4, 3, 3, 7, 0, 5, 1, 5, 0, 2, 6, 2, 4, 1]);
    assert_eq!(POWERS_OF_OMEGA_BITREVERSED[0], 1);
    assert_eq!(POWERS_OF_OMEGA_INVERSE[0], 1);
    // entry 4 of the bit-reversed table is the primitive 16th root of unity
    let omega = Felt::new(POWERS_OF_OMEGA_BITREVERSED[4]);
    let mut power = Felt::one();
    for k in 1..=16 {
        power = power.mul(omega);
        assert_eq!(power == Felt::one(), k == 16);
    }
    // the inverse table holds the powers of its inverse, in order
    let inverse = Felt::new(POWERS_OF_OMEGA_INVERSE[1]);
    assert_eq!(omega.mul(inverse), Felt::one());
    let mut power = Felt::one();
    for k in 0..8 {
        assert_eq!(power, Felt::new(POWERS_OF_OMEGA_INVERSE[k]));
        power = power.mul(inverse);
    }
}

#[test]
fn mds_12_agrees_with_winter_math() {
    let mut seed: u64 = 99;
    for _ in 0..300 {
        let mut state = [Felt::zero(); 12];
        for s in state.iter_mut() {
            *s = Felt::new(next(&mut seed));
        }
        let expected = naive_12(&state);
        mds_12x12::mds_multiply(&mut state);
        let got: Vec<u64> = state.iter().map(|e| e.value).collect();
        assert_eq!(expected, got);
    }
}

#[test]
fn mds_12_exact() {
    let mut state = [Felt::zero(); 12];
    for (i, s) in state.iter_mut().enumerate() {
        *s = Felt::new(i as u64);
    }
    mds_12x12::mds_multiply(&mut state);
    let got: Vec<u64> = state.iter().map(|e| e.value).collect();
    assert_eq!(got, vec![866, 930, 838, 734, 822, 898, 950, 990, 994, 842, 906, 790]);
}
