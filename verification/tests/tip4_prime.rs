use tip_hash::field::{Felt, MODULUS};
use tip_hash::tip::tip4_prime::{ElementDigest, ARK, DIGEST_SIZE, NUM_ROUNDS, RATE_WIDTH, STATE_WIDTH};
use tip_hash::tip::Tip4p_256;

fn felts(values: &[u64]) -> Vec<Felt> {
    values.iter().map(|&v| Felt::new(v)).collect()
}

fn state_of(values: &[u64]) -> [Felt; STATE_WIDTH] {
    let mut state = [Felt::zero(); STATE_WIDTH];
    for (s, &v) in state.iter_mut().zip(values) {
        *s = Felt::new(v);
    }
    state
}

fn digest_of(values: [u64; DIGEST_SIZE]) -> ElementDigest {
    let mut elements = [Felt::zero(); DIGEST_SIZE];
    for (e, &v) in elements.iter_mut().zip(values.iter()) {
        *e = Felt::new(v);
    }
    ElementDigest::new(elements)
}

#[test]
fn tests_apply_permutation() {
    let mut state: [Felt; STATE_WIDTH] = [
        Felt::new(0),
        Felt::new(1),
        Felt::new(2),
        Felt::new(3),
        Felt::new(4),
        Felt::new(5),
        Felt::new(6),
        Felt::new(7),
        Felt::new(8),
        Felt::new(9),
        Felt::new(10),
        Felt::new(11),
    ];

    Tip4p_256::apply_permutation(&mut state);

    let expected = vec![
        Felt::new(8086224146445274039),
        Felt::new(12620228105612859910),
        Felt::new(4429745645163147655),
        Felt::new(12827206290147492018),
        Felt::new(7103575185686863209),
        Felt::new(5938996934280238338),
        Felt::new(7458235737397060283),
        Felt::new(127950926479970750),
        Felt::new(433935175963827303),
        Felt::new(11405496933068372192),
        Felt::new(4026696970861104429),
        Felt::new(6779880475047698803),
    ];

    assert_eq!(expected, state);
}

#[test]
fn tests_hash() {
    let state: [Felt; STATE_WIDTH] = [
        Felt::new(0),
        Felt::new(1),
        Felt::new(2),
        Felt::new(3),
        Felt::new(4),
        Felt::new(5),
        Felt::new(6),
        Felt::new(7),
        Felt::new(8),
        Felt::new(9),
        Felt::new(10),
        Felt::new(11),
    ];

    let result = Tip4p_256::hash_elements(&state);

    let expected = vec![
        Felt::new(10976450459897344865),
        Felt::new(91268347875488615),
        Felt::new(11593875934785294243),
        Felt::new(444105276802301255),
    ];

    assert_eq!(expected, result.as_elements());
}

#[test]
fn tip4p_parameters() {
    assert_eq!(Tip4p_256::STATE_WIDTH, 12);
    assert_eq!(Tip4p_256::RATE_RANGE, 0..8);
    assert_eq!(Tip4p_256::CAPACITY_RANGE, 8..12);
    assert_eq!(Tip4p_256::DIGEST_RANGE, 0..4);
    assert_eq!(Tip4p_256::NUM_ROUNDS, 5);
    assert_eq!(Tip4p_256::COLLISION_RESISTANCE, 128);
    assert_eq!(RATE_WIDTH + Tip4p_256::CAPACITY_RANGE.len(), STATE_WIDTH);
    assert!(DIGEST_SIZE <= RATE_WIDTH);
    assert_eq!(Tip4p_256::ARK, ARK);
    assert!(ARK.iter().flatten().all(|&c| c < MODULUS));
    assert_eq!(Tip4p_256::MDS[0], [7, 23, 8, 26, 13, 10, 9, 7, 6, 22, 21, 8]);
    for i in 0..12 {
        for j in 0..12 {
            assert_eq!(Tip4p_256::MDS[i][j], Tip4p_256::MDS[0][(12 + j - i) % 12]);
        }
    }
    assert_eq!(Tip4p_256::LOOKUP[2], 26);
}

#[test]
fn tip4p_permutation_is_five_rounds_in_order() {
    let mut by_rounds = state_of(&[9, 8, 7, 6, 5, 4, 3, 2, 1, 0, 11, 22]);
    let mut at_once = by_rounds;
    for round in 0..NUM_ROUNDS {
        Tip4p_256::apply_round(&mut by_rounds, round);
    }
    Tip4p_256::apply_permutation(&mut at_once);
    assert_eq!(by_rounds, at_once);
    assert!(at_once.iter().all(|e| e.value < MODULUS));

    let mut again = state_of(&[9, 8, 7, 6, 5, 4, 3, 2, 1, 0, 11, 22]);
    Tip4p_256::apply_permutation(&mut again);
    assert_eq!(again, at_once);
}

#[test]
fn tip4p_hash_empty_is_zero() {
    let zeros = vec![Felt::new(0); DIGEST_SIZE];
    assert_eq!(zeros, Tip4p_256::hash(&[]).as_elements());
    assert_eq!(zeros, Tip4p_256::hash_elements(&[]).as_elements());
}

#[test]
fn tip4p_hash_seven_bytes_pads_at_offset_seven() {
    let bytes = [1u8, 2, 3, 4, 5, 6, 7];
    let element = u64::from_le_bytes([1, 2, 3, 4, 5, 6, 7, 1]);
    let expected = felts(&[
        14617160699581923396,
        4919129358162107991,
        6795247636554726694,
        16501019343404448684,
    ]);
    assert_eq!(expected, Tip4p_256::hash(&bytes).as_elements());
    assert_eq!(expected, Tip4p_256::hash_elements(&[Felt::new(element)]).as_elements());
}

#[test]
fn tip4p_hash_fourteen_bytes_is_one_permutation() {
    let bytes: Vec<u8> = (1..=14).collect();
    let mut state = [Felt::zero(); STATE_WIDTH];
    state[0] = Felt::new(u64::from_le_bytes([1, 2, 3, 4, 5, 6, 7, 0]));
    state[1] = Felt::new(u64::from_le_bytes([8, 9, 10, 11, 12, 13, 14, 1]));
    state[RATE_WIDTH] = Felt::new(2);
    Tip4p_256::apply_permutation(&mut state);

    let digest = Tip4p_256::hash(&bytes);
    assert_eq!(&state[..DIGEST_SIZE], digest.as_elements());
    assert_eq!(
        felts(&[
            1287774150378007158,
            2040714995701838666,
            9732501410193945684,
            15623498919144638037,
        ]),
        digest.as_elements()
    );
}

#[test]
fn tip4p_hash_exact() {
    let bytes: Vec<u8> = (1..=100).collect();
    assert_eq!(
        felts(&[
            6617315530673316085,
            12098209812574987624,
            8489449990368349442,
            15057288615277825661,
        ]),
        Tip4p_256::hash(&bytes).as_elements()
    );
    assert_eq!(
        felts(&[
            7087357444817724648,
            265509462147676655,
            17182733635211381684,
            9980281287619847589,
        ]),
        Tip4p_256::hash(&[0]).as_elements()
    );
}

#[test]
fn tip4p_hash_is_hash_elements_on_chunks() {
    for len in 1..70usize {
        let bytes: Vec<u8> = (0..len).map(|i| (i * 91 + 3) as u8).collect();
        let mut elements = Vec::new();
        let chunks: Vec<&[u8]> = bytes.chunks(7).collect();
        for (k, chunk) in chunks.iter().enumerate() {
            let mut buf = [0u8; 8];
            buf[..chunk.len()].copy_from_slice(chunk);
            if k == chunks.len() - 1 {
                buf[chunk.len()] = 1;
            }
            elements.push(Felt::new(u64::from_le_bytes(buf)));
        }
        assert_eq!(Tip4p_256::hash(&bytes), Tip4p_256::hash_elements(&elements));
    }
}

#[test]
fn tip4p_trailing_zero_changes_hash() {
    for len in 0..30usize {
        let bytes: Vec<u8> = (0..len).map(|i| (i * 5) as u8).collect();
        let mut longer = bytes.clone();
        longer.push(0);
        assert_ne!(Tip4p_256::hash(&bytes), Tip4p_256::hash(&longer));
    }
    assert_ne!(
        Tip4p_256::hash_elements(&felts(&[1, 2, 3])),
        Tip4p_256::hash_elements(&felts(&[1, 2, 3, 0]))
    );
}

#[test]
fn tip4p_hash_elements_exact_over_several_blocks() {
    let elements: Vec<Felt> = (100..130).map(Felt::new).collect();
    assert_eq!(
        felts(&[
            3298737978467697843,
            9723942161022469317,
            4390552700457709649,
            5252773936847296552,
        ]),
        Tip4p_256::hash_elements(&elements).as_elements()
    );
    let unreduced: Vec<Felt> = (100..130).map(|v| Felt { value: v + MODULUS }).collect();
    assert_eq!(Tip4p_256::hash_elements(&elements), Tip4p_256::hash_elements(&unreduced));
}

#[test]
fn tip4p_merge_exact() {
    let a = digest_of([1, 2, 3, 4]);
    let b = digest_of([11, 12, 13, 14]);
    let mut state = state_of(&[1, 2, 3, 4, 11, 12, 13, 14]);
    state[RATE_WIDTH] = Felt::new(8);
    Tip4p_256::apply_permutation(&mut state);

    let digest = Tip4p_256::merge(&[a, b]);
    assert_eq!(&state[..DIGEST_SIZE], digest.as_elements());
    assert_eq!(
        felts(&[
            10788855887524393597,
            82984579760382750,
            15446789959149935121,
            3917435281290673503,
        ]),
        digest.as_elements()
    );
}

#[test]
fn tip4p_merge_with_int_exact() {
    let seed = digest_of([1, 2, 3, 4]);
    assert_eq!(
        felts(&[
            10047847270586299817,
            10471756431161805763,
            4580036271753555053,
            842713116800430800,
        ]),
        Tip4p_256::merge_with_int(seed, 42).as_elements()
    );
    assert_eq!(
        felts(&[
            11160234008440586884,
            7541311155663529161,
            10516252913363688264,
            5169130665223391611,
        ]),
        Tip4p_256::merge_with_int(seed, MODULUS - 1).as_elements()
    );
    assert_eq!(
        felts(&[
            463001382746755316,
            10419435651447609002,
            18130595493957547118,
            4278364274978102697,
        ]),
        Tip4p_256::merge_with_int(seed, MODULUS).as_elements()
    );
    assert_eq!(
        felts(&[
            17865862487264805315,
            9224526622491085917,
            9978933292044878134,
            4039717132043293554,
        ]),
        Tip4p_256::merge_with_int(seed, u64::MAX).as_elements()
    );
}

#[test]
fn tip4p_merge_is_hash_elements() {
    let a = digest_of([1, 2, 3, 4]);
    let b = digest_of([11, 12, 13, 14]);
    assert_eq!(
        Tip4p_256::merge(&[a, b]),
        Tip4p_256::hash_elements(&felts(&[1, 2, 3, 4, 11, 12, 13, 14]))
    );
}

#[test]
fn tip4p_merge_with_int_is_hash_elements() {
    let seed = digest_of([1, 2, 3, 4]);
    assert_eq!(Tip4p_256::merge_with_int(seed, 42), Tip4p_256::hash_elements(&felts(&[1, 2, 3, 4, 42])));
    assert_eq!(
        Tip4p_256::merge_with_int(seed, u64::MAX),
        Tip4p_256::hash_elements(&felts(&[1, 2, 3, 4, 0xffff_fffe, 1]))
    );
}

#[test]
fn tip4p_layers_exact() {
    let mut state = state_of(&[0, 1, 12345, MODULUS - 1, 3, MODULUS - 1, 0, 1]);
    Tip4p_256::apply_sbox(&mut state);
    let got: Vec<u64> = state.iter().map(|e| e.value).collect();
    assert_eq!(
        got,
        vec![0, 1, 51097, 18446743992105172986, 2187, MODULUS - 1, 0, 1, 0, 0, 0, 0]
    );

    let mut state = state_of(&[0, 1, 2, 3, 4, 5, 6, 7, 8, 9, 10, 11]);
    Tip4p_256::apply_mds(&mut state);
    let got: Vec<u64> = state.iter().map(|e| e.value).collect();
    assert_eq!(got, vec![866, 930, 838, 734, 822, 898, 950, 990, 994, 842, 906, 790]);

    let mut state = state_of(&[1; 12]);
    Tip4p_256::add_constants(&mut state, &ARK[4]);
    for i in 0..12 {
        assert_eq!(state[i].value, ARK[4][i] + 1);
    }
}
